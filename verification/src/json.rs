use vstd::prelude::*;

use crate::chars::char_from_u32;

verus! {

/// Nesting deeper than this is rejected, so that parsing a hostile body
/// cannot exhaust the stack.
pub const NESTING_LIMIT: u32 = 128;

/// A JSON document. Numbers are kept as their lexeme: the pipeline never
/// reads a numeric value, it only skips them inside unrecognized fields.
pub enum JsonData {
    Null,
    Bool(bool),
    Num(Seq<char>),
    Text(Seq<char>),
    Arr(Seq<JsonData>),
    Obj(Seq<(Seq<char>, JsonData)>),
}

pub open spec fn is_ws(c: char) -> bool {
    c == ' ' || c == '\t' || c == '\n' || c == '\r'
}

pub open spec fn is_digit(c: char) -> bool {
    '0' as u32 <= c as u32 && c as u32 <= '9' as u32
}

/// The first position at or after `i` that holds no whitespace.
pub open spec fn skip_ws(s: Seq<char>, i: int) -> int
    decreases s.len() - i,
{
    if 0 <= i < s.len() && is_ws(s[i]) {
        skip_ws(s, i + 1)
    } else {
        i
    }
}

/// The value of a hexadecimal digit, or -1.
pub open spec fn hex_val(c: char) -> int {
    let u = c as u32;
    if '0' as u32 <= u && u <= '9' as u32 {
        u - '0' as u32
    } else if 'a' as u32 <= u && u <= 'f' as u32 {
        u - 'a' as u32 + 10
    } else if 'A' as u32 <= u && u <= 'F' as u32 {
        u - 'A' as u32 + 10
    } else {
        -1
    }
}

/// The value of the four hexadecimal digits at `i`, or -1 if any is
/// missing or not a digit.
pub open spec fn hex4(s: Seq<char>, i: int) -> int {
    if 0 <= i && i + 4 <= s.len() && hex_val(s[i]) >= 0 && hex_val(s[i + 1]) >= 0 && hex_val(
        s[i + 2],
    ) >= 0 && hex_val(s[i + 3]) >= 0 {
        ((hex_val(s[i]) * 16 + hex_val(s[i + 1])) * 16 + hex_val(s[i + 2])) * 16 + hex_val(s[i + 3])
    } else {
        -1
    }
}

/// Scans the contents of a string literal from `i` (just after the opening
/// quote), unescaping as it goes. Returns the accumulated characters and
/// the position just after the closing quote.
pub open spec fn scan_text(s: Seq<char>, i: int, acc: Seq<char>) -> Option<(Seq<char>, int)>
    decreases s.len() - i,
{
    if !(0 <= i < s.len()) {
        None
    } else {
        let c = s[i];
        if c == '"' {
            Some((acc, i + 1))
        } else if c == '\\' {
            if i + 1 < s.len() {
                let e = s[i + 1];
                if e == '"' {
                    scan_text(s, i + 2, acc.push('"'))
                } else if e == '\\' {
                    scan_text(s, i + 2, acc.push('\\'))
                } else if e == '/' {
                    scan_text(s, i + 2, acc.push('/'))
                } else if e == 'b' {
                    scan_text(s, i + 2, acc.push('\u{0008}'))
                } else if e == 'f' {
                    scan_text(s, i + 2, acc.push('\u{000C}'))
                } else if e == 'n' {
                    scan_text(s, i + 2, acc.push('\n'))
                } else if e == 'r' {
                    scan_text(s, i + 2, acc.push('\r'))
                } else if e == 't' {
                    scan_text(s, i + 2, acc.push('\t'))
                } else if e == 'u' {
                    let h = hex4(s, i + 2);
                    if h < 0 {
                        None
                    } else if 0xD800 <= h < 0xDC00 {
                        // a high surrogate must pair with a following low
                        // surrogate escape
                        if i + 7 < s.len() && s[i + 6] == '\\' && s[i + 7] == 'u' {
                            let l = hex4(s, i + 8);
                            if 0xDC00 <= l < 0xE000 {
                                scan_text(
                                    s,
                                    i + 12,
                                    acc.push(
                                        (0x10000 + (h - 0xD800) * 0x400 + (l - 0xDC00)) as char,
                                    ),
                                )
                            } else {
                                None
                            }
                        } else {
                            None
                        }
                    } else if 0xDC00 <= h < 0xE000 {
                        None
                    } else {
                        scan_text(s, i + 6, acc.push(h as char))
                    }
                } else {
                    None
                }
            } else {
                None
            }
        } else if (c as u32) < 0x20 {
            None
        } else {
            scan_text(s, i + 1, acc.push(c))
        }
    }
}

/// The first position at or after `i` that holds no decimal digit.
pub open spec fn skip_digits(s: Seq<char>, i: int) -> int
    decreases s.len() - i,
{
    if 0 <= i < s.len() && is_digit(s[i]) {
        skip_digits(s, i + 1)
    } else {
        i
    }
}

/// Scans a number starting at `i` and returns the position just after it:
/// an optional minus sign, an integer part without leading zeros, an
/// optional fraction, an optional exponent.
pub open spec fn scan_number(s: Seq<char>, i: int) -> Option<int> {
    if !(0 <= i < s.len()) {
        None
    } else {
        let p = if s[i] == '-' {
            i + 1
        } else {
            i
        };
        if !(p < s.len() && is_digit(s[p])) {
            None
        } else {
            let ip = if s[p] == '0' {
                p + 1
            } else {
                skip_digits(s, p)
            };
            let fp = if ip < s.len() && s[ip] == '.' {
                let d = skip_digits(s, ip + 1);
                if d == ip + 1 {
                    -1
                } else {
                    d
                }
            } else {
                ip
            };
            if fp < 0 {
                None
            } else {
                let ep = if fp < s.len() && (s[fp] == 'e' || s[fp] == 'E') {
                    let q = if fp + 1 < s.len() && (s[fp + 1] == '+' || s[fp + 1] == '-') {
                        fp + 2
                    } else {
                        fp + 1
                    };
                    let d = skip_digits(s, q);
                    if d == q {
                        -1
                    } else {
                        d
                    }
                } else {
                    fp
                };
                if ep < 0 {
                    None
                } else {
                    Some(ep)
                }
            }
        }
    }
}

/// Parses one JSON value starting exactly at `i`, with `depth` nesting
/// levels still allowed. Returns the value and the position just after it.
pub open spec fn parse_value(s: Seq<char>, i: int, depth: nat) -> Option<(JsonData, int)>
    decreases s.len() - i, 0int,
{
    if !(0 <= i < s.len()) {
        None
    } else {
        let c = s[i];
        if c == 'n' {
            if i + 4 <= s.len() && s[i + 1] == 'u' && s[i + 2] == 'l' && s[i + 3] == 'l' {
                Some((JsonData::Null, i + 4))
            } else {
                None
            }
        } else if c == 't' {
            if i + 4 <= s.len() && s[i + 1] == 'r' && s[i + 2] == 'u' && s[i + 3] == 'e' {
                Some((JsonData::Bool(true), i + 4))
            } else {
                None
            }
        } else if c == 'f' {
            if i + 5 <= s.len() && s[i + 1] == 'a' && s[i + 2] == 'l' && s[i + 3] == 's' && s[i + 4]
                == 'e' {
                Some((JsonData::Bool(false), i + 5))
            } else {
                None
            }
        } else if c == '"' {
            match scan_text(s, i + 1, Seq::empty()) {
                Some((t, j)) => Some((JsonData::Text(t), j)),
                None => None,
            }
        } else if c == '-' || is_digit(c) {
            match scan_number(s, i) {
                Some(j) => if i < j <= s.len() {
                    Some((JsonData::Num(s.subrange(i, j)), j))
                } else {
                    None
                },
                None => None,
            }
        } else if c == '[' {
            if depth == 0 {
                None
            } else {
                let k = skip_ws(s, i + 1);
                if !(i < k <= s.len()) {
                    None
                } else if k < s.len() && s[k] == ']' {
                    Some((JsonData::Arr(Seq::empty()), k + 1))
                } else {
                    match parse_elems(s, k, (depth - 1) as nat, Seq::empty()) {
                        Some((items, j)) => Some((JsonData::Arr(items), j)),
                        None => None,
                    }
                }
            }
        } else if c == '{' {
            if depth == 0 {
                None
            } else {
                let k = skip_ws(s, i + 1);
                if !(i < k <= s.len()) {
                    None
                } else if k < s.len() && s[k] == '}' {
                    Some((JsonData::Obj(Seq::empty()), k + 1))
                } else {
                    match parse_members(s, k, (depth - 1) as nat, Seq::empty()) {
                        Some((fields, j)) => Some((JsonData::Obj(fields), j)),
                        None => None,
                    }
                }
            }
        } else {
            None
        }
    }
}

/// Parses the elements of an array from the start of its first element,
/// returning the elements and the position just after the closing bracket.
pub open spec fn parse_elems(s: Seq<char>, i: int, depth: nat, acc: Seq<JsonData>) -> Option<
    (Seq<JsonData>, int),
>
    decreases s.len() - i, 1int,
{
    if !(0 <= i < s.len()) {
        None
    } else {
        match parse_value(s, i, depth) {
            None => None,
            Some((v, j)) => {
                if !(i < j <= s.len()) {
                    None
                } else {
                    let k = skip_ws(s, j);
                    if !(j <= k <= s.len()) {
                        None
                    } else if k < s.len() && s[k] == ',' {
                        let m = skip_ws(s, k + 1);
                        if !(k < m <= s.len()) {
                            None
                        } else {
                            parse_elems(s, m, depth, acc.push(v))
                        }
                    } else if k < s.len() && s[k] == ']' {
                        Some((acc.push(v), k + 1))
                    } else {
                        None
                    }
                }
            },
        }
    }
}

/// Parses the members of an object from the start of its first key,
/// returning the key/value pairs and the position just after the closing
/// brace.
pub open spec fn parse_members(
    s: Seq<char>,
    i: int,
    depth: nat,
    acc: Seq<(Seq<char>, JsonData)>,
) -> Option<(Seq<(Seq<char>, JsonData)>, int)>
    decreases s.len() - i, 1int,
{
    if !(0 <= i < s.len() && s[i] == '"') {
        None
    } else {
        match scan_text(s, i + 1, Seq::empty()) {
            None => None,
            Some((key, j)) => {
                if !(i < j <= s.len()) {
                    None
                } else {
                    let k = skip_ws(s, j);
                    if !(j <= k <= s.len() && k < s.len() && s[k] == ':') {
                        None
                    } else {
                        let m = skip_ws(s, k + 1);
                        if !(k < m <= s.len()) {
                            None
                        } else {
                            match parse_value(s, m, depth) {
                                None => None,
                                Some((v, j2)) => {
                                    if !(m < j2 <= s.len()) {
                                        None
                                    } else {
                                        let k2 = skip_ws(s, j2);
                                        if !(j2 <= k2 <= s.len()) {
                                            None
                                        } else if k2 < s.len() && s[k2] == ',' {
                                            let m2 = skip_ws(s, k2 + 1);
                                            if !(k2 < m2 <= s.len()) {
                                                None
                                            } else {
                                                parse_members(s, m2, depth, acc.push((key, v)))
                                            }
                                        } else if k2 < s.len() && s[k2] == '}' {
                                            Some((acc.push((key, v)), k2 + 1))
                                        } else {
                                            None
                                        }
                                    }
                                },
                            }
                        }
                    }
                }
            },
        }
    }
}

/// What an exec scan reports about a parsed value: string contents and
/// nulls are distinguished, because the payload fields read them; every
/// other value is only skipped.
pub enum ValueShape {
    Text(Vec<char>),
    Null,
    Other,
}

fn is_ws_x(c: char) -> (r: bool)
    ensures
        r == is_ws(c),
{
    c == ' ' || c == '\t' || c == '\n' || c == '\r'
}

fn is_digit_x(c: char) -> (r: bool)
    ensures
        r == is_digit(c),
{
    let u = c as u32;
    '0' as u32 <= u && u <= '9' as u32
}

fn hex_val_x(c: char) -> (r: Option<u32>)
    ensures
        r is Some <==> hex_val(c) >= 0,
        r is Some ==> r.unwrap() as int == hex_val(c),
{
    let u = c as u32;
    if '0' as u32 <= u && u <= '9' as u32 {
        Some(u - '0' as u32)
    } else if 'a' as u32 <= u && u <= 'f' as u32 {
        Some(u - 'a' as u32 + 10)
    } else if 'A' as u32 <= u && u <= 'F' as u32 {
        Some(u - 'A' as u32 + 10)
    } else {
        None
    }
}

fn hex4_x(s: &Vec<char>, i: usize) -> (r: Option<u32>)
    ensures
        r is Some <==> hex4(s@, i as int) >= 0,
        r is Some ==> r.unwrap() as int == hex4(s@, i as int),
        r is Some ==> i + 4 <= s@.len(),
{
    if i > s.len() || s.len() - i < 4 {
        return None;
    }
    let h0 = hex_val_x(s[i]);
    let h1 = hex_val_x(s[i + 1]);
    let h2 = hex_val_x(s[i + 2]);
    let h3 = hex_val_x(s[i + 3]);
    match (h0, h1, h2, h3) {
        (Some(a), Some(b), Some(c), Some(d)) => Some(((a * 16 + b) * 16 + c) * 16 + d),
        _ => None,
    }
}

pub fn skip_ws_x(s: &Vec<char>, start: usize) -> (j: usize)
    requires
        start <= s@.len(),
    ensures
        j as int == skip_ws(s@, start as int),
        start <= j <= s@.len(),
{
    let mut j = start;
    while j < s.len() && is_ws_x(s[j])
        invariant
            start <= j <= s@.len(),
            skip_ws(s@, start as int) == skip_ws(s@, j as int),
        decreases s@.len() - j,
    {
        j = j + 1;
    }
    j
}

fn skip_digits_x(s: &Vec<char>, start: usize) -> (j: usize)
    requires
        start <= s@.len(),
    ensures
        j as int == skip_digits(s@, start as int),
        start <= j <= s@.len(),
        start < s@.len() && is_digit(s@[start as int]) ==> j > start,
{
    let mut j = start;
    while j < s.len() && is_digit_x(s[j])
        invariant
            start <= j <= s@.len(),
            skip_digits(s@, start as int) == skip_digits(s@, j as int),
        decreases s@.len() - j,
    {
        j = j + 1;
    }
    j
}

/// Scans a string literal from just after its opening quote, unescaping
/// its contents.
pub fn scan_text_x(s: &Vec<char>, start: usize) -> (r: Option<(Vec<char>, usize)>)
    requires
        start <= s@.len(),
    ensures
        match scan_text(s@, start as int, Seq::empty()) {
            Some((t, j)) => r is Some && r.unwrap().0@ == t && r.unwrap().1 as int == j && start
                < j <= s@.len(),
            None => r is None,
        },
{
    let mut i = start;
    let mut acc: Vec<char> = Vec::new();
    loop
        invariant
            start <= i <= s@.len(),
            scan_text(s@, start as int, Seq::empty()) == scan_text(s@, i as int, acc@),
        decreases s@.len() - i,
    {
        if i >= s.len() {
            return None;
        }
        let c = s[i];
        if c == '"' {
            return Some((acc, i + 1));
        } else if c == '\\' {
            if s.len() - i <= 1 {
                return None;
            }
            let e = s[i + 1];
            if e == '"' {
                acc.push('"');
                i = i + 2;
            } else if e == '\\' {
                acc.push('\\');
                i = i + 2;
            } else if e == '/' {
                acc.push('/');
                i = i + 2;
            } else if e == 'b' {
                acc.push('\u{0008}');
                i = i + 2;
            } else if e == 'f' {
                acc.push('\u{000C}');
                i = i + 2;
            } else if e == 'n' {
                acc.push('\n');
                i = i + 2;
            } else if e == 'r' {
                acc.push('\r');
                i = i + 2;
            } else if e == 't' {
                acc.push('\t');
                i = i + 2;
            } else if e == 'u' {
                let h = match hex4_x(s, i + 2) {
                    Some(h) => h,
                    None => {
                        return None;
                    },
                };
                if 0xD800 <= h && h < 0xDC00 {
                    if s.len() - i > 7 && s[i + 6] == '\\' && s[i + 7] == 'u' {
                        let l = match hex4_x(s, i + 8) {
                            Some(l) => l,
                            None => {
                                return None;
                            },
                        };
                        if 0xDC00 <= l && l < 0xE000 {
                            let code: u32 = 0x10000 + (h - 0xD800) * 0x400 + (l - 0xDC00);
                            match char_from_u32(code) {
                                Some(ch) => {
                                    acc.push(ch);
                                    i = i + 12;
                                },
                                None => {
                                    proof {
                                        assert(false);
                                    }
                                    return None;
                                },
                            }
                        } else {
                            return None;
                        }
                    } else {
                        return None;
                    }
                } else if 0xDC00 <= h && h < 0xE000 {
                    return None;
                } else {
                    match char_from_u32(h) {
                        Some(ch) => {
                            acc.push(ch);
                            i = i + 6;
                        },
                        None => {
                            proof {
                                assert(false);
                            }
                            return None;
                        },
                    }
                }
            } else {
                return None;
            }
        } else if (c as u32) < 0x20 {
            return None;
        } else {
            acc.push(c);
            i = i + 1;
        }
    }
}

fn scan_number_x(s: &Vec<char>, i: usize) -> (r: Option<usize>)
    requires
        i <= s@.len(),
    ensures
        match scan_number(s@, i as int) {
            Some(j) => r is Some && r.unwrap() as int == j && i < j <= s@.len(),
            None => r is None,
        },
{
    if i >= s.len() {
        return None;
    }
    let p = if s[i] == '-' {
        i + 1
    } else {
        i
    };
    if p >= s.len() {
        return None;
    }
    if !is_digit_x(s[p]) {
        return None;
    }
    let ip = if s[p] == '0' {
        p + 1
    } else {
        skip_digits_x(s, p)
    };
    let fp = if ip < s.len() && s[ip] == '.' {
        let d = skip_digits_x(s, ip + 1);
        if d == ip + 1 {
            return None;
        }
        d
    } else {
        ip
    };
    let ep = if fp < s.len() && (s[fp] == 'e' || s[fp] == 'E') {
        let q = if fp + 1 < s.len() && (s[fp + 1] == '+' || s[fp + 1] == '-') {
            fp + 2
        } else {
            fp + 1
        };
        let d = skip_digits_x(s, q);
        if d == q {
            return None;
        }
        d
    } else {
        fp
    };
    Some(ep)
}

/// Parses one JSON value starting exactly at `i`, reporting its end and
/// its shape.
pub fn parse_value_x(s: &Vec<char>, i: usize, depth: u32) -> (r: Option<(ValueShape, usize)>)
    requires
        i <= s@.len(),
    ensures
        match parse_value(s@, i as int, depth as nat) {
            Some((v, j)) => {
                &&& r is Some
                &&& r.unwrap().1 as int == j
                &&& i < j <= s@.len()
                &&& match r.unwrap().0 {
                    ValueShape::Text(t) => v == JsonData::Text(t@),
                    ValueShape::Null => v == JsonData::Null,
                    ValueShape::Other => !(v is Text) && !(v is Null),
                }
            },
            None => r is None,
        },
    decreases s@.len() - i, 0int,
{
    if i >= s.len() {
        return None;
    }
    let c = s[i];
    if c == 'n' {
        if s.len() - i >= 4 && s[i + 1] == 'u' && s[i + 2] == 'l' && s[i + 3] == 'l' {
            Some((ValueShape::Null, i + 4))
        } else {
            None
        }
    } else if c == 't' {
        if s.len() - i >= 4 && s[i + 1] == 'r' && s[i + 2] == 'u' && s[i + 3] == 'e' {
            Some((ValueShape::Other, i + 4))
        } else {
            None
        }
    } else if c == 'f' {
        if s.len() - i >= 5 && s[i + 1] == 'a' && s[i + 2] == 'l' && s[i + 3] == 's' && s[i + 4]
            == 'e' {
            Some((ValueShape::Other, i + 5))
        } else {
            None
        }
    } else if c == '"' {
        match scan_text_x(s, i + 1) {
            Some((t, j)) => Some((ValueShape::Text(t), j)),
            None => None,
        }
    } else if c == '-' || is_digit_x(c) {
        match scan_number_x(s, i) {
            Some(j) => Some((ValueShape::Other, j)),
            None => None,
        }
    } else if c == '[' {
        if depth == 0 {
            return None;
        }
        let k = skip_ws_x(s, i + 1);
        if k < s.len() && s[k] == ']' {
            Some((ValueShape::Other, k + 1))
        } else {
            match parse_elems_x(s, k, depth - 1) {
                Some(j) => Some((ValueShape::Other, j)),
                None => None,
            }
        }
    } else if c == '{' {
        if depth == 0 {
            return None;
        }
        let k = skip_ws_x(s, i + 1);
        if k < s.len() && s[k] == '}' {
            Some((ValueShape::Other, k + 1))
        } else {
            match parse_members_x(s, k, depth - 1) {
                Some(j) => Some((ValueShape::Other, j)),
                None => None,
            }
        }
    } else {
        None
    }
}

/// Skips the elements of an array from the start of its first element.
fn parse_elems_x(s: &Vec<char>, start: usize, depth: u32) -> (r: Option<usize>)
    requires
        start <= s@.len(),
    ensures
        match parse_elems(s@, start as int, depth as nat, Seq::empty()) {
            Some((items, j)) => r is Some && r.unwrap() as int == j && start < j <= s@.len(),
            None => r is None,
        },
    decreases s@.len() - start, 1int,
{
    let mut i = start;
    let ghost mut acc: Seq<JsonData> = Seq::empty();
    loop
        invariant
            start <= i <= s@.len(),
            parse_elems(s@, start as int, depth as nat, Seq::empty()) == parse_elems(
                s@,
                i as int,
                depth as nat,
                acc,
            ),
        decreases s@.len() - i,
    {
        match parse_value_x(s, i, depth) {
            None => {
                return None;
            },
            Some((_shape, j)) => {
                proof {
                    let (v, _) = parse_value(s@, i as int, depth as nat).unwrap();
                    acc = acc.push(v);
                }
                let k = skip_ws_x(s, j);
                if k < s.len() && s[k] == ',' {
                    let m = skip_ws_x(s, k + 1);
                    i = m;
                } else if k < s.len() && s[k] == ']' {
                    return Some(k + 1);
                } else {
                    return None;
                }
            },
        }
    }
}

/// Skips the members of an object from the start of its first key.
fn parse_members_x(s: &Vec<char>, start: usize, depth: u32) -> (r: Option<usize>)
    requires
        start <= s@.len(),
    ensures
        match parse_members(s@, start as int, depth as nat, Seq::empty()) {
            Some((fields, j)) => r is Some && r.unwrap() as int == j && start < j <= s@.len(),
            None => r is None,
        },
    decreases s@.len() - start, 1int,
{
    let mut i = start;
    let ghost mut acc: Seq<(Seq<char>, JsonData)> = Seq::empty();
    loop
        invariant
            start <= i <= s@.len(),
            parse_members(s@, start as int, depth as nat, Seq::empty()) == parse_members(
                s@,
                i as int,
                depth as nat,
                acc,
            ),
        decreases s@.len() - i,
    {
        if i >= s.len() {
            return None;
        }
        if s[i] != '"' {
            return None;
        }
        match scan_text_x(s, i + 1) {
            None => {
                return None;
            },
            Some((_key, j)) => {
                let k = skip_ws_x(s, j);
                if !(k < s.len() && s[k] == ':') {
                    return None;
                }
                let m = skip_ws_x(s, k + 1);
                match parse_value_x(s, m, depth) {
                    None => {
                        return None;
                    },
                    Some((_shape, j2)) => {
                        proof {
                            let (key, _) = scan_text(s@, i + 1 as int, Seq::empty()).unwrap();
                            let (v, _) = parse_value(s@, m as int, depth as nat).unwrap();
                            acc = acc.push((key, v));
                        }
                        let k2 = skip_ws_x(s, j2);
                        if k2 < s.len() && s[k2] == ',' {
                            let m2 = skip_ws_x(s, k2 + 1);
                            i = m2;
                        } else if k2 < s.len() && s[k2] == '}' {
                            return Some(k2 + 1);
                        } else {
                            return None;
                        }
                    },
                }
            },
        }
    }
}


} // verus!
