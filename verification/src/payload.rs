use vstd::prelude::*;
use vstd::string::*;

use crate::chars::chars_eq_str;
use crate::chars::chars_to_string;
use crate::chars::str_to_chars;
use crate::error::Error;
use crate::json::JsonData;
use crate::json::NESTING_LIMIT;
use crate::json::ValueShape;
use crate::json::parse_value;
use crate::json::parse_value_x;
use crate::json::scan_text;
use crate::json::scan_text_x;
use crate::json::skip_ws;
use crate::json::skip_ws_x;

verus! {

/// An inbound request body, decoded: the message to publish and an
/// optional subject. The body is a JSON object whose recognized fields
/// are `message` (required, a string) and `subject` (optional, a string
/// or null); unknown fields are ignored, repeated recognized fields are
/// rejected.
#[derive(Debug)]
pub struct Payload {
    pub message: String,
    pub subject: Option<String>,
}

/// The description carried by every rejection of a request body.
pub open spec fn body_error_text() -> Seq<char> {
    "the request body must be a JSON object with a required string field message and an optional string field subject"@
}

pub open spec fn opt_chars_view(o: Option<Vec<char>>) -> Option<Seq<char>> {
    match o {
        Some(v) => Some(v@),
        None => None,
    }
}

pub open spec fn subj_state_view(seen: bool, o: Option<Vec<char>>) -> Option<Option<Seq<char>>> {
    if seen {
        Some(opt_chars_view(o))
    } else {
        None
    }
}

/// How one object member changes the decoding state: `msg` is the message
/// seen so far, `subj` the subject seen so far (`Some(None)` records an
/// explicit null). Returns `None` when the member is rejected.
pub open spec fn member_update(
    key: Seq<char>,
    v: JsonData,
    msg: Option<Seq<char>>,
    subj: Option<Option<Seq<char>>>,
) -> Option<(Option<Seq<char>>, Option<Option<Seq<char>>>)> {
    if key == "message"@ {
        if msg is Some {
            None
        } else {
            match v {
                JsonData::Text(t) => Some((Some(t), subj)),
                _ => None,
            }
        }
    } else if key == "subject"@ {
        if subj is Some {
            None
        } else {
            match v {
                JsonData::Text(t) => Some((msg, Some(Some(t)))),
                JsonData::Null => Some((msg, Some(None))),
                _ => None,
            }
        }
    } else {
        Some((msg, subj))
    }
}

/// Decodes the members of the payload object from the start of its first
/// key, carrying the fields seen so far. Returns the decoded payload and
/// the position just after the closing brace.
pub open spec fn payload_fields(
    s: Seq<char>,
    i: int,
    depth: nat,
    msg: Option<Seq<char>>,
    subj: Option<Option<Seq<char>>>,
) -> Option<((Seq<char>, Option<Seq<char>>), int)>
    decreases s.len() - i,
{
    if !(0 <= i < s.len() && s[i] == '"') {
        None
    } else {
        match scan_text(s, i + 1, Seq::empty()) {
            None => None,
            Some((key, j)) => {
                if !(i < j <= s.len()) {
                    None
                } else {
                    let k = skip_ws(s, j);
                    if !(j <= k <= s.len() && k < s.len() && s[k] == ':') {
                        None
                    } else {
                        let m = skip_ws(s, k + 1);
                        if !(k < m <= s.len()) {
                            None
                        } else {
                            match parse_value(s, m, depth) {
                                None => None,
                                Some((v, j2)) => {
                                    if !(m < j2 <= s.len()) {
                                        None
                                    } else {
                                        match member_update(key, v, msg, subj) {
                                            None => None,
                                            Some((msg2, subj2)) => {
                                                let k2 = skip_ws(s, j2);
                                                if !(j2 <= k2 <= s.len()) {
                                                    None
                                                } else if k2 < s.len() && s[k2] == ',' {
                                                    let m2 = skip_ws(s, k2 + 1);
                                                    if !(k2 < m2 <= s.len()) {
                                                        None
                                                    } else {
                                                        payload_fields(s, m2, depth, msg2, subj2)
                                                    }
                                                } else if k2 < s.len() && s[k2] == '}' {
                                                    match msg2 {
                                                        Some(mm) => Some(
                                                            (
                                                                (
                                                                    mm,
                                                                    match subj2 {
                                                                        Some(ss) => ss,
                                                                        None => None,
                                                                    },
                                                                ),
                                                                k2 + 1,
                                                            ),
                                                        ),
                                                        None => None,
                                                    }
                                                } else {
                                                    None
                                                }
                                            },
                                        }
                                    }
                                },
                            }
                        }
                    }
                }
            },
        }
    }
}

/// Decodes a request body: the message and optional subject, or `None`
/// when the body is rejected.
pub open spec fn http_payload(s: Seq<char>) -> Option<(Seq<char>, Option<Seq<char>>)> {
    let i = skip_ws(s, 0);
    if !(0 <= i < s.len() && s[i] == '{') {
        None
    } else {
        let k = skip_ws(s, i + 1);
        if !(i < k <= s.len()) {
            None
        } else if k < s.len() && s[k] == '}' {
            None
        } else {
            match payload_fields(s, k, (NESTING_LIMIT - 1) as nat, None, None) {
                Some((p, end)) => if skip_ws(s, end) == s.len() {
                    Some(p)
                } else {
                    None
                },
                None => None,
            }
        }
    }
}

/// The error every rejected body maps to.
fn serialization_error() -> (e: Error)
    ensures
        e is SerializationFailure,
        e.spec_text() == body_error_text(),
{
    Error::SerializationFailure(
        String::from_str(
            "the request body must be a JSON object with a required string field message and an optional string field subject",
        ),
    )
}

/// Decodes a request body, as `http_payload` says.
pub fn parse_payload(body: &str) -> (r: Result<Payload, Error>)
    ensures
        match http_payload(body@) {
            Some((m, su)) => r is Ok && r.unwrap().message@ == m && (match su {
                Some(t) => r.unwrap().subject is Some && r.unwrap().subject.unwrap()@ == t,
                None => r.unwrap().subject is None,
            }),
            None => r is Err && r.unwrap_err() is SerializationFailure
                && r.unwrap_err().spec_text() == body_error_text(),
        },
{
    let s = str_to_chars(body);
    let i = skip_ws_x(&s, 0);
    if !(i < s.len() && s[i] == '{') {
        return Err(serialization_error());
    }
    let k = skip_ws_x(&s, i + 1);
    if k < s.len() && s[k] == '}' {
        return Err(serialization_error());
    }
    let mut pos = k;
    let mut msg: Option<Vec<char>> = None;
    let mut subj_seen = false;
    let mut subj: Option<Vec<char>> = None;
    loop
        invariant
            k <= pos <= s@.len(),
            s@ == body@,
            i as int == skip_ws(s@, 0),
            i < s@.len() && s@[i as int] == '{',
            k as int == skip_ws(s@, i + 1),
            i < k <= s@.len(),
            !(k < s@.len() && s@[k as int] == '}'),
            payload_fields(s@, k as int, (NESTING_LIMIT - 1) as nat, None, None)
                == payload_fields(
                s@,
                pos as int,
                (NESTING_LIMIT - 1) as nat,
                opt_chars_view(msg),
                subj_state_view(subj_seen, subj),
            ),
        decreases s@.len() - pos,
    {
        if pos >= s.len() {
            return Err(serialization_error());
        }
        if s[pos] != '"' {
            return Err(serialization_error());
        }
        match scan_text_x(&s, pos + 1) {
            None => {
                return Err(serialization_error());
            },
            Some((key, j)) => {
                let kk = skip_ws_x(&s, j);
                if !(kk < s.len() && s[kk] == ':') {
                    return Err(serialization_error());
                }
                let m = skip_ws_x(&s, kk + 1);
                match parse_value_x(&s, m, NESTING_LIMIT - 1) {
                    None => {
                        return Err(serialization_error());
                    },
                    Some((shape, j2)) => {
                        if chars_eq_str(&key, "message") {
                            if msg.is_some() {
                                return Err(serialization_error());
                            }
                            match shape {
                                ValueShape::Text(t) => {
                                    msg = Some(t);
                                },
                                _ => {
                                    return Err(serialization_error());
                                },
                            }
                        } else if chars_eq_str(&key, "subject") {
                            if subj_seen {
                                return Err(serialization_error());
                            }
                            subj_seen = true;
                            match shape {
                                ValueShape::Text(t) => {
                                    subj = Some(t);
                                },
                                ValueShape::Null => {
                                    subj = None;
                                },
                                ValueShape::Other => {
                                    return Err(serialization_error());
                                },
                            }
                        }
                        let k2 = skip_ws_x(&s, j2);
                        if k2 < s.len() && s[k2] == ',' {
                            let m2 = skip_ws_x(&s, k2 + 1);
                            pos = m2;
                        } else if k2 < s.len() && s[k2] == '}' {
                            let e = skip_ws_x(&s, k2 + 1);
                            if e != s.len() {
                                return Err(serialization_error());
                            }
                            match msg {
                                Some(mv) => {
                                    let message = chars_to_string(&mv);
                                    let subject: Option<String> = if subj_seen {
                                        match &subj {
                                            Some(sv) => Some(chars_to_string(sv)),
                                            None => None,
                                        }
                                    } else {
                                        None
                                    };
                                    return Ok(Payload { message, subject });
                                },
                                None => {
                                    return Err(serialization_error());
                                },
                            }
                        } else {
                            return Err(serialization_error());
                        }
                    },
                }
            },
        }
    }
}

} // verus!
