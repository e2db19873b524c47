use vstd::prelude::*;
use vstd::string::*;

use crate::chars::chars_eq_str;
use crate::chars::chars_range;
use crate::chars::chars_to_string;
use crate::chars::str_to_chars;
use crate::error::Error;
use crate::publish::PublishRequest;
use crate::publish::Topic;
use crate::publish::empty_topic_text;
use crate::publish::opt_str_view;

verus! {

/// The region used when no `-r` flag is given.
pub open spec fn default_region_text() -> Seq<char> {
    "us-east-2"@
}

/// The topic used when no `-t` flag is given.
pub open spec fn default_topic_text() -> Seq<char> {
    "arn:aws:sns:us-east-2:250463611689:email-me"@
}

/// The description carried by the rejection of malformed flags.
pub open spec fn bad_flags_text() -> Seq<char> {
    "unrecognized or incomplete command-line flags"@
}

/// What a scan of the command line accumulates: the first value of each
/// flag, whether service mode was requested, the positional arguments,
/// and whether a bare `--` has ended flag parsing.
pub ghost struct CliState {
    pub region: Option<Seq<char>>,
    pub topic: Option<Seq<char>>,
    pub subject: Option<Seq<char>>,
    pub server: bool,
    pub raw: bool,
    pub free: Seq<Seq<char>>,
}

pub open spec fn cli_init() -> CliState {
    CliState {
        region: None,
        topic: None,
        subject: None,
        server: false,
        raw: false,
        free: Seq::empty(),
    }
}

/// The position of the first `=` at or after `j`, or the end.
pub open spec fn find_eq(t: Seq<char>, j: int) -> int
    decreases t.len() - j,
{
    if !(0 <= j < t.len()) {
        t.len() as int
    } else if t[j] == '=' {
        j
    } else {
        find_eq(t, j + 1)
    }
}

/// The first occurrence of a value flag wins.
pub open spec fn set_first(o: Option<Seq<char>>, v: Seq<char>) -> Option<Seq<char>> {
    match o {
        Some(w) => Some(w),
        None => Some(v),
    }
}

pub open spec fn with_region(st: CliState, v: Seq<char>) -> CliState {
    CliState { region: set_first(st.region, v), ..st }
}

pub open spec fn with_topic(st: CliState, v: Seq<char>) -> CliState {
    CliState { topic: set_first(st.topic, v), ..st }
}

pub open spec fn with_subject(st: CliState, v: Seq<char>) -> CliState {
    CliState { subject: set_first(st.subject, v), ..st }
}

/// How a value flag consumes its value: attached after `sep` characters
/// of prefix, or from the next token. Returns the value and the next
/// position, or `None` when the value is missing.
pub open spec fn flag_value(args: Seq<Seq<char>>, i: int, vstart: int, attached: bool) -> Option<
    (Seq<char>, int),
> {
    let t = args[i];
    if attached {
        Some((t.subrange(vstart, t.len() as int), i + 1))
    } else if i + 1 < args.len() {
        Some((args[i + 1], i + 2))
    } else {
        None
    }
}

/// One step of the scan: how the token at `i` (and, for a flag whose
/// value stands in the next token, the token after it) changes the state.
/// Returns the state and the next position, or `None` for a token that is
/// rejected: an unknown flag, a value flag without a value, or a value
/// handed to `--server`.
pub open spec fn cli_step(args: Seq<Seq<char>>, i: int, st: CliState) -> Option<(CliState, int)> {
    let t = args[i];
    if st.raw {
        Some((CliState { free: st.free.push(t), ..st }, i + 1))
    } else if t.len() >= 2 && t[0] == '-' {
        if t[1] == '-' {
            if t.len() == 2 {
                Some((CliState { raw: true, ..st }, i + 1))
            } else {
                let eq = find_eq(t, 2);
                let name = t.subrange(2, eq);
                if name == "server"@ {
                    if eq < t.len() {
                        None
                    } else {
                        Some((CliState { server: true, ..st }, i + 1))
                    }
                } else if name == "region"@ {
                    match flag_value(args, i, eq + 1, eq < t.len()) {
                        Some((v, j)) => Some((with_region(st, v), j)),
                        None => None,
                    }
                } else if name == "topic-arn"@ {
                    match flag_value(args, i, eq + 1, eq < t.len()) {
                        Some((v, j)) => Some((with_topic(st, v), j)),
                        None => None,
                    }
                } else if name == "subject"@ {
                    match flag_value(args, i, eq + 1, eq < t.len()) {
                        Some((v, j)) => Some((with_subject(st, v), j)),
                        None => None,
                    }
                } else {
                    None
                }
            }
        } else {
            let c = t[1];
            if c == 'e' {
                if t.len() == 2 {
                    Some((CliState { server: true, ..st }, i + 1))
                } else {
                    None
                }
            } else if c == 'r' {
                match flag_value(args, i, 2, t.len() > 2) {
                    Some((v, j)) => Some((with_region(st, v), j)),
                    None => None,
                }
            } else if c == 't' {
                match flag_value(args, i, 2, t.len() > 2) {
                    Some((v, j)) => Some((with_topic(st, v), j)),
                    None => None,
                }
            } else if c == 's' {
                match flag_value(args, i, 2, t.len() > 2) {
                    Some((v, j)) => Some((with_subject(st, v), j)),
                    None => None,
                }
            } else {
                None
            }
        }
    } else {
        Some((CliState { free: st.free.push(t), ..st }, i + 1))
    }
}

/// Scans the command line from `i` on. `None` rejects the whole line.
pub open spec fn cli_scan(args: Seq<Seq<char>>, i: int, st: CliState) -> Option<CliState>
    decreases args.len() - i,
{
    if !(0 <= i <= args.len()) {
        None
    } else if i == args.len() {
        Some(st)
    } else {
        match cli_step(args, i, st) {
            None => None,
            Some((st2, j)) => {
                if !(i < j <= args.len()) {
                    None
                } else {
                    cli_scan(args, j, st2)
                }
            },
        }
    }
}

/// The configuration of service mode: region and topic.
#[derive(Debug)]
pub struct ServeConfig {
    pub region: String,
    pub topic: Topic,
}

/// The configuration of a one-shot publish: region and the request.
#[derive(Debug)]
pub struct PublishConfig {
    pub region: String,
    pub request: PublishRequest,
}

/// What a command line asks for: printing the usage text (and exiting
/// successfully without publishing), serving requests, or one publish.
#[derive(Debug)]
pub enum CliAction {
    Usage,
    Serve(ServeConfig),
    Publish(PublishConfig),
}

/// The region and topic selected by a finished scan: the flag's first
/// value, or the default.
pub open spec fn chosen_region(st: CliState) -> Seq<char> {
    match st.region {
        Some(v) => v,
        None => default_region_text(),
    }
}

pub open spec fn chosen_topic(st: CliState) -> Seq<char> {
    match st.topic {
        Some(v) => v,
        None => default_topic_text(),
    }
}

/// The action a finished scan asks for: service mode wins over the
/// positional message; no positional message means usage.
pub open spec fn cli_action_ok(st: CliState, a: CliAction) -> bool {
    if st.server {
        match a {
            CliAction::Serve(c) => c.region@ == chosen_region(st) && c.topic.arn@ == chosen_topic(
                st,
            ),
            _ => false,
        }
    } else if st.free.len() == 0 {
        a is Usage
    } else {
        match a {
            CliAction::Publish(c) => c.region@ == chosen_region(st) && c.request.topic.arn@
                == chosen_topic(st) && c.request.message@ == st.free[0] && opt_str_view(
                c.request.subject,
            ) == st.subject,
            _ => false,
        }
    }
}

fn find_eq_x(t: &Vec<char>, j: usize) -> (r: usize)
    requires
        j <= t@.len(),
    ensures
        r as int == find_eq(t@, j as int),
        j <= r <= t@.len(),
{
    let mut r = j;
    while r < t.len() && t[r] != '='
        invariant
            j <= r <= t@.len(),
            find_eq(t@, j as int) == find_eq(t@, r as int),
        decreases t@.len() - r,
    {
        r = r + 1;
    }
    r
}

/// The error every rejected command line maps to.
fn bad_flags_error() -> (e: Error)
    ensures
        e is InvalidInput,
        e.spec_text() == bad_flags_text(),
{
    Error::InvalidInput(String::from_str("unrecognized or incomplete command-line flags"))
}

/// A copy of the given string.
fn clone_string(s: &String) -> (r: String)
    ensures
        r@ == s@,
{
    s.clone()
}

/// Parses the command line (the arguments after the program name), as
/// `cli_scan` and `cli_action_ok` say: unknown or incomplete flags are
/// rejected, an empty topic is rejected, and otherwise the line asks for
/// exactly one action.
pub fn parse_cli(args: &Vec<String>) -> (r: Result<CliAction, Error>)
    ensures
        match cli_scan(args.deep_view(), 0, cli_init()) {
            None => r is Err && r.unwrap_err() is InvalidInput && r.unwrap_err().spec_text()
                == bad_flags_text(),
            Some(st) => {
                if chosen_topic(st).len() == 0 {
                    r is Err && r.unwrap_err() is InvalidInput && r.unwrap_err().spec_text()
                        == empty_topic_text()
                } else {
                    r is Ok && cli_action_ok(st, r.unwrap())
                }
            },
        },
{
    let mut i: usize = 0;
    let mut region: Option<String> = None;
    let mut topic: Option<String> = None;
    let mut subject: Option<String> = None;
    let mut server = false;
    let mut raw = false;
    let mut free_first: Option<String> = None;
    let ghost mut free_all: Seq<Seq<char>> = Seq::empty();
    while i < args.len()
        invariant
            i <= args@.len(),
            args.deep_view().len() == args@.len(),
            match free_first {
                Some(f) => free_all.len() > 0 && f@ == free_all[0],
                None => free_all.len() == 0,
            },
            cli_scan(args.deep_view(), 0, cli_init()) == cli_scan(
                args.deep_view(),
                i as int,
                CliState {
                    region: opt_str_view(region),
                    topic: opt_str_view(topic),
                    subject: opt_str_view(subject),
                    server: server,
                    raw: raw,
                    free: free_all,
                },
            ),
        decreases args@.len() - i,
    {
        let ghost dv = args.deep_view();
        let ghost i0 = i as int;
        let ghost st0 = CliState {
            region: opt_str_view(region),
            topic: opt_str_view(topic),
            subject: opt_str_view(subject),
            server: server,
            raw: raw,
            free: free_all,
        };
        let t = str_to_chars(args[i].as_str());
        proof {
            assert(t@ == dv[i0]);
        }
        if raw {
            if free_first.is_none() {
                free_first = Some(chars_to_string(&t));
            }
            proof {
                free_all = free_all.push(t@);
            }
            i = i + 1;
        } else if t.len() >= 2 && t[0] == '-' {
            if t[1] == '-' {
                if t.len() == 2 {
                    raw = true;
                    i = i + 1;
                } else {
                    let eq = find_eq_x(&t, 2);
                    let name = chars_range(&t, 2, eq);
                    if chars_eq_str(&name, "server") {
                        if eq < t.len() {
                            return Err(bad_flags_error());
                        }
                        server = true;
                        i = i + 1;
                    } else if chars_eq_str(&name, "region") {
                        match long_flag_value(args, i, &t, eq) {
                            Some((v, j)) => {
                                if region.is_none() {
                                    region = Some(v);
                                }
                                i = j;
                            },
                            None => {
                                return Err(bad_flags_error());
                            },
                        }
                    } else if chars_eq_str(&name, "topic-arn") {
                        match long_flag_value(args, i, &t, eq) {
                            Some((v, j)) => {
                                if topic.is_none() {
                                    topic = Some(v);
                                }
                                i = j;
                            },
                            None => {
                                return Err(bad_flags_error());
                            },
                        }
                    } else if chars_eq_str(&name, "subject") {
                        match long_flag_value(args, i, &t, eq) {
                            Some((v, j)) => {
                                if subject.is_none() {
                                    subject = Some(v);
                                }
                                i = j;
                            },
                            None => {
                                return Err(bad_flags_error());
                            },
                        }
                    } else {
                        return Err(bad_flags_error());
                    }
                }
            } else {
                let c = t[1];
                if c == 'e' {
                    if t.len() == 2 {
                        server = true;
                        i = i + 1;
                    } else {
                        return Err(bad_flags_error());
                    }
                } else if c == 'r' {
                    match flag_value_x(args, i, &t, 2, t.len() > 2) {
                        Some((v, j)) => {
                            if region.is_none() {
                                region = Some(v);
                            }
                            i = j;
                        },
                        None => {
                            return Err(bad_flags_error());
                        },
                    }
                } else if c == 't' {
                    match flag_value_x(args, i, &t, 2, t.len() > 2) {
                        Some((v, j)) => {
                            if topic.is_none() {
                                topic = Some(v);
                            }
                            i = j;
                        },
                        None => {
                            return Err(bad_flags_error());
                        },
                    }
                } else if c == 's' {
                    match flag_value_x(args, i, &t, 2, t.len() > 2) {
                        Some((v, j)) => {
                            if subject.is_none() {
                                subject = Some(v);
                            }
                            i = j;
                        },
                        None => {
                            return Err(bad_flags_error());
                        },
                    }
                } else {
                    return Err(bad_flags_error());
                }
            }
        } else {
            if free_first.is_none() {
                free_first = Some(chars_to_string(&t));
            }
            proof {
                free_all = free_all.push(t@);
            }
            i = i + 1;
        }
        proof {
            let st1 = CliState {
                region: opt_str_view(region),
                topic: opt_str_view(topic),
                subject: opt_str_view(subject),
                server: server,
                raw: raw,
                free: free_all,
            };
            assert(cli_step(dv, i0, st0) == Some((st1, i as int)));
            assert(cli_scan(dv, i0, st0) == cli_scan(dv, i as int, st1));
        }
    }
    let ghost stx = CliState {
        region: opt_str_view(region),
        topic: opt_str_view(topic),
        subject: opt_str_view(subject),
        server: server,
        raw: raw,
        free: free_all,
    };
    proof {
        assert(cli_scan(args.deep_view(), 0, cli_init()) == Some(stx));
    }
    let region_s = match region {
        Some(v) => v,
        None => String::from_str("us-east-2"),
    };
    let topic_s = match topic {
        Some(v) => v,
        None => String::from_str("arn:aws:sns:us-east-2:250463611689:email-me"),
    };
    proof {
        assert(region_s@ == chosen_region(stx));
        assert(topic_s@ == chosen_topic(stx));
    }
    let topic_t = match Topic::new(topic_s) {
        Ok(t) => t,
        Err(e) => {
            return Err(e);
        },
    };
    if server {
        Ok(CliAction::Serve(ServeConfig { region: region_s, topic: topic_t }))
    } else {
        match free_first {
            None => Ok(CliAction::Usage),
            Some(message) => Ok(
                CliAction::Publish(
                    PublishConfig {
                        region: region_s,
                        request: PublishRequest { message, subject, topic: topic_t },
                    },
                ),
            ),
        }
    }
}

/// Takes a long flag's value: attached after the `=`, or from the next
/// token.
fn long_flag_value(args: &Vec<String>, i: usize, t: &Vec<char>, eq: usize) -> (r: Option<
    (String, usize)>)
    requires
        i < args@.len(),
        t@ == args.deep_view()[i as int],
        eq <= t@.len(),
    ensures
        match flag_value(args.deep_view(), i as int, eq + 1, eq < t@.len()) {
            Some((v, j)) => r is Some && r.unwrap().0@ == v && r.unwrap().1 as int == j && i < j
                <= args@.len(),
            None => r is None,
        },
{
    let attached = eq < t.len();
    let vs = if attached {
        eq + 1
    } else {
        0
    };
    let r = flag_value_x(args, i, t, vs, attached);
    proof {
        assert(flag_value(args.deep_view(), i as int, vs as int, attached) == flag_value(
            args.deep_view(),
            i as int,
            eq + 1,
            eq < t@.len(),
        ));
    }
    r
}

/// Takes a value flag's value: attached to the token from `vstart` on,
/// or from the next token.
fn flag_value_x(args: &Vec<String>, i: usize, t: &Vec<char>, vstart: usize, attached: bool) -> (r:
    Option<(String, usize)>)
    requires
        i < args@.len(),
        t@ == args.deep_view()[i as int],
        attached ==> vstart <= t@.len(),
    ensures
        match flag_value(args.deep_view(), i as int, vstart as int, attached) {
            Some((v, j)) => r is Some && r.unwrap().0@ == v && r.unwrap().1 as int == j && i < j
                <= args@.len(),
            None => r is None,
        },
{
    let n = args.len();
    if attached {
        let vc = chars_range(t, vstart, t.len());
        Some((chars_to_string(&vc), i + 1))
    } else if i + 1 < n {
        let v = clone_string(&args[i + 1]);
        proof {
            assert(v@ == args.deep_view()[i + 1]);
        }
        Some((v, i + 2))
    } else {
        None
    }
}

/// The usage text, printed when no message is given.
pub fn usage_text(program: &str) -> (r: String)
    ensures
        r@ == "Usage: "@ + program@
            + " <message>\n\nOptions:\n    -r, --region REGION      provider region (defaults to us-east-2)\n    -t, --topic-arn ARN      destination topic\n    -s, --subject SUBJECT    subject line\n    -e, --server             serve requests continuously\n"@,
{
    let mut r = String::from_str("Usage: ");
    r.append(program);
    r.append(
        " <message>\n\nOptions:\n    -r, --region REGION      provider region (defaults to us-east-2)\n    -t, --topic-arn ARN      destination topic\n    -s, --subject SUBJECT    subject line\n    -e, --server             serve requests continuously\n",
    );
    r
}

} // verus!
