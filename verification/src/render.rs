use vstd::prelude::*;

use crate::chars::char_from_u32;
use crate::chars::chars_to_string;
use crate::chars::str_to_chars;
use crate::error::Error;
use crate::json::JsonData;
use crate::json::NESTING_LIMIT;
use crate::json::parse_members;
use crate::json::parse_value;
use crate::json::scan_text;
use crate::json::skip_ws;
use crate::payload::body_error_text;
use crate::payload::http_payload;
use crate::payload::parse_payload;
use crate::publish::Acknowledgment;
use crate::publish::ProviderEvent;
use crate::publish::PublishRequest;
use crate::publish::PublishInput;
use crate::publish::Topic;
use crate::publish::blocking_text;
use crate::publish::build_publish_input;
use crate::publish::complete_publish;
use crate::publish::normalize_http;
use crate::publish::opt_str_view;

verus! {

/// The hexadecimal digit with value `x`.
pub open spec fn hex_digit_char(x: int) -> char {
    if x < 10 {
        ((0x30 + x) as u32) as char
    } else {
        ((0x61 - 10 + x) as u32) as char
    }
}

/// How one character is written inside a JSON string literal: quotes and
/// backslashes are escaped, control characters are escaped by name or as
/// a hexadecimal escape, everything else stands as itself.
pub open spec fn escape_char(c: char) -> Seq<char> {
    if c == '"' {
        seq!['\\', '"']
    } else if c == '\\' {
        seq!['\\', '\\']
    } else if c == '\u{0008}' {
        seq!['\\', 'b']
    } else if c == '\u{000C}' {
        seq!['\\', 'f']
    } else if c == '\n' {
        seq!['\\', 'n']
    } else if c == '\r' {
        seq!['\\', 'r']
    } else if c == '\t' {
        seq!['\\', 't']
    } else if (c as u32) < 0x20 {
        seq!['\\', 'u', '0', '0', hex_digit_char(c as u32 as int / 16), hex_digit_char(c as u32 as int % 16)]
    } else {
        seq![c]
    }
}

/// The characters from `i` on, escaped and appended to `acc`.
pub open spec fn escape_from(s: Seq<char>, i: int, acc: Seq<char>) -> Seq<char>
    decreases s.len() - i,
{
    if !(0 <= i < s.len()) {
        acc
    } else {
        escape_from(s, i + 1, acc + escape_char(s[i]))
    }
}

/// A string's contents as written inside a JSON string literal.
pub open spec fn json_escaped(s: Seq<char>) -> Seq<char> {
    escape_from(s, 0, Seq::empty())
}

/// A JSON string literal holding `t`.
pub open spec fn quoted(t: Seq<char>) -> Seq<char> {
    seq!['"'] + json_escaped(t) + seq!['"']
}

/// An optional string as a JSON value: a string literal, or null.
pub open spec fn opt_field_text(o: Option<Seq<char>>) -> Seq<char> {
    match o {
        Some(t) => quoted(t),
        None => "null"@,
    }
}

/// The body of a success response: the provider's acknowledgment.
pub open spec fn ack_body_text(id: Option<Seq<char>>, sn: Option<Seq<char>>) -> Seq<char> {
    "{\"message_id\":"@ + opt_field_text(id) + ",\"sequence_number\":"@ + opt_field_text(sn)
        + "}"@
}

/// The body of an error response.
pub open spec fn error_body_text(t: Seq<char>) -> Seq<char> {
    "{\"message\":"@ + quoted(t) + "}"@
}

/// The lines the CLI prints before publishing.
pub open spec fn cli_echo_text(message: Seq<char>, subject: Option<Seq<char>>) -> Seq<char> {
    "Subject: "@ + (match subject {
        Some(t) => t,
        None => Seq::empty(),
    }) + "\nMessage: "@ + message + "\n"@
}

/// The line the CLI prints on a failure.
pub open spec fn cli_error_line(t: Seq<char>) -> Seq<char> {
    "error: "@ + t + "\n"@
}

/// Appends the characters of `t`.
fn push_str_chars(out: &mut Vec<char>, t: &str)
    ensures
        final(out)@ == old(out)@ + t@,
{
    let tc = str_to_chars(t);
    let mut k: usize = 0;
    while k < tc.len()
        invariant
            k <= tc@.len(),
            tc@ == t@,
            out@ == old(out)@ + t@.take(k as int),
        decreases tc@.len() - k,
    {
        out.push(tc[k]);
        k = k + 1;
        proof {
            assert(out@ =~= old(out)@ + t@.take(k as int));
        }
    }
    proof {
        assert(old(out)@ + t@.take(t@.len() as int) =~= old(out)@ + t@);
    }
}

fn hex_digit_x(x: u32) -> (r: char)
    requires
        x < 16,
    ensures
        r == hex_digit_char(x as int),
{
    let code: u32 = if x < 10 {
        0x30 + x
    } else {
        0x61 - 10 + x
    };
    match char_from_u32(code) {
        Some(c) => c,
        None => {
            proof {
                assert(false);
            }
            ' '
        },
    }
}

/// Appends the contents of `t`, escaped for a JSON string literal.
fn push_escaped(out: &mut Vec<char>, t: &str)
    ensures
        final(out)@ == old(out)@ + json_escaped(t@),
{
    let tc = str_to_chars(t);
    let mut k: usize = 0;
    while k < tc.len()
        invariant
            k <= tc@.len(),
            tc@ == t@,
            escape_from(t@, 0, Seq::empty()) == escape_from(t@, k as int, out@.skip(
                old(out)@.len() as int,
            )),
            out@.take(old(out)@.len() as int) == old(out)@,
            out@.len() >= old(out)@.len(),
        decreases tc@.len() - k,
    {
        let c = tc[k];
        let ghost prev = out@;
        if c == '"' {
            out.push('\\');
            out.push('"');
        } else if c == '\\' {
            out.push('\\');
            out.push('\\');
        } else if c == '\u{0008}' {
            out.push('\\');
            out.push('b');
        } else if c == '\u{000C}' {
            out.push('\\');
            out.push('f');
        } else if c == '\n' {
            out.push('\\');
            out.push('n');
        } else if c == '\r' {
            out.push('\\');
            out.push('r');
        } else if c == '\t' {
            out.push('\\');
            out.push('t');
        } else if (c as u32) < 0x20 {
            out.push('\\');
            out.push('u');
            out.push('0');
            out.push('0');
            out.push(hex_digit_x((c as u32) / 16));
            out.push(hex_digit_x((c as u32) % 16));
        } else {
            out.push(c);
        }
        k = k + 1;
        proof {
            assert(out@ =~= prev + escape_char(c));
            assert(out@.skip(old(out)@.len() as int) =~= prev.skip(old(out)@.len() as int)
                + escape_char(c));
            assert(out@.take(old(out)@.len() as int) =~= old(out)@);
        }
    }
    proof {
        assert(out@ =~= out@.take(old(out)@.len() as int) + out@.skip(old(out)@.len() as int));
    }
}

/// Appends a JSON string literal holding `t`.
fn push_quoted(out: &mut Vec<char>, t: &str)
    ensures
        final(out)@ == old(out)@ + quoted(t@),
{
    out.push('"');
    push_escaped(out, t);
    out.push('"');
    proof {
        assert(out@ =~= old(out)@ + quoted(t@));
    }
}

/// Appends an optional string as a JSON value.
fn push_opt_field(out: &mut Vec<char>, o: &Option<String>)
    ensures
        final(out)@ == old(out)@ + opt_field_text(opt_str_view(*o)),
{
    match o {
        Some(t) => push_quoted(out, t.as_str()),
        None => push_str_chars(out, "null"),
    }
}

/// An HTTP response, computed: the status code and the body to send.
#[derive(Debug)]
pub struct HttpResponse {
    pub status: u16,
    pub body: String,
}

/// Renders a provider acknowledgment as a success response.
pub fn render_success_response(a: &Acknowledgment) -> (r: HttpResponse)
    ensures
        r.status == 200,
        r.body@ == ack_body_text(opt_str_view(a.message_id), opt_str_view(a.sequence_number)),
{
    let mut out: Vec<char> = Vec::new();
    push_str_chars(&mut out, "{\"message_id\":");
    push_opt_field(&mut out, &a.message_id);
    push_str_chars(&mut out, ",\"sequence_number\":");
    push_opt_field(&mut out, &a.sequence_number);
    push_str_chars(&mut out, "}");
    proof {
        assert(out@ =~= ack_body_text(
            opt_str_view(a.message_id),
            opt_str_view(a.sequence_number),
        ));
    }
    HttpResponse { status: 200, body: chars_to_string(&out) }
}

/// Renders a pipeline error as an error response.
pub fn render_error_response(e: &Error) -> (r: HttpResponse)
    ensures
        r.status == 500,
        r.body@ == error_body_text(e.spec_text()),
{
    let mut out: Vec<char> = Vec::new();
    push_str_chars(&mut out, "{\"message\":");
    push_quoted(&mut out, e.text());
    push_str_chars(&mut out, "}");
    proof {
        assert(out@ =~= error_body_text(e.spec_text()));
    }
    HttpResponse { status: 500, body: chars_to_string(&out) }
}

/// The lines the CLI prints before publishing, as the request's echo.
pub fn render_cli_echo(req: &PublishRequest) -> (r: String)
    ensures
        r@ == cli_echo_text(req.message@, opt_str_view(req.subject)),
{
    let mut out: Vec<char> = Vec::new();
    push_str_chars(&mut out, "Subject: ");
    match &req.subject {
        Some(t) => push_str_chars(&mut out, t.as_str()),
        None => (),
    }
    push_str_chars(&mut out, "\nMessage: ");
    push_str_chars(&mut out, req.message.as_str());
    push_str_chars(&mut out, "\n");
    proof {
        assert(out@ =~= cli_echo_text(req.message@, opt_str_view(req.subject)));
    }
    chars_to_string(&out)
}

/// The line the CLI prints on a failure.
pub fn render_cli_error(e: &Error) -> (r: String)
    ensures
        r@ == cli_error_line(e.spec_text()),
{
    let mut out: Vec<char> = Vec::new();
    push_str_chars(&mut out, "error: ");
    push_str_chars(&mut out, e.text());
    push_str_chars(&mut out, "\n");
    proof {
        assert(out@ =~= cli_error_line(e.spec_text()));
    }
    chars_to_string(&out)
}

/// Computes the service-mode half before the remote call: decodes the
/// request body and builds the narrowed publish input for the configured
/// topic, or renders the rejection as a complete error response.
pub fn http_prepare(body: &str, topic: Topic) -> (r: Result<PublishInput, HttpResponse>)
    ensures
        match http_payload(body@) {
            Some((m, su)) => {
                &&& r is Ok
                &&& r.unwrap().message@ == m
                &&& opt_str_view(r.unwrap().subject) == su
                &&& r.unwrap().topic_arn is Some
                &&& r.unwrap().topic_arn.unwrap()@ == topic.arn@
                &&& r.unwrap().message_attributes is None
                &&& r.unwrap().message_deduplication_id is None
                &&& r.unwrap().message_group_id is None
                &&& r.unwrap().message_structure is None
                &&& r.unwrap().phone_number is None
                &&& r.unwrap().target_arn is None
            },
            None => r is Err && r.unwrap_err().status == 500 && r.unwrap_err().body@
                == error_body_text(body_error_text()),
        },
{
    match parse_payload(body) {
        Ok(p) => Ok(build_publish_input(normalize_http(p, topic))),
        Err(e) => Err(render_error_response(&e)),
    }
}

/// Computes the whole service-mode response to one publish outcome:
/// a delivered publish renders as a success body with status 200, every
/// failure as an error body with status 500.
pub fn respond_event(ev: ProviderEvent) -> (r: HttpResponse)
    ensures
        match ev {
            ProviderEvent::Delivered(a) => r.status == 200 && r.body@ == ack_body_text(
                opt_str_view(a.message_id),
                opt_str_view(a.sequence_number),
            ),
            ProviderEvent::Rejection(m) => r.status == 500 && r.body@ == error_body_text(m@),
            ProviderEvent::Dispatch(m) => r.status == 500 && r.body@ == error_body_text(m@),
            ProviderEvent::Credentials(m) => r.status == 500 && r.body@ == error_body_text(m@),
            ProviderEvent::Validation(m) => r.status == 500 && r.body@ == error_body_text(m@),
            ProviderEvent::Parse(m) => r.status == 500 && r.body@ == error_body_text(m@),
            ProviderEvent::Unknown(m) => r.status == 500 && r.body@ == error_body_text(m@),
            ProviderEvent::Blocking => r.status == 500 && r.body@ == error_body_text(
                blocking_text(),
            ),
        },
{
    match complete_publish(ev) {
        Ok(a) => render_success_response(&a),
        Err(e) => render_error_response(&e),
    }
}

/// No character of `t` changes under JSON escaping.
pub open spec fn plain_text(t: Seq<char>) -> bool {
    forall|i: int| 0 <= i < t.len() ==> !(t[i] == '"' || t[i] == '\\' || (t[i] as u32) < 0x20)
}

proof fn lemma_escape_from_plain(t: Seq<char>, i: int, acc: Seq<char>)
    requires
        0 <= i <= t.len(),
        plain_text(t),
    ensures
        escape_from(t, i, acc) == acc + t.subrange(i, t.len() as int),
    decreases t.len() - i,
{
    if i < t.len() {
        lemma_escape_from_plain(t, i + 1, acc + escape_char(t[i]));
        assert(acc + escape_char(t[i]) + t.subrange(i + 1, t.len() as int) =~= acc + t.subrange(
            i,
            t.len() as int,
        ));
    } else {
        assert(acc + t.subrange(i, t.len() as int) =~= acc);
    }
}

/// Text that needs no escaping stands verbatim inside its JSON string
/// literal.
pub proof fn lemma_escape_plain(t: Seq<char>)
    requires
        plain_text(t),
    ensures
        json_escaped(t) == t,
{
    lemma_escape_from_plain(t, 0, Seq::empty());
    assert(Seq::empty() + t.subrange(0, t.len() as int) =~= t);
}

/// Round trip of an acknowledgment into the rendered success output: for
/// identifiers that need no escaping (the provider's identifiers never
/// do), both fields appear verbatim, each inside its JSON string
/// literal, in the rendered body.
pub proof fn lemma_ack_rendered_verbatim(id: Seq<char>, sn: Seq<char>)
    requires
        plain_text(id),
        plain_text(sn),
    ensures
        ack_body_text(Some(id), Some(sn)) == "{\"message_id\":\""@ + id
            + "\",\"sequence_number\":\""@ + sn + "\"}"@,
{
    lemma_escape_plain(id);
    lemma_escape_plain(sn);
    reveal_strlit("{\"message_id\":");
    reveal_strlit("{\"message_id\":\"");
    reveal_strlit(",\"sequence_number\":");
    reveal_strlit("\",\"sequence_number\":\"");
    reveal_strlit("\"}");
    reveal_strlit("}");
    assert(ack_body_text(Some(id), Some(sn)) =~= "{\"message_id\":\""@ + id
        + "\",\"sequence_number\":\""@ + sn + "\"}"@);
}

/// An error's description passes into the rendered error body verbatim
/// when it needs no escaping.
pub proof fn lemma_error_body_verbatim(t: Seq<char>)
    requires
        plain_text(t),
    ensures
        error_body_text(t) == "{\"message\":\""@ + t + "\"}"@,
{
    lemma_escape_plain(t);
    reveal_strlit("{\"message\":");
    reveal_strlit("{\"message\":\"");
    reveal_strlit("\"}");
    reveal_strlit("}");
    assert(error_body_text(t) =~= "{\"message\":\""@ + t + "\"}"@);
}

/// A failure is rendered from the same description whatever the mode:
/// for a transport failure whose description `m` needs no escaping, the
/// CLI error line and the HTTP error body both embed `m` unchanged.
pub proof fn lemma_transport_failure_uniform(e: Error, m: Seq<char>)
    requires
        e is TransportFailure,
        e.spec_text() == m,
        plain_text(m),
    ensures
        cli_error_line(e.spec_text()) == "error: "@ + m + "
"@,
        error_body_text(e.spec_text()) == "{\"message\":\""@ + m + "\"}"@,
{
    lemma_error_body_verbatim(m);
}


proof fn lemma_scan_plain_region(s: Seq<char>, i: int, j: int, acc: Seq<char>)
    requires
        0 <= i <= j < s.len(),
        forall|k: int| i <= k < j ==> !(s[k] == '"' || s[k] == '\\' || ((s[k] as u32) < 0x20)),
        s[j] == '"',
    ensures
        scan_text(s, i, acc) == Some((acc + s.subrange(i, j), j + 1)),
    decreases j - i,
{
    if i == j {
        assert(acc + s.subrange(i, j) =~= acc);
    } else {
        lemma_scan_plain_region(s, i + 1, j, acc.push(s[i]));
        assert(acc.push(s[i]) + s.subrange(i + 1, j) =~= acc + s.subrange(i, j));
    }
}

/// How the characters of the rendered success body lie, for identifiers
/// that need no escaping: the fixed frame, the two keys and the two
/// identifiers, each at its place.
#[verifier::rlimit(100)]
proof fn lemma_ack_body_layout(id: Seq<char>, sn: Seq<char>)
    requires
        plain_text(id),
        plain_text(sn),
    ensures
        ({
            let body = ack_body_text(Some(id), Some(sn));
            let n1 = id.len() as int;
            let n2 = sn.len() as int;
            &&& body.len() == 38 + n1 + n2
            &&& body[0] == '{'
            &&& body[1] == '"'
            &&& body[12] == '"'
            &&& body[13] == ':'
            &&& body[14] == '"'
            &&& body[15 + n1] == '"'
            &&& body[16 + n1] == ','
            &&& body[17 + n1] == '"'
            &&& body[33 + n1] == '"'
            &&& body[34 + n1] == ':'
            &&& body[35 + n1] == '"'
            &&& body[36 + n1 + n2] == '"'
            &&& body[37 + n1 + n2] == '}'
            &&& forall|k: int|
                2 <= k < 12 ==> !(body[k] == '"' || body[k] == '\\' || ((body[k] as u32) < 0x20))
            &&& forall|k: int|
                18 + n1 <= k < 33 + n1 ==> !(body[k] == '"' || body[k] == '\\' || ((body[k]
                    as u32) < 0x20))
            &&& forall|k: int|
                15 <= k < 15 + n1 ==> !(body[k] == '"' || body[k] == '\\' || ((body[k] as u32)
                    < 0x20))
            &&& forall|k: int|
                36 + n1 <= k < 36 + n1 + n2 ==> !(body[k] == '"' || body[k] == '\\' || ((body[k]
                    as u32) < 0x20))
            &&& body.subrange(2, 12) == "message_id"@
            &&& body.subrange(18 + n1, 33 + n1) == "sequence_number"@
            &&& body.subrange(15, 15 + n1) == id
            &&& body.subrange(36 + n1, 36 + n1 + n2) == sn
        }),
{
    let body = ack_body_text(Some(id), Some(sn));
    let n1 = id.len() as int;
    let n2 = sn.len() as int;
    lemma_escape_plain(id);
    lemma_escape_plain(sn);
    reveal_strlit("{\"message_id\":");
    reveal_strlit(",\"sequence_number\":");
    reveal_strlit("}");
    reveal_strlit("message_id");
    reveal_strlit("sequence_number");
    let q: Seq<char> = seq!['"'];
    let flat = "{\"message_id\":"@ + q + id + q + ",\"sequence_number\":"@ + q + sn + q
        + "}"@;
    assert(body =~= flat);
    assert(forall|k: int| 2 <= k < 12 ==> body[k] == "message_id"@[k - 2]);
    assert(forall|k: int| 18 + n1 <= k < 33 + n1 ==> body[k] == "sequence_number"@[k - 18 - n1]);
    assert(forall|k: int| 15 <= k < 15 + n1 ==> body[k] == id[k - 15]);
    assert(forall|k: int| 36 + n1 <= k < 36 + n1 + n2 ==> body[k] == sn[k - 36 - n1]);
    assert(body.subrange(2, 12) =~= "message_id"@);
    assert(body.subrange(18 + n1, 33 + n1) =~= "sequence_number"@);
    assert(body.subrange(15, 15 + n1) =~= id);
    assert(body.subrange(36 + n1, 36 + n1 + n2) =~= sn);
}

/// Round trip of an acknowledgment through serialization: for identifiers
/// that need no escaping, the rendered success body parses back, under
/// the same JSON grammar the request decoder uses, to exactly the object
/// holding the two identifiers.
#[verifier::rlimit(100)]
pub proof fn lemma_success_body_parses_back(id: Seq<char>, sn: Seq<char>)
    requires
        plain_text(id),
        plain_text(sn),
    ensures
        ({
            let body = ack_body_text(Some(id), Some(sn));
            parse_value(body, 0, NESTING_LIMIT as nat) == Some(
                (
                    JsonData::Obj(
                        seq![
                            ("message_id"@, JsonData::Text(id)),
                            ("sequence_number"@, JsonData::Text(sn)),
                        ],
                    ),
                    body.len() as int,
                ),
            )
        }),
{
    let body = ack_body_text(Some(id), Some(sn));
    let n1 = id.len() as int;
    let n2 = sn.len() as int;
    lemma_ack_body_layout(id, sn);
    lemma_scan_plain_region(body, 2, 12, Seq::empty());
    lemma_scan_plain_region(body, 15, 15 + n1, Seq::empty());
    lemma_scan_plain_region(body, 18 + n1, 33 + n1, Seq::empty());
    lemma_scan_plain_region(body, 36 + n1, 36 + n1 + n2, Seq::empty());
    assert(skip_ws(body, 1) == 1);
    assert(skip_ws(body, 13) == 13);
    assert(skip_ws(body, 14) == 14);
    assert(skip_ws(body, 16 + n1) == 16 + n1);
    assert(skip_ws(body, 17 + n1) == 17 + n1);
    assert(skip_ws(body, 34 + n1) == 34 + n1);
    assert(skip_ws(body, 35 + n1) == 35 + n1);
    assert(skip_ws(body, 37 + n1 + n2) == 37 + n1 + n2);
    let d = (NESTING_LIMIT - 1) as nat;
    assert(parse_value(body, 14, d) == Some((JsonData::Text(id), 16 + n1)));
    assert(parse_value(body, 35 + n1, d) == Some((JsonData::Text(sn), 37 + n1 + n2)));
    let acc1: Seq<(Seq<char>, JsonData)> = seq![("message_id"@, JsonData::Text(id))];
    assert(parse_members(body, 17 + n1, d, acc1) == Some(
        (acc1.push(("sequence_number"@, JsonData::Text(sn))), 38 + n1 + n2),
    ));
    assert(parse_members(body, 1, d, Seq::empty()) == Some(
        (
            seq![("message_id"@, JsonData::Text(id)), ("sequence_number"@, JsonData::Text(sn))],
            38 + n1 + n2,
        ),
    )) by {
        assert(Seq::<(Seq<char>, JsonData)>::empty().push(("message_id"@, JsonData::Text(id)))
            =~= acc1);
        assert(acc1.push(("sequence_number"@, JsonData::Text(sn))) =~= seq![
            ("message_id"@, JsonData::Text(id)),
            ("sequence_number"@, JsonData::Text(sn)),
        ]);
    }
    assert(parse_value(body, 0, NESTING_LIMIT as nat) == Some(
        (
            JsonData::Obj(
                seq![
                    ("message_id"@, JsonData::Text(id)),
                    ("sequence_number"@, JsonData::Text(sn)),
                ],
            ),
            body.len() as int,
        ),
    ));
}

} // verus!
