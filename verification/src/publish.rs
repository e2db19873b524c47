use vstd::prelude::*;
use vstd::string::*;

use crate::error::Error;
use crate::payload::Payload;
use crate::payload::http_payload;

verus! {

/// The destination topic on the notification provider. It comes from
/// configuration only, never from request input, and is never empty.
#[derive(Debug)]
pub struct Topic {
    pub arn: String,
}

impl Topic {
    /// A topic identifier is well formed when it is not empty.
    pub open spec fn wf(self) -> bool {
        self.arn@.len() > 0
    }

    /// Accepts any non-empty identifier, and rejects the empty one.
    pub fn new(arn: String) -> (r: Result<Topic, Error>)
        ensures
            arn@.len() > 0 ==> r is Ok && r.unwrap().arn@ == arn@ && r.unwrap().wf(),
            arn@.len() == 0 ==> r is Err && r.unwrap_err() is InvalidInput
                && r.unwrap_err().spec_text() == empty_topic_text(),
    {
        if arn.as_str().unicode_len() == 0 {
            Err(Error::InvalidInput(String::from_str("the topic identifier must not be empty")))
        } else {
            Ok(Topic { arn })
        }
    }
}

/// The description carried by the rejection of an empty topic.
pub open spec fn empty_topic_text() -> Seq<char> {
    "the topic identifier must not be empty"@
}

/// One publish request, normalized: the message (which may be empty: an
/// empty string is forwarded as given), an optional subject, and the
/// configured topic.
#[derive(Debug)]
pub struct PublishRequest {
    pub message: String,
    pub subject: Option<String>,
    pub topic: Topic,
}

/// The provider's confirmation of a successful publish.
#[derive(Debug)]
pub struct Acknowledgment {
    pub message_id: Option<String>,
    pub sequence_number: Option<String>,
}

/// The provider's publish parameters. Only `message`, `subject` and
/// `topic_arn` are ever populated; every other optional field of the
/// provider's general-purpose publish call stays unset, so only presence
/// is modeled for the delivery attributes.
#[derive(Debug)]
pub struct PublishInput {
    pub message: String,
    pub subject: Option<String>,
    pub topic_arn: Option<String>,
    pub message_attributes: Option<()>,
    pub message_deduplication_id: Option<String>,
    pub message_group_id: Option<String>,
    pub message_structure: Option<String>,
    pub phone_number: Option<String>,
    pub target_arn: Option<String>,
}

pub open spec fn opt_str_view(o: Option<String>) -> Option<Seq<char>> {
    match o {
        Some(s) => Some(s@),
        None => None,
    }
}

/// The exact relation between a normalized request and the publish input
/// built from it: message, subject and topic pass through unchanged, and
/// every other field is unset.
pub open spec fn builds(req: PublishRequest, inp: PublishInput) -> bool {
    &&& inp.message@ == req.message@
    &&& opt_str_view(inp.subject) == opt_str_view(req.subject)
    &&& inp.topic_arn is Some
    &&& inp.topic_arn.unwrap()@ == req.topic.arn@
    &&& inp.message_attributes is None
    &&& inp.message_deduplication_id is None
    &&& inp.message_group_id is None
    &&& inp.message_structure is None
    &&& inp.phone_number is None
    &&& inp.target_arn is None
}

/// Builds the provider's publish call from a normalized request.
pub fn build_publish_input(req: PublishRequest) -> (inp: PublishInput)
    ensures
        builds(req, inp),
{
    PublishInput {
        message: req.message,
        subject: req.subject,
        topic_arn: Some(req.topic.arn),
        message_attributes: None,
        message_deduplication_id: None,
        message_group_id: None,
        message_structure: None,
        phone_number: None,
        target_arn: None,
    }
}

/// The exact relation between a request body and the normalized request:
/// the decoded message and subject pass through unchanged.
pub open spec fn normalizes(body: Seq<char>, req: PublishRequest) -> bool {
    &&& http_payload(body) is Some
    &&& req.message@ == http_payload(body).unwrap().0
    &&& opt_str_view(req.subject) == http_payload(body).unwrap().1
}

/// Attaches the configured topic to a decoded request body.
pub fn normalize_http(p: Payload, topic: Topic) -> (r: PublishRequest)
    ensures
        r.message@ == p.message@,
        opt_str_view(r.subject) == opt_str_view(p.subject),
        r.topic.arn@ == topic.arn@,
{
    PublishRequest { message: p.message, subject: p.subject, topic }
}

/// What one remote publish attempt produced, as the driver reports it:
/// either the provider's acknowledgment, or one kind of failure.
pub enum ProviderEvent {
    /// The provider accepted the publish.
    Delivered(Acknowledgment),
    /// The provider responded with a structured rejection.
    Rejection(String),
    /// The request could not be sent to the provider at all.
    Dispatch(String),
    /// No usable credentials could be resolved for the call.
    Credentials(String),
    /// The call's parameters failed the client's local validation.
    Validation(String),
    /// The provider's response could not be understood.
    Parse(String),
    /// The provider responded with an unrecognized status.
    Unknown(String),
    /// The call could not be executed by the runtime.
    Blocking,
}

/// The description used when the runtime could not execute the call.
pub open spec fn blocking_text() -> Seq<char> {
    "the publish call could not be executed"@
}

pub open spec fn ack_view(a: Acknowledgment) -> (Option<Seq<char>>, Option<Seq<char>>) {
    (opt_str_view(a.message_id), opt_str_view(a.sequence_number))
}

/// Classifies the outcome of a publish attempt into the error taxonomy:
/// a structured rejection, a local validation failure or an unreadable or
/// unrecognized response count against the provider; a dispatch failure
/// or an unexecutable call count against the transport; missing
/// credentials count against the configuration.
pub fn complete_publish(ev: ProviderEvent) -> (r: Result<Acknowledgment, Error>)
    ensures
        match ev {
            ProviderEvent::Delivered(a) => r is Ok && ack_view(r.unwrap()) == ack_view(a),
            ProviderEvent::Rejection(m) => r is Err && r.unwrap_err() is ProviderRejected
                && r.unwrap_err().spec_text() == m@,
            ProviderEvent::Dispatch(m) => r is Err && r.unwrap_err() is TransportFailure
                && r.unwrap_err().spec_text() == m@,
            ProviderEvent::Credentials(m) => r is Err && r.unwrap_err() is ConfigurationFailure
                && r.unwrap_err().spec_text() == m@,
            ProviderEvent::Validation(m) => r is Err && r.unwrap_err() is ProviderRejected
                && r.unwrap_err().spec_text() == m@,
            ProviderEvent::Parse(m) => r is Err && r.unwrap_err() is ProviderRejected
                && r.unwrap_err().spec_text() == m@,
            ProviderEvent::Unknown(m) => r is Err && r.unwrap_err() is ProviderRejected
                && r.unwrap_err().spec_text() == m@,
            ProviderEvent::Blocking => r is Err && r.unwrap_err() is TransportFailure
                && r.unwrap_err().spec_text() == blocking_text(),
        },
{
    match ev {
        ProviderEvent::Delivered(a) => Ok(a),
        ProviderEvent::Rejection(m) => Err(Error::ProviderRejected(m)),
        ProviderEvent::Dispatch(m) => Err(Error::TransportFailure(m)),
        ProviderEvent::Credentials(m) => Err(Error::ConfigurationFailure(m)),
        ProviderEvent::Validation(m) => Err(Error::ProviderRejected(m)),
        ProviderEvent::Parse(m) => Err(Error::ProviderRejected(m)),
        ProviderEvent::Unknown(m) => Err(Error::ProviderRejected(m)),
        ProviderEvent::Blocking => Err(
            Error::TransportFailure(String::from_str("the publish call could not be executed")),
        ),
    }
}

/// For every accepted request body, the publish call built from the
/// normalized request carries the decoded message and subject unchanged
/// and the configured topic, and leaves every other provider field
/// unset: nothing of the caller's input reaches any other part of the
/// provider's publish surface.
pub proof fn lemma_publish_preserves_request(body: Seq<char>, req: PublishRequest, inp: PublishInput)
    requires
        normalizes(body, req),
        builds(req, inp),
    ensures
        http_payload(body) is Some,
        inp.message@ == http_payload(body).unwrap().0,
        opt_str_view(inp.subject) == http_payload(body).unwrap().1,
        inp.topic_arn is Some && inp.topic_arn.unwrap()@ == req.topic.arn@,
        inp.message_attributes is None,
        inp.message_deduplication_id is None,
        inp.message_group_id is None,
        inp.message_structure is None,
        inp.phone_number is None,
        inp.target_arn is None,
{
}


/// The one-shot mode preserves its request in the same way: the publish
/// call built from a command line's publish action carries the first
/// positional argument as the message, the subject flag's value, and the
/// chosen topic, and leaves every other provider field unset.
pub proof fn lemma_cli_publish_preserves_request(
    st: crate::cli::CliState,
    c: crate::cli::PublishConfig,
    inp: PublishInput,
)
    requires
        !st.server,
        st.free.len() > 0,
        crate::cli::cli_action_ok(st, crate::cli::CliAction::Publish(c)),
        builds(c.request, inp),
    ensures
        inp.message@ == st.free[0],
        opt_str_view(inp.subject) == st.subject,
        inp.topic_arn is Some && inp.topic_arn.unwrap()@ == crate::cli::chosen_topic(st),
        inp.message_attributes is None,
        inp.message_deduplication_id is None,
        inp.message_group_id is None,
        inp.message_structure is None,
        inp.phone_number is None,
        inp.target_arn is None,
{
}

} // verus!
