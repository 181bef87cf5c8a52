//! Reading the command out of the completion service's reply.
use vstd::prelude::*;

verus! {

/// Whether serde_json accepts `s` as one JSON document.
pub uninterp spec fn json_valid(s: Seq<char>) -> bool;

/// The text of the JSON string that `pointer` designates in the document
/// `doc`, if `doc` is JSON and the pointer leads to a string.
pub uninterp spec fn json_str_at(doc: Seq<char>, pointer: Seq<char>) -> Option<Seq<char>>;

/// The characters of an optional string.
pub open spec fn opt_text(s: Option<String>) -> Option<Seq<char>> {
    match s {
        Some(t) => Some(t@),
        None => None,
    }
}

/// Relies on serde_json::from_str into a `Value`, then Value::pointer and
/// Value::as_str: `None` where serde_json rejects the document, else the
/// string found at the pointer, if any. The outcome depends on the two texts
/// alone.
#[verifier::external_body]
fn lookup_str(doc: &str, pointer: &str) -> (r: Option<Option<String>>)
    ensures
        r is Some <==> json_valid(doc@),
        r is Some ==> opt_text(r->Some_0) == json_str_at(doc@, pointer@),
{
    match serde_json::from_str::<serde_json::Value>(doc) {
        Ok(v) => Some(v.pointer(pointer).and_then(|x| x.as_str()).map(|x| x.to_owned())),
        Err(_) => None,
    }
}

/// Where the command stands in a reply: the content of the first choice's message.
pub const CONTENT_POINTER: &'static str = "/choices/0/message/content";

/// Why no command could be generated.
#[derive(Debug, PartialEq, Eq)]
pub enum GenerationError {
    /// The service could not be reached; holds the cause.
    Transport(String),
    /// The reply was not JSON, or held no command text where one belongs.
    MalformedResponse,
}

impl GenerationError {
    /// The line that reports the error.
    pub fn report(&self) -> (r: String)
        ensures
            self is Transport ==> r@ == "Error: "@ + self->Transport_0@,
            self is MalformedResponse ==> r@ == "Error: the reply holds no command"@,
    {
        match self {
            GenerationError::Transport(cause) => String::from_str("Error: ").concat(cause.as_str()),
            GenerationError::MalformedResponse => String::from_str("Error: the reply holds no command"),
        }
    }
}

/// The result of generation once the reply has been searched: the command
/// text where one was found, `MalformedResponse` where none was.
pub open spec fn command_result(content: Option<Seq<char>>) -> Result<Seq<char>, GenerationError> {
    match content {
        Some(c) => Ok(c),
        None => Err(GenerationError::MalformedResponse),
    }
}

/// The characters of a result.
pub open spec fn result_view(r: Result<String, GenerationError>) -> Result<Seq<char>, GenerationError> {
    match r {
        Ok(c) => Ok(c@),
        Err(e) => Err(e),
    }
}

/// Turns the text found in a reply, if any, into the command.
pub fn command_from_content(content: Option<&str>) -> (r: Result<String, GenerationError>)
    ensures
        result_view(r) == command_result(
            match content {
                Some(c) => Some(c@),
                None => None,
            },
        ),
{
    match content {
        Some(c) => Ok(c.to_owned()),
        None => Err(GenerationError::MalformedResponse),
    }
}

/// Reads the command out of a reply body. A body that is not JSON, or that
/// holds no text at `choices[0].message.content`, gives `MalformedResponse`;
/// the text is returned as the service sent it, without trimming.
pub fn parse_reply(body: &str) -> (r: Result<String, GenerationError>)
    ensures
        !json_valid(body@) ==> r == Err::<String, GenerationError>(GenerationError::MalformedResponse),
        json_valid(body@) ==> result_view(r) == command_result(
            json_str_at(body@, CONTENT_POINTER@),
        ),
{
    match lookup_str(body, CONTENT_POINTER) {
        Some(Some(c)) => command_from_content(Some(c.as_str())),
        Some(None) => command_from_content(None),
        None => Err(GenerationError::MalformedResponse),
    }
}

/// Finishes a generation from what the transport delivered: the reply body,
/// or the cause of a failure to reach the service.
pub fn command_from_transport(delivered: Result<String, String>) -> (r: Result<String, GenerationError>)
    ensures
        delivered is Err ==> r == Err::<String, GenerationError>(
            GenerationError::Transport(delivered->Err_0),
        ),
        delivered is Ok && !json_valid(delivered->Ok_0@) ==> r == Err::<String, GenerationError>(
            GenerationError::MalformedResponse,
        ),
        delivered is Ok && json_valid(delivered->Ok_0@) ==> result_view(r) == command_result(
            json_str_at(delivered->Ok_0@, CONTENT_POINTER@),
        ),
{
    match delivered {
        Ok(body) => parse_reply(body.as_str()),
        Err(cause) => Err(GenerationError::Transport(cause)),
    }
}

} // verus!
