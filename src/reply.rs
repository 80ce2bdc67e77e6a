use vstd::prelude::*;
use crate::endpoint::Dialect;
use crate::prompt::{clean_reply, cleaned_reply};

verus! {

/// One step of a path into a JSON document.
#[derive(Clone, Copy, Debug, PartialEq, Eq)]
pub enum PathStep {
    /// The member of an object with this key.
    Key(&'static str),
    /// The element of an array at this index.
    Index(usize),
}

/// Where a dialect's reply holds the assistant's text:
/// `message.content` for the native dialect,
/// `choices[0].message.content` for the OpenAI-compatible one.
pub fn content_path(d: Dialect) -> (r: Vec<PathStep>)
    ensures
        d == Dialect::Native ==> {
            &&& r@.len() == 2
            &&& r@[0] matches PathStep::Key(k) && k@ == "message"@
            &&& r@[1] matches PathStep::Key(k) && k@ == "content"@
        },
        d == Dialect::OpenAiCompatible ==> {
            &&& r@.len() == 4
            &&& r@[0] matches PathStep::Key(k) && k@ == "choices"@
            &&& r@[1] matches PathStep::Index(i) && i == 0
            &&& r@[2] matches PathStep::Key(k) && k@ == "message"@
            &&& r@[3] matches PathStep::Key(k) && k@ == "content"@
        },
{
    match d {
        Dialect::Native => vec![PathStep::Key("message"), PathStep::Key("content")],
        Dialect::OpenAiCompatible => vec![
            PathStep::Key("choices"),
            PathStep::Index(0),
            PathStep::Key("message"),
            PathStep::Key("content"),
        ],
    }
}

/// How an inference call failed.
#[derive(Clone, Debug, PartialEq, Eq)]
pub enum LlmError {
    /// The request could not be sent.
    Request(String),
    /// The backend answered with a non-success status.
    Status { code: u16, body: String },
    /// The reply lacks the text at the dialect's path.
    Format,
    /// The text is not the JSON document asked for; `raw` is the text.
    Parse { raw: String },
}

/// The text to parse from a reply, given what stood at the dialect's path
/// (`None`: nothing, or not a string): the text without surrounding white
/// space and code fences, or a format error.
pub fn reply_text(content: Option<&str>) -> (r: Result<String, LlmError>)
    ensures
        content is None ==> r matches Err(LlmError::Format),
        content matches Some(c) ==> (r matches Ok(t) && t@ == cleaned_reply(c@)),
{
    match content {
        Some(c) => Ok(clean_reply(c)),
        None => Err(LlmError::Format),
    }
}

} // verus!
