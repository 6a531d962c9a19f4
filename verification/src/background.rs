//! Applying a background: from the path the host was handed to the path
//! that the platform is asked to show.

use vstd::prelude::*;
use vstd::string::StringExecFns;
use crate::progress::PipelineError;

verus! {

/// What percent-decoding makes of a text: every `%` followed by two
/// hexadecimal digits stands for one byte, and the bytes are read as UTF-8.
/// `None` where they are no valid UTF-8.
pub uninterp spec fn percent_decoded(data: Seq<char>) -> Option<Seq<char>>;

/// Calls `urlencoding::decode`. Trusted: the answer is the percent-decoding
/// of `data`, a failure where the decoded bytes are no valid UTF-8, and a
/// text without any `%` comes back as it is.
#[verifier::external_body]
fn decode_percent(data: &str) -> (decoded: Option<String>)
    ensures
        match decoded {
            Some(text) => percent_decoded(data@) == Some(text@),
            None => percent_decoded(data@) is None,
        },
        !data@.contains('%') ==> decoded is Some && decoded->0@ == data@,
{
    match urlencoding::decode(data) {
        Ok(text) => Some(text.into_owned()),
        Err(_) => None,
    }
}

/// The message of the error for a path that cannot be decoded.
pub open spec fn undecodable_message() -> Seq<char> {
    "Failed to decode image path"@
}

/// The path to show, given what decoding made of the request: the decoded
/// text, or a platform error where there is none.
pub fn path_from_decoded(decoded: Option<String>) -> (path: Result<String, PipelineError>)
    ensures
        match decoded {
            Some(text) => path == Ok::<String, PipelineError>(text),
            None => (path matches Err(PipelineError::Platform { message }) && message@
                == undecodable_message()),
        },
{
    match decoded {
        Some(text) => Ok(text),
        None => Err(PipelineError::Platform { message: String::from_str("Failed to decode image path") }),
    }
}

/// The path to show for a request that names an image by its path, plain or
/// percent-encoded. A request without any `%` names the path as it stands.
pub fn background_path(image: &str) -> (path: Result<String, PipelineError>)
    ensures
        match percent_decoded(image@) {
            Some(text) => (path matches Ok(shown) && shown@ == text),
            None => (path matches Err(PipelineError::Platform { message }) && message@
                == undecodable_message()),
        },
        !image@.contains('%') ==> (path matches Ok(shown) && shown@ == image@),
{
    path_from_decoded(decode_percent(image))
}

} // verus!
