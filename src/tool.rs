//! The `generate_image` tool's result: a URL to the stored image, or a
//! message saying why there is none. Failures never become protocol faults.

use crate::backend::{
    GenerationError, Prediction, parsed_view, yields_image,
};
use crate::outside::standard_base64_decode;
use vstd::prelude::*;

verus! {

pub open spec fn image_url_prefix() -> Seq<char> {
    "http://127.0.0.1:9981/images/"@
}

pub open spec fn error_prefix() -> Seq<char> {
    "Error generating image: "@
}

pub open spec fn spec_describe(e: GenerationError) -> Seq<char> {
    match e {
        GenerationError::Config => "GEMINI_API_KEY environment variable not set"@,
        GenerationError::BackendHttp(m) => m@,
        GenerationError::BackendTimeout => "The image backend did not answer in time"@,
        GenerationError::BackendParse { detail, body } => "Failed to parse Gemini response: "@
            + detail@ + "\nThe response was: "@ + body@,
        GenerationError::EmptyResult => "No images were generated"@,
        GenerationError::Decode(m) => m@,
        GenerationError::StoreIo(m) => m@,
    }
}

pub open spec fn spec_tool_response(outcome: Result<String, GenerationError>) -> Seq<char> {
    match outcome {
        Ok(name) => image_url_prefix() + name@,
        Err(e) => error_prefix() + spec_describe(e),
    }
}

impl GenerationError {
    /// A human-readable cause.
    pub fn describe(&self) -> (r: String)
        ensures
            r@ == spec_describe(*self),
    {
        match self {
            GenerationError::Config => String::from_str("GEMINI_API_KEY environment variable not set"),
            GenerationError::BackendHttp(m) => m.clone(),
            GenerationError::BackendTimeout => String::from_str(
                "The image backend did not answer in time",
            ),
            GenerationError::BackendParse { detail, body } => {
                let mut s = String::from_str("Failed to parse Gemini response: ");
                s.append(detail.as_str());
                s.append("\nThe response was: ");
                s.append(body.as_str());
                s
            },
            GenerationError::EmptyResult => String::from_str("No images were generated"),
            GenerationError::Decode(m) => m.clone(),
            GenerationError::StoreIo(m) => m.clone(),
        }
    }
}

/// The tool's text result: the image's URL on the local asset server, or
/// `Error generating image: ` and the cause.
pub fn tool_response(outcome: &Result<String, GenerationError>) -> (r: String)
    ensures
        r@ == spec_tool_response(*outcome),
{
    match outcome {
        Ok(name) => {
            let mut url = String::from_str("http://127.0.0.1:9981/images/");
            url.append(name.as_str());
            url
        },
        Err(e) => {
            let mut text = String::from_str("Error generating image: ");
            let cause = e.describe();
            text.append(cause.as_str());
            text
        },
    }
}

/// A successful generation is reported as the URL
/// `http://127.0.0.1:9981/images/<name>` of the stored file.
pub proof fn lemma_success_is_image_url(name: String)
    ensures
        spec_tool_response(Ok(name)) == image_url_prefix() + name@,
        spec_tool_response(Ok(name)).subrange(0, image_url_prefix().len() as int)
            == image_url_prefix(),
{
    assert((image_url_prefix() + name@).subrange(0, image_url_prefix().len() as int)
        =~= image_url_prefix());
}

/// Every failure is reported as a non-empty text that begins with the error
/// prefix, never as the image URL.
pub proof fn lemma_failure_is_error_text(e: GenerationError)
    ensures
        spec_tool_response(Err(e)).len() > 0,
        spec_tool_response(Err(e)).subrange(0, error_prefix().len() as int) == error_prefix(),
{
    reveal_strlit("Error generating image: ");
    assert((error_prefix() + spec_describe(e)).subrange(0, error_prefix().len() as int)
        =~= error_prefix());
}

/// A response with no prediction yields no image, so nothing is stored.
pub proof fn lemma_no_prediction_stores_nothing(parsed: Result<Vec<Prediction>, String>)
    requires
        parsed matches Ok(p) && p@.len() == 0,
    ensures
        !yields_image(parsed_view(parsed)),
{
}

/// A response whose first payload is not valid base64 yields no image, so
/// nothing is stored.
pub proof fn lemma_bad_payload_stores_nothing(parsed: Result<Vec<Prediction>, String>)
    requires
        parsed matches Ok(p) && p@.len() > 0 && standard_base64_decode(
            p@[0].bytes_base64_encoded@,
        ) is None,
    ensures
        !yields_image(parsed_view(parsed)),
{
}

} // verus!
