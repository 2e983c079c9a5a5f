//! The generation backend's contract: the request that is sent, and what a
//! response yields.

use crate::outside::{
    decode_standard_base64, json_string, json_string_of, standard_base64_decode,
};
use vstd::prelude::*;

verus! {

/// Why a generation produced no image.
pub enum GenerationError {
    /// The backend credential is not set.
    Config,
    /// The call to the backend failed in transport.
    BackendHttp(String),
    /// The backend did not answer within the time allowed.
    BackendTimeout,
    /// The response body was not the backend's schema; keeps the raw body.
    BackendParse { detail: String, body: String },
    /// The backend returned no prediction.
    EmptyResult,
    /// The payload of the first prediction is not valid base64.
    Decode(String),
    /// Reading or writing the image store failed.
    StoreIo(String),
}

/// One prediction of a backend response.
pub struct Prediction {
    pub mime_type: String,
    pub bytes_base64_encoded: String,
}

/// The call to make: where to post, and the JSON body.
pub struct BackendCall {
    pub url: String,
    pub body: String,
}

pub open spec fn default_base_url() -> Seq<char> {
    "https://generativelanguage.googleapis.com"@
}

pub open spec fn predict_path() -> Seq<char> {
    "/v1beta/models/imagen-3.0-generate-002:predict?key="@
}

pub open spec fn body_head() -> Seq<char> {
    "{\"instances\":[{\"prompt\":"@
}

pub open spec fn body_tail() -> Seq<char> {
    "}],\"parameters\":{\"sampleCount\":1}}"@
}

pub open spec fn spec_base_url(override_url: Option<Seq<char>>) -> Seq<char> {
    match override_url {
        Some(u) => u,
        None => default_base_url(),
    }
}

pub open spec fn spec_predict_url(base: Seq<char>, api_key: Seq<char>) -> Seq<char> {
    base + predict_path() + api_key
}

/// One instance carrying the prompt, and a sample count of one.
pub open spec fn spec_request_body(prompt: Seq<char>) -> Seq<char> {
    body_head() + json_string_of(prompt) + body_tail()
}

pub open spec fn opt_view(o: Option<String>) -> Option<Seq<char>> {
    match o {
        Some(s) => Some(s@),
        None => None,
    }
}

/// The backend's base URL: the override where one is given, else the
/// production endpoint.
pub fn backend_base_url(override_url: Option<String>) -> (r: String)
    ensures
        r@ == spec_base_url(opt_view(override_url)),
{
    match override_url {
        Some(u) => u,
        None => String::from_str("https://generativelanguage.googleapis.com"),
    }
}

/// The prediction endpoint under `base`, with the key as a query parameter.
pub fn predict_url(base: &str, api_key: &str) -> (r: String)
    ensures
        r@ == spec_predict_url(base@, api_key@),
{
    let mut url = String::from_str(base);
    url.append("/v1beta/models/imagen-3.0-generate-002:predict?key=");
    url.append(api_key);
    url
}

/// The request body around a prompt already written as a JSON string.
pub fn request_body_of_quoted(quoted_prompt: &str) -> (r: String)
    ensures
        r@ == body_head() + quoted_prompt@ + body_tail(),
{
    let mut body = String::from_str("{\"instances\":[{\"prompt\":");
    body.append(quoted_prompt);
    body.append("}],\"parameters\":{\"sampleCount\":1}}");
    body
}

/// The JSON request body for one image of `prompt`.
pub fn request_body(prompt: &str) -> (r: String)
    ensures
        r@ == spec_request_body(prompt@),
{
    match json_string(prompt) {
        Some(q) => request_body_of_quoted(q.as_str()),
        None => request_body_of_quoted(""),
    }
}

/// What to send to the backend, or `Config` when no credential is set. The
/// credential is checked before anything else.
pub fn plan_request(prompt: &str, api_key: Option<String>, base_override: Option<String>) -> (r:
    Result<BackendCall, GenerationError>)
    ensures
        api_key is None <==> r is Err,
        api_key is None ==> r matches Err(GenerationError::Config),
        r matches Ok(call) ==> call.url@ == spec_predict_url(
            spec_base_url(opt_view(base_override)),
            api_key.unwrap()@,
        ) && call.body@ == spec_request_body(prompt@),
{
    match api_key {
        None => Err(GenerationError::Config),
        Some(key) => {
            let base = backend_base_url(base_override);
            let url = predict_url(base.as_str(), key.as_str());
            let body = request_body(prompt);
            Ok(BackendCall { url, body })
        },
    }
}

pub open spec fn parsed_view(parsed: Result<Vec<Prediction>, String>) -> Result<
    Seq<Prediction>,
    Seq<char>,
> {
    match parsed {
        Ok(v) => Ok(v@),
        Err(e) => Err(e@),
    }
}

/// Whether a response gives an image: it parsed, has a prediction, and the
/// first payload decodes.
pub open spec fn yields_image(parsed: Result<Seq<Prediction>, Seq<char>>) -> bool {
    &&& parsed matches Ok(p)
    &&& p.len() > 0
    &&& standard_base64_decode(p[0].bytes_base64_encoded@) is Some
}

/// `bytes` are the image that a response gives. `parsed` is the body read as
/// the backend's schema: the list of predictions, or the parse failure's
/// message. The first prediction alone counts.
pub open spec fn image_bytes_ok(parsed: Result<Seq<Prediction>, Seq<char>>, bytes: Seq<u8>) -> bool {
    &&& parsed matches Ok(p)
    &&& p.len() > 0
    &&& standard_base64_decode(p[0].bytes_base64_encoded@) == Some(bytes)
}

/// The base64 payload of the first prediction, or why there is none: a body
/// that did not parse gives `BackendParse` with that body, no prediction gives
/// `EmptyResult`. Later predictions are ignored.
pub fn first_payload(parsed: Result<Vec<Prediction>, String>, body: String) -> (r: Result<
    String,
    GenerationError,
>)
    ensures
        parsed is Err ==> (r matches Err(GenerationError::BackendParse { detail, body: b }) && detail@
            == parsed->Err_0@ && b@ == body@),
        parsed matches Ok(p) && p@.len() == 0 ==> r matches Err(GenerationError::EmptyResult),
        parsed matches Ok(p) && p@.len() > 0 ==> (r matches Ok(s) && s@
            == parsed->Ok_0@[0].bytes_base64_encoded@),
{
    match parsed {
        Err(detail) => Err(GenerationError::BackendParse { detail, body }),
        Ok(predictions) => {
            if predictions.len() == 0 {
                Err(GenerationError::EmptyResult)
            } else {
                Ok(predictions[0].bytes_base64_encoded.clone())
            }
        },
    }
}

/// The image bytes of a backend response, or why there are none: a body that
/// did not parse gives `BackendParse` with that body, no prediction gives
/// `EmptyResult`, and a first payload that is not base64 gives `Decode`.
pub fn image_bytes(parsed: Result<Vec<Prediction>, String>, body: String) -> (r: Result<
    Vec<u8>,
    GenerationError,
>)
    ensures
        parsed is Err ==> (r matches Err(GenerationError::BackendParse { detail, body: b }) && detail@
            == parsed->Err_0@ && b@ == body@),
        parsed matches Ok(p) && p@.len() == 0 ==> r matches Err(GenerationError::EmptyResult),
        parsed matches Ok(p) && p@.len() > 0 && standard_base64_decode(
            p@[0].bytes_base64_encoded@,
        ) is None ==> r matches Err(GenerationError::Decode(_)),
        r is Ok <==> yields_image(parsed_view(parsed)),
        r matches Ok(v) ==> image_bytes_ok(parsed_view(parsed), v@),
{
    match first_payload(parsed, body) {
        Err(e) => Err(e),
        Ok(payload) => match decode_standard_base64(payload.as_str()) {
            Ok(bytes) => Ok(bytes),
            Err(message) => Err(GenerationError::Decode(message)),
        },
    }
}

} // verus!
