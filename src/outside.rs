//! Calls into outside crates, each behind a small trusted wrapper.

use base64::Engine;
use vstd::prelude::*;

verus! {

/// The JSON string literal that serde_json writes for a text.
pub uninterp spec fn json_string_of(s: Seq<char>) -> Seq<char>;

/// The bytes that a text decodes to under standard padded base64, if it is valid.
pub uninterp spec fn standard_base64_decode(s: Seq<char>) -> Option<Seq<u8>>;

/// A symbol of the URL-safe alphabet: `_`, `-`, digits and ASCII letters.
pub open spec fn is_url_safe_symbol(c: char) -> bool {
    c == '_' || c == '-' || ('0' <= c && c <= '9') || ('a' <= c && c <= 'z') || ('A' <= c
        && c <= 'Z')
}

/// Relies on nanoid::format with nanoid's SAFE alphabet (what `nanoid!(10)`
/// expands to): a random token of ten symbols of that alphabet.
#[verifier::external_body]
pub(crate) fn random_id() -> (r: String)
    ensures
        r@.len() == 10,
        forall|i: int| 0 <= i < 10 ==> is_url_safe_symbol(#[trigger] r@[i]),
{
    nanoid::format(nanoid::rngs::default, &nanoid::alphabet::SAFE, 10)
}

/// Relies on chrono's Local::now formatted with "%Y%m%d%H%M%S": the local time
/// to the second. It depends on the clock, so nothing is stated of it.
#[verifier::external_body]
pub(crate) fn local_timestamp() -> (r: String) {
    chrono::Local::now().format("%Y%m%d%H%M%S").to_string()
}

/// Relies on serde_json::to_string on a str: the quoted and escaped JSON
/// string. Serializing a str into memory does not fail.
#[verifier::external_body]
pub(crate) fn json_string(s: &str) -> (r: Option<String>)
    ensures
        r is Some,
        r.unwrap()@ == json_string_of(s@),
{
    serde_json::to_string(s).ok()
}

/// Relies on base64's STANDARD engine `decode`: the decoded bytes, or the
/// decode error's message when the text is not valid standard base64.
#[verifier::external_body]
pub(crate) fn decode_standard_base64(s: &str) -> (r: Result<Vec<u8>, String>)
    ensures
        r is Ok <==> standard_base64_decode(s@) is Some,
        r is Ok ==> r.unwrap()@ == standard_base64_decode(s@).unwrap(),
{
    base64::engine::general_purpose::STANDARD.decode(s).map_err(|e| e.to_string())
}

} // verus!
