//! Texts as they travel between units: as JSON strings.
//!
//! Reading and writing JSON is left to `serde_json`. What is claimed of it here
//! is believed, not proved.

use vstd::prelude::*;

verus! {

/// The text that `serde_json::from_slice::<String>` reads from `bytes`, or
/// `None` where it reports an error.
pub uninterp spec fn json_text(bytes: Seq<u8>) -> Option<Seq<char>>;

/// Calls `serde_json::from_slice::<String>` on the bytes. The claim: the call
/// depends on the bytes alone, so its outcome is `json_text` of them, an error
/// standing for `None`.
#[verifier::external_body]
pub(crate) fn read_json_text(bytes: &Vec<u8>) -> (text: Option<String>)
    ensures
        match text {
            Some(t) => json_text(bytes@) == Some(t@),
            None => json_text(bytes@).is_none(),
        },
{
    match serde_json::from_slice::<String>(bytes.as_slice()) {
        Ok(text) => Some(text),
        Err(_) => None,
    }
}

/// Calls `serde_json::to_vec` on a string. The claims: writing a string into
/// memory does not fail, and `serde_json::from_slice::<String>` reads from the
/// bytes written the string that went in.
#[verifier::external_body]
pub(crate) fn write_json_text(text: &String) -> (bytes: Vec<u8>)
    ensures
        json_text(bytes@) == Some(text@),
{
    match serde_json::to_vec(text) {
        Ok(bytes) => bytes,
        Err(_) => Vec::new(),
    }
}

} // verus!
