//! Trusted bindings to the two codecs that feed text assets: the
//! pipeline's binary payload encoding (bincode, fixed-width integers,
//! trailing bytes allowed) and RON source text.
//!
//! Both decodes are functions of their input alone, but spelling out
//! either encoding would take pages, so each result is given a name
//! that the verified decode functions are exact against.

use vstd::prelude::*;
use bincode::Options;

verus! {

/// The text, if any, that the pipeline's payload encoding (bincode with
/// fixed-width integers, trailing bytes allowed) reads out of a byte
/// payload.
pub uninterp spec fn bincode_text_payload(data: Seq<u8>) -> Option<Seq<char>>;

/// The text, if any, that a RON document holding one string denotes.
pub uninterp spec fn ron_text(source: Seq<char>) -> Option<Seq<char>>;

/// Relies on bincode's `Options::deserialize` for `String`, under
/// `DefaultOptions` with `with_fixint_encoding` and
/// `allow_trailing_bytes`: the outcome depends on the bytes alone.
#[verifier::external_body]
pub(crate) fn decode_bincode_string(data: &[u8]) -> (r: Result<String, String>)
    ensures
        r matches Ok(s) ==> bincode_text_payload(data@) == Some(s@),
        r is Err ==> bincode_text_payload(data@) is None,
{
    let options = bincode::DefaultOptions::new().with_fixint_encoding().allow_trailing_bytes();
    match options.deserialize::<String>(data) {
        Ok(s) => Ok(s),
        Err(e) => Err(e.to_string()),
    }
}

/// Relies on `ron::from_str` for `String`: the outcome depends on the
/// characters alone.
#[verifier::external_body]
pub(crate) fn decode_ron_string(source: &str) -> (r: Result<String, String>)
    ensures
        r matches Ok(s) ==> ron_text(source@) == Some(s@),
        r is Err ==> ron_text(source@) is None,
{
    match ron::from_str::<String>(source) {
        Ok(s) => Ok(s),
        Err(e) => Err(e.to_string()),
    }
}

} // verus!
