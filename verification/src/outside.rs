//! Trusted boundary to the outside crates the core leans on: the
//! standard base64 codec and v4 UUID minting.  Everything else in the
//! library is verified against the contracts stated here.
use base64::Engine;
use vstd::prelude::*;

verus! {

/// The standard, padded base64 text of `b`, as base64's STANDARD engine
/// produces it.
pub uninterp spec fn base64_of(b: Seq<u8>) -> Seq<char>;

/// What base64's STANDARD engine decodes `s` to; `None` where `s` is
/// not valid base64.
pub uninterp spec fn base64_decoding(s: Seq<char>) -> Option<Seq<u8>>;

/// Relies on base64's `Engine::encode` with the STANDARD engine: four
/// output characters for every started triple of input bytes, and
/// decoding the output yields the input back.
#[verifier::external_body]
pub(crate) fn encode_base64(data: &Vec<u8>) -> (r: String)
    requires
        data@.len() <= 0x1000_0000_0000_0000,
    ensures
        r@ == base64_of(data@),
        r@.len() == ((data@.len() + 2) / 3) * 4,
        base64_decoding(r@) == Some(data@),
{
    base64::prelude::BASE64_STANDARD.encode(data)
}

/// Relies on base64's `Engine::decode` with the STANDARD engine: it
/// fails exactly on text that is not valid padded base64.
#[verifier::external_body]
pub(crate) fn decode_base64(data: &str) -> (r: Option<Vec<u8>>)
    ensures
        match r {
            Some(v) => base64_decoding(data@) == Some(v@),
            None => base64_decoding(data@) is None,
        },
{
    base64::prelude::BASE64_STANDARD.decode(data).ok()
}

/// Relies on uuid's `Uuid::new_v4` and its `Display` form: a random
/// UUID printed as 36 hyphenated characters.  Nothing is promised of
/// the characters themselves.
#[verifier::external_body]
pub(crate) fn fresh_id() -> (r: String)
    ensures
        r@.len() == 36,
{
    uuid::Uuid::new_v4().to_string()
}

} // verus!
