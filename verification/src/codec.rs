//! Terminal input encoders: the front end decodes terminal output itself, but
//! can only encode UTF-8, so GBK encoding of typed input is done here.

use vstd::prelude::*;

verus! {

/// The GBK bytes of `text` as `encoding_rs` produces them (characters outside
/// GBK become HTML numeric character references).
pub uninterp spec fn gbk_bytes(text: Seq<char>) -> Seq<u8>;

/// Every character of `text` is ASCII.
pub open spec fn all_ascii(text: Seq<char>) -> bool {
    forall|i: int| 0 <= i < text.len() ==> (#[trigger] text[i] as u32) < 128
}

/// Encodes `text` as GBK (`encoding_rs::GBK.encode`). The result is named by
/// `gbk_bytes`; for all-ASCII text the crate hands back the UTF-8 bytes as they
/// are, so they equal the UTF-8 encoding.
#[verifier::external_body]
pub fn encode_gbk(text: &str) -> (bytes: Vec<u8>)
    ensures
        bytes@ == gbk_bytes(text@),
        all_ascii(text@) ==> bytes@ == vstd::utf8::encode_utf8(text@),
{
    let (bytes, _, _) = encoding_rs::GBK.encode(text);
    bytes.into_owned()
}

/// Encodes `text` as UTF-8 (`encoding_rs::UTF_8.encode`, which hands back the
/// string's own bytes).
#[verifier::external_body]
pub fn encode_utf8(text: &str) -> (bytes: Vec<u8>)
    ensures
        bytes@ == vstd::utf8::encode_utf8(text@),
{
    let (bytes, _, _) = encoding_rs::UTF_8.encode(text);
    bytes.into_owned()
}

} // verus!
