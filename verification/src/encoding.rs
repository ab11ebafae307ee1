//! Base64, the text form in which the master key is stored.

use vstd::prelude::*;

verus! {

/// What standard, padded base64 text decodes to: the bytes, or the message
/// of the decoder's complaint.
pub uninterp spec fn base64_decoded(text: Seq<char>) -> Result<Seq<u8>, Seq<char>>;

/// The standard, padded base64 text of `bytes`.
pub uninterp spec fn base64_encoded(bytes: Seq<u8>) -> Seq<char>;

/// The text decodes, and to exactly these bytes.
pub open spec fn decodes_to(text: Seq<char>, bytes: Seq<u8>) -> bool {
    base64_decoded(text) == Ok::<Seq<u8>, Seq<char>>(bytes)
}

/// `base64::encode` on a 32-byte key.
///
/// Claimed of it: the text is a function of the key alone, and it decodes
/// to the key it was made from.
#[allow(deprecated)]
#[verifier::external_body]
pub(crate) fn encode_key(key: &[u8; 32]) -> (encoded: String)
    ensures
        encoded@ == base64_encoded(key@),
        decodes_to(encoded@, key@),
{
    base64::encode(key)
}

/// `base64::decode`, with a failure turned into the text it displays.
///
/// Claimed of it: the outcome is a function of the text alone.
#[allow(deprecated)]
#[verifier::external_body]
pub(crate) fn decode(text: &str) -> (r: Result<Vec<u8>, String>)
    ensures
        match r {
            Ok(bytes) => base64_decoded(text@) matches Ok(decoded) && decoded == bytes@,
            Err(complaint) => base64_decoded(text@) matches Err(said) && said == complaint@,
        },
{
    match base64::decode(text) {
        Ok(bytes) => Ok(bytes),
        Err(e) => Err(e.to_string()),
    }
}

} // verus!
