//! Base64 text for byte strings, through the `base64` crate's standard engine.

use base64::Engine;
use vstd::prelude::*;

verus! {

#[verifier::external_type_specification]
#[verifier::external_body]
pub struct ExDecodeError(base64::DecodeError);

/// The text that the standard base64 engine (RFC 4648 alphabet, `=` padding)
/// writes for `bytes`.
pub uninterp spec fn base64_text(bytes: Seq<u8>) -> Seq<char>;

/// The bytes that the standard base64 engine reads from `text`, or `None`
/// where it rejects the text.
pub uninterp spec fn base64_bytes(text: Seq<char>) -> Option<Seq<u8>>;

/// Number of characters of the padded encoding of `n` bytes: four for every
/// started group of three.
pub open spec fn encoded_length(n: nat) -> nat {
    4 * ((n + 2) / 3)
}

/// Calls `Engine::encode` on `base64::prelude::BASE64_STANDARD`.
///
/// Trusted: the result is the engine's encoding of `bytes`, named
/// [`base64_text`]. The engine panics where the encoded length does not fit
/// `usize`; the precondition leaves those inputs out.
#[verifier::external_body]
fn standard_encode(bytes: &[u8]) -> (text: String)
    requires
        encoded_length(bytes@.len()) <= usize::MAX,
    ensures
        text@ == base64_text(bytes@),
{
    base64::prelude::BASE64_STANDARD.encode(bytes)
}

/// Calls `Engine::decode` on `base64::prelude::BASE64_STANDARD`.
///
/// Trusted: the result is the engine's reading of `text`, named
/// [`base64_bytes`], and the engine reads back every text that it wrote
/// itself: decoding inverts encoding.
#[verifier::external_body]
fn standard_decode(text: &str) -> (decoded: Result<Vec<u8>, base64::DecodeError>)
    ensures
        match decoded {
            Ok(read) => base64_bytes(text@) == Some(read@),
            Err(_) => base64_bytes(text@) is None,
        },
        forall|bytes: Seq<u8>|
            text@ == #[trigger] base64_text(bytes) ==> decoded is Ok && decoded->Ok_0@ == bytes,
{
    base64::prelude::BASE64_STANDARD.decode(text)
}

/// Values that can be written as base64 text and read back from it.
pub trait Base64Encoded {
    /// The bytes that the value stands for.
    spec fn octets(&self) -> Seq<u8>;

    /// Writes the value as padded standard base64.
    fn to_base64(&self) -> (text: String)
        requires
            encoded_length(self.octets().len()) <= usize::MAX,
        ensures
            text@ == base64_text(self.octets()),
    ;

    /// Reads a value from padded standard base64. Succeeds exactly on the
    /// texts that the engine accepts, among them every text that
    /// [`Base64Encoded::to_base64`] returns, which reads back as the bytes it
    /// was written from.
    fn from_base64(b64_str: &str) -> (decoded: Result<Self, base64::DecodeError>) where
        Self: Sized,

        ensures
            decoded is Ok <==> base64_bytes(b64_str@) is Some,
            decoded matches Ok(value) ==> base64_bytes(b64_str@) == Some(value.octets()),
            forall|bytes: Seq<u8>| #[trigger]
                base64_text(bytes) == b64_str@ ==> (decoded matches Ok(value) && value.octets()
                    == bytes),
    ;
}

impl Base64Encoded for Vec<u8> {
    open spec fn octets(&self) -> Seq<u8> {
        self@
    }

    fn to_base64(&self) -> (text: String) {
        standard_encode(self.as_slice())
    }

    fn from_base64(b64_str: &str) -> (decoded: Result<Self, base64::DecodeError>) {
        standard_decode(b64_str)
    }
}

} // verus!
