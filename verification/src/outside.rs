//! What the library takes from other crates on trust.
use bytes::Bytes;
use vstd::prelude::*;

verus! {

/// `bytes::Bytes`, a shared immutable run of bytes.
#[verifier::external_type_specification]
#[verifier::external_body]
pub struct ExBytes(Bytes);

/// The bytes that a `Bytes` holds, in order.
pub uninterp spec fn bytes_contents(bytes: Bytes) -> Seq<u8>;

/// `Bytes::new`: holds no byte.
#[verifier::external_body]
pub(crate) fn bytes_new() -> (bytes: Bytes)
    ensures
        bytes_contents(bytes) == Seq::<u8>::empty(),
{
    Bytes::new()
}

/// `Bytes::from` on a vector: holds what the vector held.
#[verifier::external_body]
pub(crate) fn bytes_from_vec(vec: Vec<u8>) -> (bytes: Bytes)
    ensures
        bytes_contents(bytes) == vec@,
{
    Bytes::from(vec)
}

/// `Bytes::clone`: another handle on the same bytes.
#[verifier::external_body]
pub(crate) fn bytes_clone(bytes: &Bytes) -> (copy: Bytes)
    ensures
        bytes_contents(copy) == bytes_contents(*bytes),
{
    bytes.clone()
}

/// The text of the error with which a DTLS connection reports that it is closed already.
pub open spec fn conn_closed_text() -> Seq<char> {
    "conn is closed"@
}

/// `to_string` on `webrtc_dtls::error::Error::ErrConnClosed`: the text that the error displays.
#[verifier::external_body]
pub(crate) fn conn_closed_string() -> (text: String)
    ensures
        text@ == conn_closed_text(),
{
    webrtc_dtls::error::Error::ErrConnClosed.to_string()
}

} // verus!
