//! The raw connector reply as the transport hands it over: the body bytes
//! and the status code, before a connector adapter folds it into a typed
//! response or a normalized error.

use vstd::prelude::*;

verus! {

#[verifier::external_type_specification]
#[verifier::external_body]
pub struct ExBytes(bytes::Bytes);

/// The bytes that a `bytes::Bytes` buffer holds.
pub uninterp spec fn bytes_content(b: bytes::Bytes) -> Seq<u8>;

/// Relies on `bytes::Bytes::from(Vec<u8>)`: the buffer holds exactly the
/// vector's bytes.
#[verifier::external_body]
fn bytes_from_vec(v: Vec<u8>) -> (b: bytes::Bytes)
    ensures
        bytes_content(b) == v@,
{
    bytes::Bytes::from(v)
}

/// Relies on `bytes::Bytes`'s `Deref` to `[u8]` and `<[u8]>::to_vec`:
/// copies out exactly the buffer's bytes.
#[verifier::external_body]
fn bytes_to_vec(b: &bytes::Bytes) -> (v: Vec<u8>)
    ensures
        v@ == bytes_content(*b),
{
    b.as_ref().to_vec()
}

/// Relies on `bytes::Bytes::clone`: the clone shares the same buffer, so
/// it holds the same bytes.
pub assume_specification[ <bytes::Bytes as Clone>::clone ](b: &bytes::Bytes) -> (r: bytes::Bytes)
    ensures
        bytes_content(r) == bytes_content(*b),
;

/// A raw connector reply: the body bytes and the transport status code.
pub struct Response {
    pub response: bytes::Bytes,
    pub status_code: u16,
}

impl Response {
    /// The body bytes of the reply.
    pub open spec fn body_content(&self) -> Seq<u8> {
        bytes_content(self.response)
    }

    /// Wrap a reply body and its status code.
    pub fn new(body: Vec<u8>, status_code: u16) -> (r: Self)
        ensures
            r.body_content() == body@,
            r.status_code == status_code,
    {
        Self { response: bytes_from_vec(body), status_code }
    }

    /// Copy the body bytes out of the reply.
    pub fn body_bytes(&self) -> (v: Vec<u8>)
        ensures
            v@ == self.body_content(),
    {
        bytes_to_vec(&self.response)
    }
}

impl Clone for Response {
    fn clone(&self) -> (r: Self)
        ensures
            r.body_content() == self.body_content(),
            r.status_code == self.status_code,
    {
        Self { response: self.response.clone(), status_code: self.status_code }
    }
}

} // verus!
