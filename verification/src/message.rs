//! The unit of transfer between the pipeline element and the broker.
//!
//! A message couples an opaque payload with a small routing key.  The bridge
//! never inspects or rewrites the payload: it only moves it between the
//! caller, the bounded mailboxes and the broker handles.

use vstd::prelude::*;

verus! {

/// Declares `bytes::Bytes` so that messages can carry the payload type the
/// broker handles exchange.  The crate treats a payload as an indivisible
/// value: no method of `bytes::Bytes` is relied upon.
#[verifier::external_type_specification]
#[verifier::external_body]
pub struct ExBytes(bytes::Bytes);

/// An opaque payload plus the routing key the broker uses for it.
pub struct Message {
    /// Broker-side routing/metadata key.
    pub key: String,
    /// The payload; carried through untouched.
    pub payload: bytes::Bytes,
}

impl Message {
    /// Bundles a routing key and a payload into one unit of transfer.
    pub fn new(key: String, payload: bytes::Bytes) -> (m: Message)
        ensures
            m.key == key,
            m.payload == payload,
    {
        Message { key, payload }
    }

    /// Hands the payload back out, e.g. to turn it into a pipeline buffer.
    pub fn into_payload(self) -> (p: bytes::Bytes)
        ensures
            p == self.payload,
    {
        self.payload
    }

    /// The routing key of this message.
    pub fn key(&self) -> (k: &String)
        ensures
            k@ == self.key@,
    {
        &self.key
    }
}

} // verus!
