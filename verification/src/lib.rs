//! A uProtocol transport over iceoryx2 shared-memory publish-subscribe.
//!
//! The modules hold the parts of the transport that compute and decide:
//! the framing of serialized messages into fixed-size buffers, the user
//! header that accompanies each sample, the choice of transport for a
//! messaging pattern, the bookkeeping of publishers, subscribers and
//! listeners per service, and the relay decision for each received sample.
use vstd::prelude::*;

pub mod filters;
pub mod keyed;
pub mod registry;
pub mod relay;
pub mod sample;
pub mod status;
pub mod tables;
pub mod text;
pub mod transport;
pub mod umessage;
pub mod uprotocolheader;
pub mod worker;

verus! {

/// Marks a type that may travel as the user header of a sample.
pub trait BaseUserHeader {}

/// Marks a type that may travel as the payload of a sample.
pub trait BasePayload {}

impl BaseUserHeader for uprotocolheader::UProtocolHeader {}

impl BasePayload for umessage::UMessageZeroCopy {}

/// A small user header: a format version and a timestamp.
#[derive(Clone, Copy, Debug, PartialEq, Eq, Structural)]
pub struct CustomHeader {
    pub version: i32,
    pub timestamp: u64,
}

impl BaseUserHeader for CustomHeader {}

impl CustomHeader {
    /// Reads a custom header out of a received user header, field by field.
    pub fn from_user_header(header: &CustomHeader) -> (res: Result<CustomHeader, status::Status>)
        ensures
            res matches Ok(h) && h == *header,
    {
        Ok(CustomHeader { version: header.version, timestamp: header.timestamp })
    }
}

} // verus!
