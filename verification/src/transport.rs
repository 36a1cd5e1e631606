use vstd::prelude::*;
use crate::status::{Status, StatusCode};

verus! {

/// The kinds of communication that iceoryx2 offers.
#[derive(PartialEq, Eq, Structural, Clone, Copy, Debug)]
pub enum MessagingPattern {
    PublishSubscribe,
    Event,
    RequestResponse,
    Blackboard,
}

/// The transports that this crate can set up.
#[derive(PartialEq, Eq, Structural, Clone, Copy, Debug)]
pub enum TransportKind {
    /// Messages are published to services and relayed to registered listeners.
    PublishSubscribe,
}

/// The uProtocol transport over iceoryx2.
pub struct UTransportIceoryx2 {}

impl UTransportIceoryx2 {
    /// Chooses the transport for a messaging pattern: publish-subscribe is
    /// offered, every other pattern is refused as unimplemented.
    pub fn build(messaging_pattern: MessagingPattern) -> (res: Result<TransportKind, Status>)
        ensures
            res is Ok <==> messaging_pattern == MessagingPattern::PublishSubscribe,
            res matches Ok(kind) ==> kind == TransportKind::PublishSubscribe,
            res matches Err(status) ==> {
                &&& status.code == StatusCode::Unimplemented
                &&& status.message@ == "Unimplemented messaging pattern"@
            },
    {
        match messaging_pattern {
            MessagingPattern::PublishSubscribe => Ok(TransportKind::PublishSubscribe),
            _ => Err(
                Status::fail_with_code(
                    StatusCode::Unimplemented,
                    String::from_str("Unimplemented messaging pattern"),
                ),
            ),
        }
    }
}

} // verus!
