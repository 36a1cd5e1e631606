use vstd::prelude::*;
use up_rust::UMessage;
use crate::keyed::KeyedList;
use crate::status::{Status, StatusCode};
use crate::umessage::{
    decode_umessage, protobuf_error_display, protobuf_error_text, same_umessage,
    umessage_decoding,
};

verus! {

/// What one attempt to take a sample from a subscriber gave.
pub enum ReceiveOutcome {
    /// A sample arrived; its payload is the serialized message.
    Sample(Vec<u8>),
    /// No sample was waiting.
    NoSample,
    /// Receiving failed; the text describes why.
    Failed(String),
}

/// What the relay does with one subscriber's outcome.
pub enum RelayStep<'a, L> {
    /// Hand the message to each of these listeners, in order.
    Deliver { message: UMessage, listeners: Option<&'a KeyedList<u64, L>> },
    /// Nothing to do for this subscriber.
    Skip,
    /// Stop relaying and report this failure.
    Abort(Status),
}

/// The text that prefixes a failure to receive.
pub open spec fn receive_failure_prefix() -> Seq<char> {
    "Failed to receive sample: "@
}

/// The text that prefixes a failure to decode a sample.
pub open spec fn decode_failure_prefix() -> Seq<char> {
    "Failed to deserialize UMessage: "@
}

/// Whether `res` is what the relay does with one subscriber's outcome: a
/// received sample is decoded and delivered to the given listeners; a missing
/// sample is skipped; a failure to receive or to decode stops the relay with
/// an internal error whose text names the failure.
pub open spec fn relay_decision<'a, L>(
    listeners: Option<&'a KeyedList<u64, L>>,
    outcome: ReceiveOutcome,
    res: RelayStep<'a, L>,
) -> bool {
    match outcome {
        ReceiveOutcome::NoSample => res is Skip,
        ReceiveOutcome::Failed(text) => res matches RelayStep::Abort(status) && {
            &&& status.code == StatusCode::Internal
            &&& status.message@ == receive_failure_prefix() + text@
        },
        ReceiveOutcome::Sample(bytes) => match umessage_decoding(bytes@) {
            Ok(m) => res == (RelayStep::Deliver { message: m, listeners }),
            Err(e) => res matches RelayStep::Abort(status) && {
                &&& status.code == StatusCode::Internal
                &&& status.message@ == decode_failure_prefix() + protobuf_error_display(e)
            },
        },
    }
}

/// Decides what the relay does with one subscriber's outcome: a received
/// sample is decoded and delivered to the listeners registered for the
/// subscriber's service; a missing sample is skipped; a failure to receive
/// or to decode stops the relay with an internal error.
pub fn relay_step<'a, L>(
    listeners: Option<&'a KeyedList<u64, L>>,
    outcome: ReceiveOutcome,
) -> (res: RelayStep<'a, L>)
    ensures
        relay_decision(listeners, outcome, res),
{
    match outcome {
        ReceiveOutcome::NoSample => RelayStep::Skip,
        ReceiveOutcome::Failed(text) => {
            let mut message = String::from_str("Failed to receive sample: ");
            message.append(text.as_str());
            RelayStep::Abort(Status::fail_with_code(StatusCode::Internal, message))
        },
        ReceiveOutcome::Sample(bytes) => match decode_umessage(bytes.as_slice()) {
            Ok(message) => RelayStep::Deliver { message, listeners },
            Err(e) => {
                let mut message = String::from_str("Failed to deserialize UMessage: ");
                let detail = protobuf_error_text(&e);
                message.append(detail.as_str());
                RelayStep::Abort(Status::fail_with_code(StatusCode::Internal, message))
            },
        },
    }
}

/// A message that `encode_sample` published reaches the listeners equal to
/// the one sent: its payload, as `encode_sample` states of a message in wire
/// form, decodes to a message equal to the one sent, and the relay delivers
/// exactly what the payload decodes to.
pub proof fn lemma_relay_delivers_sent_message<'a, L>(
    sent: UMessage,
    payload: Vec<u8>,
    listeners: Option<&'a KeyedList<u64, L>>,
    res: RelayStep<'a, L>,
)
    requires
        umessage_decoding(payload@) matches Ok(back) && same_umessage(back, sent),
        relay_decision(listeners, ReceiveOutcome::Sample(payload), res),
    ensures
        res matches RelayStep::Deliver { message, listeners: to } && same_umessage(message, sent)
            && to == listeners,
{
}

/// The progress of one relay round: the subscribers are polled one by one in
/// relay order, each at most once, and the round stops at the first failure.
pub struct RelayRound {
    next: usize,
    count: usize,
    stopped: bool,
}

impl RelayRound {
    /// The position of the next subscriber to poll.
    pub closed spec fn position(&self) -> nat {
        self.next as nat
    }

    /// The number of subscribers in the round.
    pub closed spec fn count(&self) -> nat {
        self.count as nat
    }

    /// Whether a failure has stopped the round.
    pub closed spec fn stopped(&self) -> bool {
        self.stopped
    }

    /// A round over `count` subscribers, none polled yet.
    pub fn new(count: usize) -> (res: RelayRound)
        ensures
            res.position() == 0,
            res.count() == count,
            !res.stopped(),
    {
        RelayRound { next: 0, count, stopped: false }
    }

    /// The position of the subscriber to poll next, if the round goes on.
    pub fn next_subscriber(&self) -> (res: Option<usize>)
        ensures
            res == if !self.stopped() && self.position() < self.count() {
                Some(self.position() as usize)
            } else {
                None::<usize>
            },
    {
        if !self.stopped && self.next < self.count {
            Some(self.next)
        } else {
            None
        }
    }

    /// Decides what to do with the outcome of polling the subscriber at the
    /// current position, and moves past it; a failure stops the round.
    pub fn step<'a, L>(
        &mut self,
        listeners: Option<&'a KeyedList<u64, L>>,
        outcome: ReceiveOutcome,
    ) -> (res: RelayStep<'a, L>)
        requires
            !old(self).stopped(),
            old(self).position() < old(self).count(),
        ensures
            relay_decision(listeners, outcome, res),
            final(self).position() == old(self).position() + 1,
            final(self).count() == old(self).count(),
            final(self).stopped() == res is Abort,
    {
        let res = relay_step(listeners, outcome);
        self.next = self.next + 1;
        self.stopped = match &res {
            RelayStep::Abort(_) => true,
            _ => false,
        };
        res
    }
}

} // verus!
