//! The receiving side of the alert protocol: every request gets an
//! acknowledgement.

use crate::types::{ack_subject, Event, EventAck, ICUError, ICUStatus, Status};
use vstd::prelude::*;
use vstd::string::*;

verus! {

/// Payload of the acknowledgement of a request that asked for a reply.
pub open spec fn confirmation() -> Seq<char> {
    "Acknowledged successfully."@
}

/// Payload of the acknowledgement of a request that asked for none.
pub open spec fn refusal() -> Seq<char> {
    "Acknowledgement failed."@
}

/// What the receiver answers to `event`.
pub open spec fn answers(event: Event, ack: EventAck) -> bool {
    &&& ack.subject@ == ack_subject(event.subject@)
    &&& event.reply ==> ack.status == ICUStatus::Success && ack.payload@ == confirmation()
    &&& !event.reply ==> ack.status == ICUStatus::Failure && ack.payload@ == refusal()
}

/// Answers an alert request. A request that asks for a reply is confirmed; one
/// that does not is answered with a failure, never dropped.
pub fn acknowledge(event: Event) -> (ack: EventAck)
    ensures
        answers(event, ack),
{
    if event.reply {
        EventAck::new(
            event.subject,
            String::from_str("Acknowledged successfully."),
            ICUStatus::Success,
            None,
        )
    } else {
        let error = ICUError {
            code: Status::FailedPrecondition,
            message: String::from_str("Acknowledgement failed."),
        };
        EventAck::new(event.subject, String::new(), ICUStatus::Failure, Some(error))
    }
}

/// The alert service.
#[derive(Debug, Default)]
pub struct EventsService {}

impl EventsService {
    /// Handles one alert request.
    pub fn alert(&self, event: Event) -> (ack: EventAck)
        ensures
            answers(event, ack),
    {
        acknowledge(event)
    }
}

/// The same service, for peers that address it as `Communication`.
#[derive(Debug, Default)]
pub struct CommunicationService {}

impl CommunicationService {
    /// Handles one alert request.
    pub fn alert(&self, event: Event) -> (ack: EventAck)
        ensures
            answers(event, ack),
    {
        acknowledge(event)
    }
}

} // verus!
