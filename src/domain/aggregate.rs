//! Domain events, handled by observers and emitted by publishers.
use vstd::prelude::*;

use super::BaseError;

verus! {

/// The name of an event.
pub type EventName = String;

/// An event of the domain: a name and a payload.
pub trait Event {
    type TPayload: Clone;

    fn name(&self) -> EventName;

    fn payload(&self) -> Self::TPayload;
}

/// Reacts to the events whose payload is a `TPayloadType`.
pub trait Observer<TPayloadType: Clone, TEvent: Event<TPayload = TPayloadType>> {
    fn handle(&self, event: TEvent) -> Result<(), BaseError>;
}

/// Emits events by name.
pub trait Publisher {
    fn emit(&self, event: EventName) -> Result<(), BaseError>;
}

} // verus!
