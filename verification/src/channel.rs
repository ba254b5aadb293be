//! Trusted boundary to tokio's bounded multi-producer channels, which carry
//! observation copies of relayed messages from the registry to handlers.
//!
//! Only the calls live here; nothing about the channel's contents is claimed.
//! Whether a non-blocking send is accepted depends on the consumer and on the
//! buffer at that moment, so the wrappers state only what holds of every
//! outcome.

use vstd::prelude::*;

use crate::messages::TypedMessage;

verus! {

#[verifier::external_type_specification]
#[verifier::external_body]
#[verifier::reject_recursive_types(T)]
pub struct ExSender<T>(tokio::sync::mpsc::Sender<T>);

#[verifier::external_type_specification]
#[verifier::external_body]
#[verifier::reject_recursive_types(T)]
pub struct ExReceiver<T>(tokio::sync::mpsc::Receiver<T>);

/// Outcome of one non-blocking send on a handler channel.
#[derive(Clone, Copy, PartialEq, Eq, Structural, Debug)]
pub enum SendStatus {
    /// The copy was placed in the channel's buffer.
    Accepted,
    /// The buffer was full; the copy was dropped (observation is
    /// best-effort).
    Full,
    /// The consumer half is gone; the copy was dropped.
    Closed,
}

/// The largest capacity a handler channel may be created with. tokio's
/// bounded channel refuses more than `usize::MAX >> 3` semaphore permits;
/// this constant stays within that bound on 32-bit and 64-bit targets alike.
pub const MAX_CHANNEL_CAPACITY: usize = 0x1FFF_FFFF;

/// Relies on tokio::sync::mpsc::channel: creates a bounded channel of the
/// given capacity, returning its sending and receiving halves. The call
/// panics on a capacity of zero and on one above the semaphore's maximum
/// number of permits, so both inputs are excluded.
#[verifier::external_body]
pub(crate) fn new_handler_channel(capacity: usize) -> (tokio::sync::mpsc::Sender<
    TypedMessage,
>, tokio::sync::mpsc::Receiver<TypedMessage>)
    requires
        capacity >= 1,
        capacity <= MAX_CHANNEL_CAPACITY,
{
    tokio::sync::mpsc::channel(capacity)
}

/// Relies on tokio::sync::mpsc::Sender::try_send: a non-blocking send that
/// either buffers the message or fails at once with `Full` (no buffer slot
/// free) or `Closed` (receiver dropped). Which outcome comes back depends on
/// the channel's state at that moment, so no outcome is promised.
#[verifier::external_body]
pub(crate) fn try_send_message(
    sender: &tokio::sync::mpsc::Sender<TypedMessage>,
    message: TypedMessage,
) -> (r: SendStatus)
{
    match sender.try_send(message) {
        Ok(()) => SendStatus::Accepted,
        Err(tokio::sync::mpsc::error::TrySendError::Full(_)) => SendStatus::Full,
        Err(tokio::sync::mpsc::error::TrySendError::Closed(_)) => SendStatus::Closed,
    }
}

} // verus!
