use crate::err::CyanotypeError;
use async_broadcast::{InactiveReceiver, Receiver, SendError, Sender};
use vstd::prelude::*;

verus! {

/// `async_broadcast::Sender`, the sending half of a stream's channel.
#[verifier::external_type_specification]
#[verifier::external_body]
#[verifier::reject_recursive_types(T)]
pub struct ExSender<T>(Sender<T>);

/// `async_broadcast::Receiver`, an active subscription to a stream.
#[verifier::external_type_specification]
#[verifier::external_body]
#[verifier::reject_recursive_types(T)]
pub struct ExReceiver<T>(Receiver<T>);

/// `async_broadcast::InactiveReceiver`, which keeps a channel open without
/// receiving anything.
#[verifier::external_type_specification]
#[verifier::external_body]
#[verifier::reject_recursive_types(T)]
pub struct ExInactiveReceiver<T>(InactiveReceiver<T>);

/// `async_broadcast::SendError`, what a failed broadcast hands back.
#[verifier::external_type_specification]
#[verifier::external_body]
#[verifier::reject_recursive_types(T)]
pub struct ExSendError<T>(SendError<T>);

/// How many packets a stream's channel holds before a broadcast waits.
pub const CHANNEL_CAPACITY: usize = 64;

/// Calls `async_broadcast::broadcast(cap)`, which opens a channel with room
/// for `cap` messages and panics when `cap` is zero (hence the `requires`).
/// Nothing is claimed of the two halves: their state is shared with every
/// other handle of the channel.
#[verifier::external_body]
fn open_broadcast<T>(cap: usize) -> (Sender<T>, Receiver<T>)
    requires
        cap > 0,
{
    async_broadcast::broadcast(cap)
}

/// Calls `async_broadcast::Receiver::deactivate`, which turns an active
/// receiver into an inactive one of the same channel. Nothing is claimed of
/// the result.
#[verifier::external_body]
fn deactivate_receiver<T>(receiver: Receiver<T>) -> InactiveReceiver<T> {
    receiver.deactivate()
}

/// Calls `async_broadcast::InactiveReceiver::activate_cloned`, which makes a
/// new active receiver of the same channel. Nothing is claimed of the result.
#[verifier::external_body]
fn activate_receiver<T>(receiver: &InactiveReceiver<T>) -> Receiver<T> {
    receiver.activate_cloned()
}

/// Calls `async_broadcast::Sender::receiver_count`, the number of active
/// receivers at the time of the call. Other handles of the channel change it
/// at any time, so nothing more than its type is claimed.
#[verifier::external_body]
fn active_receivers<T>(sender: &Sender<T>) -> usize {
    sender.receiver_count()
}

/// Calls `async_broadcast::Sender::close`, which closes the channel and
/// returns whether this call was the one that closed it. That depends on the
/// other handles, so nothing is claimed of the result.
#[verifier::external_body]
fn close_sender<T>(sender: &Sender<T>) -> bool {
    sender.close()
}

/// The channel through which a stream hands its packets to its subscribers.
///
/// The channel is kept open by an inactive receiver, so a stream with no
/// subscriber still has a channel to subscribe to.
#[verifier::reject_recursive_types(T)]
pub struct StreamChannel<T> {
    tx: Sender<T>,
    rx: InactiveReceiver<T>,
}

impl<T> StreamChannel<T> {
    /// The sending half of this channel.
    pub closed spec fn spec_sender(&self) -> Sender<T> {
        self.tx
    }

    /// Opens a channel with room for [`CHANNEL_CAPACITY`] packets and no
    /// active subscriber.
    pub fn new() -> Self {
        let (tx, rx) = open_broadcast(CHANNEL_CAPACITY);
        StreamChannel { tx, rx: deactivate_receiver(rx) }
    }

    /// A new subscription that receives every packet broadcast from now on.
    pub fn subscribe(&self) -> Receiver<T> {
        activate_receiver(&self.rx)
    }

    /// The number of active subscriptions at this moment.
    pub fn receiver_count(&self) -> usize {
        active_receivers(&self.tx)
    }

    /// Closes the channel; subscribers still receive what was sent before.
    /// Returns whether this call closed it.
    pub fn close(&self) -> bool {
        close_sender(&self.tx)
    }

    /// The sending half, through which packets are broadcast.
    pub fn sender(&self) -> (tx: &Sender<T>)
        ensures
            *tx == self.spec_sender(),
    {
        &self.tx
    }
}

/// What a stream reports after broadcasting one packet: success whatever the
/// channel answered, and [`CyanotypeError::ChannelSendError`] when the
/// broadcast failed.
pub fn broadcast_outcome<T>(sent: Result<Option<T>, SendError<T>>) -> (r: Result<(), CyanotypeError>)
    ensures
        sent is Ok <==> r is Ok,
        sent is Err ==> r matches Err(CyanotypeError::ChannelSendError),
{
    match sent {
        Ok(_) => Ok(()),
        Err(_) => Err(CyanotypeError::ChannelSendError),
    }
}

} // verus!
