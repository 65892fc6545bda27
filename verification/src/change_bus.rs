//! The change bus: a broadcast channel on which the settings store announces
//! every edit with a full snapshot, and from which each scheduler reads
//! through a subscription of its own.

use vstd::prelude::*;
use crate::shared_state::BlinkSettings;
use tokio::sync::broadcast::error::TryRecvError;
use tokio::sync::broadcast::{Receiver, Sender};

verus! {

/// How many snapshots the channel retains for a subscriber that has not read
/// them yet. A subscriber that falls further behind loses the oldest ones and
/// is told how many.
pub const CHANNEL_CAPACITY: usize = 16;

/// `tokio::sync::broadcast::Sender`, the sending half of a broadcast channel.
#[verifier::external_type_specification]
#[verifier::external_body]
#[verifier::reject_recursive_types(T)]
pub struct ExSender<T>(Sender<T>);

/// `tokio::sync::broadcast::Receiver`, one subscriber's receiving half.
#[verifier::external_type_specification]
#[verifier::external_body]
#[verifier::reject_recursive_types(T)]
pub struct ExReceiver<T>(Receiver<T>);

/// What one non-blocking read of a subscription found.
#[derive(Clone, Copy, Debug, PartialEq, Eq, Structural)]
pub enum Polled {
    /// The next snapshot, in the order of publication.
    Snapshot(BlinkSettings),
    /// Nothing is waiting.
    Empty,
    /// Nothing is waiting and the bus is gone: nothing will ever arrive.
    Closed,
    /// The subscriber fell behind and this many snapshots were overwritten
    /// before it read them. The next read continues with the oldest snapshot
    /// the channel still holds.
    Lagged(u64),
}

/// Calls `tokio::sync::broadcast::channel` and keeps the sending half. The
/// call panics on a capacity of zero or above `usize::MAX / 2`, which the
/// precondition leaves out. Nothing is claimed of the channel returned.
#[verifier::external_body]
fn open_channel(capacity: usize) -> (tx: Sender<BlinkSettings>)
    requires
        0 < capacity <= usize::MAX / 2,
{
    let (tx, _) = tokio::sync::broadcast::channel(capacity);
    tx
}

/// Calls `Sender::send`, which hands the snapshot to every receiver alive at
/// that moment, or to nobody when there is none. How many there were depends
/// on what other holders of receivers have done, so nothing is claimed of the
/// count returned; with no receiver it is 0.
#[verifier::external_body]
fn send_snapshot(tx: &Sender<BlinkSettings>, snapshot: BlinkSettings) -> (receivers: usize) {
    match tx.send(snapshot) {
        Ok(receivers) => receivers,
        Err(_) => 0,
    }
}

/// Calls `Sender::subscribe`, which makes a receiver for the values sent from
/// now on. Nothing is claimed of the receiver. The call panics only on a
/// channel that already counts `usize::MAX / 4` receivers.
#[verifier::external_body]
fn new_receiver(tx: &Sender<BlinkSettings>) -> (rx: Receiver<BlinkSettings>) {
    tx.subscribe()
}

/// Calls `Receiver::try_recv` and names its four outcomes. Which one comes
/// back depends on what has been sent meanwhile, so nothing is claimed of it.
#[verifier::external_body]
pub(crate) fn poll(rx: &mut Receiver<BlinkSettings>) -> (polled: Polled) {
    match rx.try_recv() {
        Ok(snapshot) => Polled::Snapshot(snapshot),
        Err(TryRecvError::Empty) => Polled::Empty,
        Err(TryRecvError::Closed) => Polled::Closed,
        Err(TryRecvError::Lagged(missed)) => Polled::Lagged(missed),
    }
}

/// The publishing side of the channel. It is owned by the settings store, and
/// `published` records, in order, every snapshot it has handed to the channel.
pub struct ChangeBus {
    tx: Sender<BlinkSettings>,
    log: Ghost<Seq<BlinkSettings>>,
}

impl ChangeBus {
    /// Every snapshot published on this bus so far, oldest first.
    pub closed spec fn published(&self) -> Seq<BlinkSettings> {
        self.log@
    }

    /// A bus on which nothing has been published yet, with no subscriber.
    pub fn new() -> (bus: ChangeBus)
        ensures
            bus.published() == Seq::<BlinkSettings>::empty(),
    {
        ChangeBus { tx: open_channel(CHANNEL_CAPACITY), log: Ghost(Seq::empty()) }
    }

    /// Publishes one snapshot to every live subscription and returns how many
    /// there were at that moment. With no subscriber the snapshot is dropped
    /// and the call still succeeds.
    pub fn publish(&mut self, snapshot: BlinkSettings) -> (subscribers: usize)
        ensures
            final(self).published() == old(self).published().push(snapshot),
    {
        let subscribers = send_snapshot(&self.tx, snapshot);
        proof {
            self.log@ = self.log@.push(snapshot);
        }
        subscribers
    }

    /// A new subscription, which yields the snapshots published after this
    /// call, in the order of publication. Subscriptions do not take from one
    /// another: each sees every snapshot.
    pub fn subscribe(&self) -> (rx: Receiver<BlinkSettings>) {
        new_receiver(&self.tx)
    }
}

} // verus!
