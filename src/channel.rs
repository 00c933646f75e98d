//! The two hand-offs of the readback: the completion bridge, from the
//! device's completion handler to the rendering side, and the delivery
//! channel, from the rendering side to the simulation.
use vstd::prelude::*;
use crossbeam_channel::{Receiver, Sender};
use crate::cycle::Signal;

verus! {

#[verifier::external_type_specification]
#[verifier::external_body]
#[verifier::reject_recursive_types(T)]
pub struct ExSender<T>(Sender<T>);

#[verifier::external_type_specification]
#[verifier::external_body]
#[verifier::reject_recursive_types(T)]
pub struct ExReceiver<T>(Receiver<T>);

/// Relies on crossbeam_channel::Sender::try_send, which never blocks: when
/// the message cannot be queued at once (the channel is full, or every
/// receiver is gone) it hands the message back, through
/// TrySendError::into_inner.
#[verifier::external_body]
fn channel_send<T>(tx: &Sender<T>, msg: T) -> (r: Result<(), T>)
    ensures
        r matches Err(m) ==> m == msg,
{
    tx.try_send(msg).map_err(|e| e.into_inner())
}

/// Relies on crossbeam_channel::Receiver::try_recv: takes the oldest queued
/// message, if any, without blocking. What it finds depends on the sender.
#[verifier::external_body]
fn channel_try_recv<T>(rx: &Receiver<T>) -> (r: Option<T>)
{
    rx.try_recv().ok()
}

/// What became of a set of values handed to the delivery channel.
#[derive(Clone, Copy, Debug, PartialEq, Eq, Structural)]
pub enum Delivery {
    /// The values were queued for the consuming side.
    Sent,
    /// The values could not be queued at once (no receiver is left, or a
    /// bounded channel is full); they are dropped. This is no failure of the
    /// cycle.
    Unreceived,
}

/// The signal for what the completion handler reported: `None` while nothing
/// has arrived, else whether the map succeeded.
pub fn signal_of(received: Option<bool>) -> (s: Signal)
    ensures
        s == match received {
            None => Signal::Waiting,
            Some(true) => Signal::Mapped,
            Some(false) => Signal::Failed,
        },
{
    match received {
        None => Signal::Waiting,
        Some(ok) => if ok { Signal::Mapped } else { Signal::Failed },
    }
}

/// The completion handler's whole work: pass whether the map succeeded into
/// the bridge. It never blocks; an outcome that cannot be queued at once is
/// dropped.
pub fn signal_completion(tx: &Sender<bool>, mapped: bool) {
    let _ = channel_send(tx, mapped);
}

/// Checks the bridge once, without blocking.
pub fn check_bridge(rx: &Receiver<bool>) -> (s: Signal) {
    signal_of(channel_try_recv(rx))
}

/// The outcome of a send: `Sent` on success, `Unreceived` when the values
/// came back.
pub fn delivery_of(sent: Result<(), Vec<u32>>) -> (d: Delivery)
    ensures
        d == (if sent is Ok { Delivery::Sent } else { Delivery::Unreceived }),
{
    match sent {
        Ok(()) => Delivery::Sent,
        Err(_) => Delivery::Unreceived,
    }
}

/// Hands `values` to the consuming side without blocking. The outcome is what
/// `delivery_of` makes of the send's result: `Sent` when the values were
/// queued, `Unreceived` when they came back. Which of the two happens
/// depends on the other end of the channel.
pub fn deliver(tx: &Sender<Vec<u32>>, values: Vec<u32>) -> Delivery {
    delivery_of(channel_send(tx, values))
}

/// The consuming side's poll for one tick: takes the oldest queued values,
/// if any, and leaves the rest for later ticks.
pub fn poll_results(rx: &Receiver<Vec<u32>>) -> Option<Vec<u32>> {
    channel_try_recv(rx)
}

} // verus!
