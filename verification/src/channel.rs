//! Bounded channels: trusted declarations of the standard library's
//! synchronous channel ends, and the Reliable Send primitive every
//! producer of a control message uses, so that a full channel never
//! drops a shutdown signal and a gone receiver never blocks one.

use std::sync::mpsc::{Receiver, SyncSender, TryRecvError, TrySendError};
use vstd::prelude::*;

use crate::messages::Signal;

verus! {

#[verifier::external_type_specification]
#[verifier::external_body]
#[verifier::reject_recursive_types(T)]
pub struct ExSyncSender<T>(SyncSender<T>);

#[verifier::external_type_specification]
#[verifier::external_body]
#[verifier::reject_recursive_types(T)]
pub struct ExReceiver<T>(Receiver<T>);

/// The outcome of one non-blocking send attempt.
pub enum SendAttempt<T> {
    /// The message was queued.
    Sent,
    /// The channel was full; the message comes back.
    Full(T),
    /// Every receiver is gone; the message comes back.
    Disconnected(T),
}

/// The outcome of one non-blocking receive attempt.
pub enum RecvAttempt<T> {
    /// A queued message.
    Received(T),
    /// Nothing queued, senders still live.
    Empty,
    /// Nothing queued and every sender is gone.
    Closed,
}

/// Relies on std::sync::mpsc::sync_channel: a bounded channel of the
/// given capacity, returned as its sending and receiving ends.
#[verifier::external_body]
pub fn sync_channel_pair<T>(bound: usize) -> (r: (SyncSender<T>, Receiver<T>)) {
    std::sync::mpsc::sync_channel(bound)
}

/// Relies on std::sync::mpsc::SyncSender::try_send: never blocks; a full
/// or disconnected channel hands the message back unchanged.
#[verifier::external_body]
pub fn try_send<T>(tx: &SyncSender<T>, msg: T) -> (r: SendAttempt<T>)
    ensures
        r matches SendAttempt::Full(m) ==> m == msg,
        r matches SendAttempt::Disconnected(m) ==> m == msg,
{
    match tx.try_send(msg) {
        Ok(()) => SendAttempt::Sent,
        Err(TrySendError::Full(m)) => SendAttempt::Full(m),
        Err(TrySendError::Disconnected(m)) => SendAttempt::Disconnected(m),
    }
}

/// Relies on std::sync::mpsc::SyncSender::send: blocks while the channel
/// is full; delivers unless every receiver is gone, in which case the
/// message comes back unchanged.
#[verifier::external_body]
fn send_blocking<T>(tx: &SyncSender<T>, msg: T) -> (undelivered: Option<T>)
    ensures
        undelivered matches Some(m) ==> m == msg,
{
    match tx.send(msg) {
        Ok(()) => None,
        Err(e) => Some(e.0),
    }
}

/// Relies on std::sync::mpsc::Receiver::try_recv: never blocks; returns a
/// queued message, or reports the channel empty or closed.
#[verifier::external_body]
pub fn try_recv<T>(rx: &Receiver<T>) -> (r: RecvAttempt<T>) {
    match rx.try_recv() {
        Ok(m) => RecvAttempt::Received(m),
        Err(TryRecvError::Empty) => RecvAttempt::Empty,
        Err(TryRecvError::Disconnected) => RecvAttempt::Closed,
    }
}

/// Relies on std::sync::mpsc::Receiver::recv: blocks until a message is
/// queued, or until every sender is gone, which returns nothing.
#[verifier::external_body]
pub fn recv_blocking<T>(rx: &Receiver<T>) -> (r: Option<T>) {
    match rx.recv() {
        Ok(m) => Some(m),
        Err(_) => None,
    }
}

/// What Reliable Send does after one attempt.
pub enum SendOutcome<T> {
    /// The send is over: delivered, or absorbed by a gone receiver.
    Done,
    /// The channel was full: try again with the same message.
    Retry(T),
}

/// The decision Reliable Send takes on one attempt's outcome: a queued
/// message ends the send, a gone receiver counts as success, and only a
/// full channel is retried, with the unchanged message.
pub fn send_step<T>(attempt: SendAttempt<T>) -> (r: SendOutcome<T>)
    ensures
        attempt matches SendAttempt::Full(m) ==> r == SendOutcome::Retry(m),
        !(attempt is Full) ==> r is Done,
{
    match attempt {
        SendAttempt::Sent => SendOutcome::Done,
        SendAttempt::Disconnected(_) => SendOutcome::Done,
        SendAttempt::Full(m) => SendOutcome::Retry(m),
    }
}

/// Reliable Send: delivers a control message without ever losing it to a
/// transient full channel, and returns at once when the receiver is
/// already gone. A full channel falls back to a blocking send, whose
/// failure again means the receiver is gone.
pub fn send_reliable<T>(tx: &SyncSender<T>, msg: T) {
    match send_step(try_send(tx, msg)) {
        SendOutcome::Done => (),
        SendOutcome::Retry(m) => {
            let undelivered = send_blocking(tx, m);
            match undelivered {
                _ => (),
            }
        },
    }
}

/// Whether one non-blocking poll of a stop-signal channel orders a stop:
/// a delivered signal does, and so does a closed channel; only an empty,
/// still-open channel lets the component go on.
pub fn stop_decision(attempt: RecvAttempt<Signal>) -> (stop: bool)
    ensures
        stop <==> !(attempt is Empty),
{
    match attempt {
        RecvAttempt::Received(_) => true,
        RecvAttempt::Closed => true,
        RecvAttempt::Empty => false,
    }
}

/// One non-blocking check of a stop-signal channel.
pub fn poll_stop(rx: &Receiver<Signal>) -> bool {
    stop_decision(try_recv(rx))
}

} // verus!
