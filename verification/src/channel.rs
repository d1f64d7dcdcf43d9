//! Trusted view of the standard library's mpsc channels.
//!
//! The coordination core exchanges messages over `std::sync::mpsc` channels.
//! A channel is shared between threads, so nothing can be promised about what
//! a receive returns: the verified callers handle every outcome. Sending to a
//! dropped receiver is a benign failure that callers ignore.

use vstd::prelude::*;

verus! {

#[verifier::external_type_specification]
#[verifier::external_body]
#[verifier::reject_recursive_types(T)]
pub struct ExSender<T>(std::sync::mpsc::Sender<T>);

#[verifier::external_type_specification]
#[verifier::external_body]
#[verifier::reject_recursive_types(T)]
pub struct ExReceiver<T>(std::sync::mpsc::Receiver<T>);

/// Relies on std::sync::mpsc::channel: creates a connected sender/receiver
/// pair carrying values of one type.
#[verifier::external_body]
pub(crate) fn channel_pair<T>() -> (std::sync::mpsc::Sender<T>, std::sync::mpsc::Receiver<T>) {
    std::sync::mpsc::channel()
}

/// Relies on std::sync::mpsc::Sender::send: enqueues the value, never blocks,
/// and fails only when the receiving half was dropped. The result reports
/// whether the peer was still there; callers treat a gone peer as benign.
#[verifier::external_body]
pub(crate) fn send<T>(tx: &std::sync::mpsc::Sender<T>, value: T) -> bool {
    tx.send(value).is_ok()
}

/// Relies on std::sync::mpsc::Receiver::try_recv: returns a queued message
/// without blocking, or nothing when the queue is empty or the sending half
/// was dropped.
#[verifier::external_body]
pub(crate) fn try_recv<T>(rx: &std::sync::mpsc::Receiver<T>) -> Option<T> {
    match rx.try_recv() {
        Ok(v) => Some(v),
        Err(_) => None,
    }
}

} // verus!
