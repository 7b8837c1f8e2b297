//! The channels of std that connect the coordinator, the sessions and the
//! engine driver.
use vstd::prelude::*;
use std::sync::mpsc::{Receiver, Sender};

verus! {

/// The sending end of a channel of std: a value that is carried through
/// and handed to `Sender::send`.
#[verifier::external_type_specification]
#[verifier::external_body]
#[verifier::reject_recursive_types(T)]
pub struct ExSender<T>(Sender<T>);

/// The receiving end of a channel of std: a value that is carried through
/// and handed to `Receiver::try_iter`.
#[verifier::external_type_specification]
#[verifier::external_body]
#[verifier::reject_recursive_types(T)]
pub struct ExReceiver<T>(Receiver<T>);

/// Calls `Sender::send` with the value and says whether it was taken. That
/// depends on whether the receiving end still exists, so nothing is
/// promised of the answer.
#[verifier::external_body]
pub(crate) fn send<T>(sender: &Sender<T>, value: T) -> (sent: bool) {
    sender.send(value).is_ok()
}

/// Calls `Receiver::try_iter` and collects what it yields: the values that
/// wait in the channel, in the order in which they were sent, without
/// waiting for more. What waits depends on the senders, so nothing is
/// promised of the result.
#[verifier::external_body]
pub(crate) fn drain<T>(receiver: &Receiver<T>) -> (waiting: Vec<T>) {
    receiver.try_iter().collect()
}

} // verus!
