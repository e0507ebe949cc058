//! The bounded channel that carries snapshots to the presenter.

use vstd::prelude::*;
use async_channel::{SendError, Sender};
use crate::types::StatusUpdate;

verus! {

/// The sending half of an `async_channel` channel. Nothing inside it is visible here.
#[verifier::external_type_specification]
#[verifier::external_body]
#[verifier::reject_recursive_types(T)]
pub struct ExSender<T>(Sender<T>);

/// The error of a send on a closed channel; it holds the message that was not sent.
#[verifier::external_type_specification]
#[verifier::external_body]
#[verifier::reject_recursive_types(T)]
pub struct ExSendError<T>(SendError<T>);

/// Hands `update` to `async_channel::Sender::send_blocking`, which waits while the channel is
/// full and fails once the channel is closed.
///
/// Nothing is claimed of the result: it depends on what the receiving side does.
#[verifier::external_body]
pub(crate) fn send_blocking(tx: &Sender<StatusUpdate>, update: StatusUpdate) -> (sent: Result<
    (),
    SendError<StatusUpdate>,
>) {
    tx.send_blocking(update)
}

} // verus!
