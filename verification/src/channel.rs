//! The sending halves of the two channels that lead from the control
//! handler to the worker.
//!
//! The channels are tokio's unbounded ones. What a channel holds changes
//! under the hands of the receiving thread, so nothing here speaks of
//! its contents: a send either reaches the channel or reports that the
//! receiving half is gone.

use vstd::prelude::*;
use tokio::sync::mpsc::UnboundedSender;

verus! {

/// tokio's `UnboundedSender`, carried through verified code as an opaque
/// handle.
#[verifier::external_type_specification]
#[verifier::external_body]
#[verifier::reject_recursive_types(T)]
pub struct ExUnboundedSender<T>(UnboundedSender<T>);

/// Calls `UnboundedSender::send` and reports whether the channel took
/// the message.
///
/// tokio never blocks in this call. It returns an error, handed on here
/// as `false`, when the receiving half was closed or dropped. Whether
/// that is so depends on the receiving thread, so nothing is promised
/// of the answer. (tokio aborts the process should the number of queued
/// messages ever leave the range of its counter, half of `usize`; memory
/// runs out long before.)
#[verifier::external_body]
pub(crate) fn try_send<T>(sender: &UnboundedSender<T>, message: T) -> (accepted: bool) {
    sender.send(message).is_ok()
}

} // verus!
