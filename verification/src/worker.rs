//! The channel on which outbound messages leave for the connection worker.

use vstd::prelude::*;
use std::sync::mpsc::Sender;

verus! {

/// The sending half of a channel of the standard library.
#[verifier::external_type_specification]
#[verifier::external_body]
#[verifier::reject_recursive_types(T)]
pub struct ExSender<T>(std::sync::mpsc::Sender<T>);

/// Calls `Sender::send`. The message is handed to the channel; when the
/// receiving half is gone the call fails, and the failure's own description
/// comes back. Whether it succeeds depends on the other end of the channel,
/// so nothing is claimed of the result.
#[verifier::external_body]
pub(crate) fn hand_over<M>(worker: &Sender<M>, msg: M) -> (r: Result<(), String>) {
    match worker.send(msg) {
        Ok(()) => Ok(()),
        Err(err) => Err(format!("{err}")),
    }
}

} // verus!
