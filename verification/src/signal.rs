//! The signalling channel: a rendezvous channel that can carry no value, so
//! that the only thing its receiving end can ever learn is that the sending
//! end is gone.
use crossbeam_channel::Receiver;
use crossbeam_channel::Sender;
use crossbeam_channel::TryRecvError;
use std::convert::Infallible;
use vstd::prelude::*;

verus! {

/// `crossbeam_channel::Receiver`, the receiving end of a channel. Nothing is
/// known of what is inside.
#[verifier::external_type_specification]
#[verifier::external_body]
#[verifier::reject_recursive_types(T)]
pub struct ExReceiver<T>(Receiver<T>);

/// `crossbeam_channel::Sender`, the sending end of a channel. Nothing is known
/// of what is inside.
#[verifier::external_type_specification]
#[verifier::external_body]
#[verifier::reject_recursive_types(T)]
pub struct ExSender<T>(Sender<T>);

/// `crossbeam_channel::bounded` creates a channel of the given capacity. It is
/// only ever asked for a channel of capacity zero, for which it cannot fail;
/// nothing is claimed of the two ends it returns.
pub assume_specification<T>[ crossbeam_channel::bounded::<T> ](cap: usize) -> (ends: (
    Sender<T>,
    Receiver<T>,
))
    requires
        cap == 0,
;

/// What one look at a signalling channel shows.
#[derive(Clone, Copy, Debug, PartialEq, Eq, Structural)]
pub enum Signal {
    /// The sending end is gone: the job has completed.
    Closed,
    /// The sending end is still held: the job is running.
    Open,
}

/// Calls `Receiver::try_recv`, which never blocks, and reports what it saw:
/// `Disconnected` as [`Signal::Closed`], `Empty` as [`Signal::Open`]. A
/// message cannot arrive, since the payload type has no values. The answer
/// depends on what other threads have done, so nothing is claimed of it.
#[verifier::external_body]
pub(crate) fn poll(rx: &Receiver<Infallible>) -> (signal: Signal) {
    match rx.try_recv() {
        Err(TryRecvError::Disconnected) => Signal::Closed,
        Err(TryRecvError::Empty) => Signal::Open,
        Ok(never) => match never {},
    }
}

} // verus!
