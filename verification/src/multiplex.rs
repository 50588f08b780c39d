//! Waiting on many signalling channels at once.
use crate::signal::Signal;
use crossbeam_channel::Receiver;
use crossbeam_channel::Select;
use crossbeam_channel::SelectedOperation;
use std::convert::Infallible;
use vstd::prelude::*;

verus! {

/// `crossbeam_channel::Select`, a list of channel operations to wait on.
#[verifier::external_type_specification]
#[verifier::external_body]
pub struct ExSelect<'a>(Select<'a>);

/// `crossbeam_channel::SelectedOperation`, the operation that a wait picked
/// and that has still to be completed.
#[verifier::external_type_specification]
#[verifier::external_body]
pub struct ExSelectedOperation<'a>(SelectedOperation<'a>);

/// The receivers whose receive operations a `Select` holds, by the index
/// under which each was added.
pub uninterp spec fn registered(sel: Select<'_>) -> Seq<Receiver<Infallible>>;

/// The index of the operation that was picked.
pub uninterp spec fn picked_index(oper: SelectedOperation<'_>) -> nat;

/// The receiver of the operation that was picked.
pub uninterp spec fn picked_receiver(oper: SelectedOperation<'_>) -> Receiver<Infallible>;

/// `Select::new` returns a list with no operation in it.
pub assume_specification<'a>[ Select::<'a>::new ]() -> (sel: Select<'a>)
    ensures
        registered(sel) == Seq::<Receiver<Infallible>>::empty(),
;

/// Calls `Select::recv`, which appends a receive operation on `rx` to the
/// list and returns its index. Indices are handed out in order from zero;
/// no operation is ever taken off a list here, so the index is the number of
/// operations added before.
#[verifier::external_body]
pub(crate) fn register<'a>(sel: &mut Select<'a>, rx: &'a Receiver<Infallible>) -> (index: usize)
    ensures
        index == registered(*old(sel)).len(),
        registered(*final(sel)) == registered(*old(sel)).push(*rx),
{
    sel.recv(rx)
}

/// `Select::select` blocks until one of the operations can go ahead and
/// picks it; which one, where several can, is left to chance. It panics on
/// an empty list. The operation it returns carries the index and the
/// receiver of one entry of the list, which stays as it was.
pub assume_specification<'a>[ Select::<'a>::select ](sel: &mut Select<'a>) -> (oper:
    SelectedOperation<'a>)
    requires
        registered(*old(sel)).len() > 0,
    ensures
        registered(*final(sel)) == registered(*old(sel)),
        picked_index(oper) < registered(*old(sel)).len(),
        picked_receiver(oper) == registered(*old(sel))[picked_index(oper) as int],
;

/// `SelectedOperation::index` returns the index of the picked operation.
pub assume_specification<'a>[ SelectedOperation::<'a>::index ](
    oper: &SelectedOperation<'a>,
) -> (index: usize)
    ensures
        index == picked_index(*oper),
;

/// Calls `SelectedOperation::recv`, which completes the picked receive
/// operation. It panics unless it is handed the very receiver that the
/// operation was added with. A receive on a channel whose payload type has no
/// values can only end with the channel disconnected, which is reported as
/// [`Signal::Closed`].
#[verifier::external_body]
pub(crate) fn complete(oper: SelectedOperation<'_>, rx: &Receiver<Infallible>) -> (signal: Signal)
    requires
        *rx == picked_receiver(oper),
    ensures
        signal == Signal::Closed,
{
    match oper.recv(rx) {
        Err(_) => Signal::Closed,
        Ok(never) => match never {},
    }
}

} // verus!
