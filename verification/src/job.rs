//! The handle pair of one background job.
use crate::signal::poll;
use crate::signal::Signal;
use crossbeam_channel::bounded;
use crossbeam_channel::Receiver;
use crossbeam_channel::Sender;
use std::convert::Infallible;
use vstd::prelude::*;

verus! {

/// What letting go of a handle amounts to.
#[derive(Clone, Copy, Debug, PartialEq, Eq, Structural)]
pub enum Disposal {
    /// The handle was resolved, or a failure is already under way: nothing
    /// is to be reported.
    Quiet,
    /// The handle stood for work whose outcome nobody observed.
    Orphaned,
}

impl Disposal {
    /// The diagnostic that goes with the disposal, if it calls for one.
    pub fn diagnostic(&self) -> (text: Option<&'static str>)
        ensures
            *self == Disposal::Quiet ==> text is None,
            *self == Disposal::Orphaned ==> text == Some("orphaned concurrent job"),
    {
        match self {
            Disposal::Quiet => None,
            Disposal::Orphaned => Some("orphaned concurrent job"),
        }
    }
}

/// The abstract state of a handle.
pub ghost struct JobState {
    /// The owner has given up on the job.
    pub abandoned: bool,
    /// The channel has been seen closed.
    pub completed: bool,
    /// The receiving end that the handle holds, from creation on.
    pub link: Receiver<Infallible>,
}

impl JobState {
    /// The state after one look at the channel.
    pub open spec fn observe(self, signal: Signal) -> JobState {
        JobState { completed: self.completed || signal == Signal::Closed, ..self }
    }

    /// The state after a run of looks at the channel, one after the other.
    pub open spec fn observe_all(self, signals: Seq<Signal>) -> JobState
        decreases signals.len(),
    {
        if signals.len() == 0 {
            self
        } else {
            self.observe_all(signals.drop_last()).observe(signals.last())
        }
    }

    /// The state after the owner has given up on the job.
    pub open spec fn abandon(self) -> JobState {
        JobState { abandoned: true, ..self }
    }

    /// What letting go of a handle in this state amounts to, when a last look
    /// at its channel shows `signal` and `unwinding` says whether a failure
    /// is already under way.
    pub open spec fn disposal(self, signal: Signal, unwinding: bool) -> Disposal {
        if self.abandoned || self.completed || signal == Signal::Closed || unwinding {
            Disposal::Quiet
        } else {
            Disposal::Orphaned
        }
    }
}

/// The owner's claim on a unit of background work.
#[must_use]
pub struct ConcurrentJob {
    is_abandoned: bool,
    is_done: bool,
    chan: Receiver<Infallible>,
}

/// Proof that a unit of background work is still running. Dropping it is the
/// completion signal.
pub struct JobToken {
    #[allow(unused)]
    chan: Sender<Infallible>,
}

impl View for ConcurrentJob {
    type V = JobState;

    closed spec fn view(&self) -> JobState {
        JobState { abandoned: self.is_abandoned, completed: self.is_done, link: self.chan }
    }
}

impl ConcurrentJob {
    /// Creates the handle and the token of a new job, joined by a channel of
    /// their own.
    pub fn new() -> (pair: (ConcurrentJob, JobToken))
        ensures
            !pair.0@.abandoned,
            !pair.0@.completed,
    {
        let (tx, rx) = bounded(0);
        let job = ConcurrentJob { is_abandoned: false, is_done: false, chan: rx };
        let token = JobToken { chan: tx };
        (job, token)
    }

    /// Records what a look at the channel showed, and says whether the job is
    /// known to have completed.
    pub fn observe(&mut self, signal: Signal) -> (done: bool)
        ensures
            final(self)@ == old(self)@.observe(signal),
            done == final(self)@.completed,
    {
        match signal {
            Signal::Closed => {
                self.is_done = true;
            },
            Signal::Open => {},
        }
        self.is_done
    }

    /// Looks at the channel without blocking and says whether the job has
    /// completed. Once it has said yes, it says yes ever after.
    pub fn is_completed(&mut self) -> (done: bool)
        ensures
            final(self)@ == old(self)@ || final(self)@ == old(self)@.observe(Signal::Closed),
            done == final(self)@.completed,
            old(self)@.completed ==> done,
    {
        let signal = poll(&self.chan);
        self.observe(signal)
    }

    /// What letting go of the handle amounts to, given what a last look at
    /// its channel showed and whether a failure is already under way.
    pub fn disposal(&self, signal: Signal, unwinding: bool) -> (d: Disposal)
        ensures
            d == self@.disposal(signal, unwinding),
    {
        let closed = match signal {
            Signal::Closed => true,
            Signal::Open => false,
        };
        if self.is_abandoned || self.is_done || closed || unwinding {
            Disposal::Quiet
        } else {
            Disposal::Orphaned
        }
    }

    /// Lets go of the handle, as its destruction does. A handle that is
    /// abandoned or known to be complete is not looked at again; any other
    /// gets a last look at its channel. `unwinding` says whether a failure is
    /// already under way.
    pub fn dispose(self, unwinding: bool) -> (d: Disposal)
        ensures
            d == self@.disposal(Signal::Closed, unwinding) || d == self@.disposal(
                Signal::Open,
                unwinding,
            ),
            self@.abandoned || self@.completed || unwinding ==> d == Disposal::Quiet,
    {
        if self.is_abandoned || self.is_done {
            Disposal::Quiet
        } else {
            let signal = poll(&self.chan);
            self.disposal(signal, unwinding)
        }
    }

    /// Gives up on the job: the handle is let go without a report, whether
    /// or not the work has finished. The work itself is not touched.
    pub fn abandon(self) -> (d: Disposal)
        ensures
            d == Disposal::Quiet,
            d == self@.abandon().disposal(Signal::Open, false),
    {
        let mut job = self;
        job.mark_abandoned();
        job.dispose(false)
    }

    /// Sets the flag that `abandon` sets, in place.
    fn mark_abandoned(&mut self)
        ensures
            final(self)@ == old(self)@.abandon(),
    {
        self.is_abandoned = true;
    }

    /// The receiving end of the handle's channel.
    pub(crate) fn receiver(&self) -> (rx: &Receiver<Infallible>)
        ensures
            *rx == self@.link,
    {
        &self.chan
    }
}

} // verus!
