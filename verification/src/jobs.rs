//! The set of jobs that an owner has outstanding.
use crate::job::ConcurrentJob;
use crate::job::Disposal;
use crate::job::JobState;
use crate::multiplex::complete;
use crate::multiplex::picked_index;
use crate::multiplex::picked_receiver;
use crate::multiplex::register;
use crate::multiplex::registered;
use crate::signal::Signal;
use crossbeam_channel::Receiver;
use crossbeam_channel::Select;
use crossbeam_channel::SelectedOperation;
use std::convert::Infallible;
use vstd::prelude::*;

verus! {

/// The handles of the jobs that the owner considers outstanding.
pub struct Jobs {
    jobs: Vec<ConcurrentJob>,
}

impl View for Jobs {
    type V = Seq<JobState>;

    closed spec fn view(&self) -> Seq<JobState> {
        states(self.jobs@)
    }
}

/// The states of `states` after each handle has had one look at its channel,
/// the i-th handle seeing `signals[i]`.
pub open spec fn looked_at(states: Seq<JobState>, signals: Seq<Signal>) -> Seq<JobState>
    recommends
        signals.len() == states.len(),
{
    Seq::new(states.len(), |i: int| states[i].observe(signals[i]))
}

/// The handles among `states` that are not known to have completed, in order.
pub open spec fn pending(states: Seq<JobState>) -> Seq<JobState> {
    states.filter(|state: JobState| !state.completed)
}

/// `pending` takes a completed handle at the end out and keeps any other.
proof fn lemma_pending_push(states: Seq<JobState>, state: JobState)
    ensures
        pending(states.push(state)) == if state.completed {
            pending(states)
        } else {
            pending(states).push(state)
        },
{
    reveal(Seq::filter);
    assert(states.push(state).drop_last() == states);
}

/// The channels of a list of handles, in order.
spec fn links(jobs: Seq<ConcurrentJob>) -> Seq<Receiver<Infallible>> {
    jobs.map_values(|job: ConcurrentJob| job@.link)
}

/// Whether `oper` is what a wait on the channels of `states`, taken in order,
/// can pick: the receive operation on the channel of the handle that stands
/// at the operation's index.
pub open spec fn picked_among(oper: SelectedOperation<'_>, states: Seq<JobState>) -> bool {
    &&& picked_index(oper) < states.len()
    &&& picked_receiver(oper) == states[picked_index(oper) as int].link
}

/// The states of a list of handles, in order.
spec fn states(jobs: Seq<ConcurrentJob>) -> Seq<JobState> {
    jobs.map_values(|job: ConcurrentJob| job@)
}

/// Blocks until the channel of one of the handles is closed, and says which:
/// the handle whose receive operation the wait picked, that operation having
/// ended with the channel closed.
fn await_any(jobs: &Vec<ConcurrentJob>) -> (found: (usize, Signal))
    requires
        jobs@.len() > 0,
    ensures
        found.0 < jobs@.len(),
        found.1 == Signal::Closed,
        exists|oper: SelectedOperation<'_>|
            picked_among(oper, states(jobs@)) && found.0 == picked_index(oper),
{
    let mut sel = Select::new();
    let mut i: usize = 0;
    while i < jobs.len()
        invariant
            i <= jobs@.len(),
            registered(sel) == links(jobs@.take(i as int)),
        decreases jobs@.len() - i,
    {
        let index = register(&mut sel, jobs[i].receiver());
        assert(index == i);
        assert(links(jobs@.take(i as int + 1)) == links(jobs@.take(i as int)).push(
            jobs@[i as int]@.link,
        ));
        i = i + 1;
    }
    let oper = sel.select();
    let done = oper.index();
    let ghost picked = oper;
    let signal = complete(oper, jobs[done].receiver());
    assert(picked_among(picked, states(jobs@)));
    (done, signal)
}

impl Jobs {
    /// An empty set.
    pub fn new() -> (jobs: Jobs)
        ensures
            jobs@ == Seq::<JobState>::empty(),
    {
        Jobs { jobs: Vec::new() }
    }

    /// How many handles the set holds.
    pub fn len(&self) -> (n: usize)
        ensures
            n == self@.len(),
    {
        self.jobs.len()
    }

    /// Takes out every handle whose job is seen to have completed. A handle
    /// that stays is as it was.
    fn gc(&mut self)
        ensures
            exists|signals: Seq<Signal>|
                signals.len() == old(self)@.len() && final(self)@ == pending(
                    looked_at(old(self)@, signals),
                ),
    {
        let ghost before = self@;
        let ghost mut signals: Seq<Signal> = Seq::empty();
        let mut i: usize = 0;
        proof {
            reveal(Seq::filter);
        }
        while i < self.jobs.len()
            invariant
                i <= self.jobs@.len(),
                signals.len() + (self.jobs@.len() - i) == before.len(),
                self@.take(i as int) == pending(
                    looked_at(before.take(signals.len() as int), signals),
                ),
                self@.skip(i as int) == before.skip(signals.len() as int),
            decreases self.jobs@.len() - i,
        {
            let ghost seen = signals.len() as int;
            let ghost head = looked_at(before.take(seen), signals);
            assert(before[seen] == before.skip(seen)[0]);
            let done = self.jobs[i].is_completed();
            let ghost signal = if done {
                Signal::Closed
            } else {
                Signal::Open
            };
            let ghost state = before[seen].observe(signal);
            proof {
                assert(looked_at(before.take(seen + 1), signals.push(signal)) == head.push(state));
                lemma_pending_push(head, state);
                assert(before.skip(seen + 1) == before.skip(seen).skip(1));
                signals = signals.push(signal);
            }
            if done {
                let job = self.jobs.remove(i);
                let d = job.dispose(false);
                assert(d == Disposal::Quiet);
            } else {
                i = i + 1;
            }
        }
        proof {
            assert(before.take(signals.len() as int) == before);
        }
    }

    /// Takes a handle into the set. The handles already held are first gone
    /// through once, and those whose jobs are seen to have completed are
    /// taken out, so that the set does not fill up with finished jobs.
    pub fn add(&mut self, job: ConcurrentJob)
        ensures
            exists|signals: Seq<Signal>|
                signals.len() == old(self)@.len() && final(self)@ == pending(
                    looked_at(old(self)@, signals),
                ).push(job@),
    {
        self.gc();
        self.jobs.push(job);
    }

    /// Takes the handle at `done` out of the set, the last handle moving into
    /// its place, and lets go of it, `signal` being what its channel showed.
    pub fn retire(&mut self, done: usize, signal: Signal) -> (d: Disposal)
        requires
            done < old(self)@.len(),
        ensures
            final(self)@ == old(self)@.update(done as int, old(self)@.last()).drop_last(),
            d == old(self)@[done as int].disposal(signal, false),
    {
        let job = self.jobs.swap_remove(done);
        job.disposal(signal, false)
    }

    /// Blocks until one job of the set has completed, and takes its handle out
    /// of the set, the last handle moving into its place. The handle that
    /// leaves is the one whose channel the wait found closed, so it is let go
    /// quietly.
    pub fn wait_for_one(&mut self) -> (d: Disposal)
        requires
            old(self)@.len() > 0,
        ensures
            d == Disposal::Quiet,
            final(self)@.len() == old(self)@.len() - 1,
            exists|oper: SelectedOperation<'_>|
                picked_among(oper, old(self)@) && final(self)@ == old(self)@.update(
                    picked_index(oper) as int,
                    old(self)@.last(),
                ).drop_last(),
    {
        let (done, signal) = await_any(&self.jobs);
        self.retire(done, signal)
    }

    /// Blocks until every job of the set has completed. Each handle leaves
    /// the set when its channel is found closed, in whatever order that
    /// happens; the set is empty afterwards.
    pub fn wait_for_all(&mut self)
        ensures
            final(self)@ == Seq::<JobState>::empty(),
    {
        while self.jobs.len() > 0
            decreases self.jobs@.len(),
        {
            let d = self.wait_for_one();
            assert(d == Disposal::Quiet);
            assert(self@.len() == self.jobs@.len());
        }
    }

    /// Tears the set down: takes every handle that is left out of the set and
    /// abandons it, whether or not its job has completed, so that none of
    /// them is reported. The set is empty afterwards.
    pub fn abandon_all(&mut self)
        ensures
            final(self)@ == Seq::<JobState>::empty(),
    {
        let mut jobs: Vec<ConcurrentJob> = Vec::new();
        std::mem::swap(&mut self.jobs, &mut jobs);
        while jobs.len() > 0
            invariant
                self.jobs@.len() == 0,
            decreases jobs@.len(),
        {
            match jobs.pop() {
                Some(job) => {
                    let d = job.abandon();
                    assert(d == Disposal::Quiet);
                },
                None => {},
            }
        }
    }

    /// Whether the set holds no handle.
    pub fn is_empty(&self) -> (empty: bool)
        ensures
            empty == (self@.len() == 0),
    {
        self.jobs.len() == 0
    }
}

} // verus!
