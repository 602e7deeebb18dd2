//! Several contexts taking and giving back one lock, step by step.
//!
//! A context is a thread of a core or an interrupt handler of a core. On each
//! core one context runs at a time; an interrupt handler comes in on top of
//! the running context, which stands still until the handler has left, and it
//! can only come in while the interrupts of the core are not masked.
//!
//! A context takes the lock in steps: it masks the interrupts of its core,
//! then tries to swap the flag from clear to set; when the swap fails it only
//! reads the flag until it reads it clear, and then tries again.
//! [`SpinLock::lock`](crate::sync::SpinLock::lock) is the first two of these
//! steps on a flag that is clear: it never spins, because under its exclusive
//! borrow no other context can hold the flag. A context gives the lock back as
//! the guard does: it clears the flag, then restores the interrupts. The
//! steps of the contexts may follow each other in any order.
//!
//! What the lock protects is a counter. A context that holds the lock may
//! take a ticket from it as a call of `lock_with` on a counter does: it reads
//! the counter, and in a later step writes back one more than it read.
//!
//! [`Phase::after_attempt`] and [`Phase::after_watch`] are what a spinning
//! context decides after each try and each read; a lock on a flag that cores
//! share runs its loop on them.

use vstd::prelude::*;

use crate::sync::spin_lock::swap_outcome;

verus! {

/// Where a context stands with the lock.
#[derive(Debug, Clone, Copy, PartialEq, Eq, Structural)]
pub enum Phase {
    /// It neither holds the lock nor wants it.
    Idle,
    /// It has masked its interrupts and is about to try to take the flag.
    Contending,
    /// Its last try failed, and it reads the flag until it reads it clear.
    Watching,
    /// It holds the lock and may reach the protected value.
    Holding,
    /// It has cleared the flag and has yet to restore its interrupts.
    Leaving,
}

impl Phase {
    /// Where a contending context stands after a try to swap the flag from
    /// clear to set: it holds the lock if the swap took place, and else goes
    /// over to reading the flag.
    pub open spec fn spec_after_attempt(swapped: Result<bool, bool>) -> Phase {
        if swapped is Ok {
            Phase::Holding
        } else {
            Phase::Watching
        }
    }

    #[verifier::when_used_as_spec(spec_after_attempt)]
    pub fn after_attempt(swapped: Result<bool, bool>) -> (next: Phase)
        ensures
            next == Self::spec_after_attempt(swapped),
    {
        match swapped {
            Ok(_) => Phase::Holding,
            Err(_) => Phase::Watching,
        }
    }

    /// Where a watching context stands after it has read `flag`: it goes on
    /// reading while the flag is set, and tries again once it reads it clear.
    pub open spec fn spec_after_watch(flag: bool) -> Phase {
        if flag {
            Phase::Watching
        } else {
            Phase::Contending
        }
    }

    #[verifier::when_used_as_spec(spec_after_watch)]
    pub fn after_watch(flag: bool) -> (next: Phase)
        ensures
            next == Self::spec_after_watch(flag),
    {
        if flag {
            Phase::Watching
        } else {
            Phase::Contending
        }
    }
}

/// One context: the core it belongs to, where it stands with the lock,
/// whether the interrupts of its core were masked when it began to take the
/// lock, and what it has read of the counter and not yet written back.
pub struct Context {
    pub core: int,
    pub phase: Phase,
    pub saved: bool,
    pub read: Option<int>,
}

/// One core: whether its interrupts are masked, and the contexts that have
/// come in on it and not left, the running one last.
pub struct Core {
    pub masked: bool,
    pub entered: Seq<int>,
}

/// A lock flag, the counter that the lock protects, the tickets taken from
/// it so far, each with the context that took it, in the order in which they
/// were taken, and the cores and the contexts that share the lock.
pub struct Contention {
    pub flag: bool,
    pub value: int,
    pub tickets: Seq<(int, int)>,
    pub cores: Seq<Core>,
    pub contexts: Seq<Context>,
}

/// One step of one context, named by its index.
pub enum Step {
    /// The context comes in on its core: as its first context, or as an
    /// interrupt handler while the interrupts of the core are not masked.
    Enter(int),
    /// The running context, being idle, leaves its core.
    Leave(int),
    /// An idle context masks the interrupts of its core and keeps what they
    /// were.
    Mask(int),
    /// A contending context tries to swap the flag from clear to set.
    Attempt(int),
    /// A watching context reads the flag.
    Watch(int),
    /// A holding context reads the counter.
    Read(int),
    /// A holding context that has read the counter writes back one more than
    /// it read, and has what it read as its ticket.
    Write(int),
    /// A holding context that is not in the middle of taking a ticket clears
    /// the flag.
    Clear(int),
    /// A leaving context restores the interrupts of its core.
    Restore(int),
}

impl Step {
    /// The context that takes the step.
    pub open spec fn context(self) -> int {
        match self {
            Step::Enter(i) => i,
            Step::Leave(i) => i,
            Step::Mask(i) => i,
            Step::Attempt(i) => i,
            Step::Watch(i) => i,
            Step::Read(i) => i,
            Step::Write(i) => i,
            Step::Clear(i) => i,
            Step::Restore(i) => i,
        }
    }
}

impl Contention {
    /// Idle contexts, none of which has come in on its core, around a clear
    /// flag. `masked` says of each core whether its interrupts are masked,
    /// `homes` of each context which core it belongs to.
    pub open spec fn start(masked: Seq<bool>, homes: Seq<int>) -> Contention {
        Contention {
            flag: false,
            value: 0,
            tickets: Seq::<(int, int)>::empty(),
            cores: Seq::new(
                masked.len(),
                |k: int| Core { masked: masked[k], entered: Seq::<int>::empty() },
            ),
            contexts: Seq::new(
                homes.len(),
                |i: int| Context { core: homes[i], phase: Phase::Idle, saved: false, read: None },
            ),
        }
    }

    /// Whether `i` is a context of a core that there is.
    pub open spec fn known(self, i: int) -> bool {
        0 <= i < self.contexts.len() && 0 <= self.contexts[i].core < self.cores.len()
    }

    /// Whether context `i` is the one that runs on its core.
    pub open spec fn runs(self, i: int) -> bool {
        &&& self.known(i)
        &&& self.cores[self.contexts[i].core].entered.len() > 0
        &&& self.cores[self.contexts[i].core].entered.last() == i
    }

    /// Whether context `i` holds the lock.
    pub open spec fn holds(self, i: int) -> bool {
        self.known(i) && self.contexts[i].phase is Holding
    }

    /// This state with `phase` for context `i`.
    pub open spec fn at_phase(self, i: int, phase: Phase) -> Contention {
        Contention { contexts: self.contexts.update(i, Context { phase, ..self.contexts[i] }), ..self }
    }

    /// The state after `step`. A step that its context cannot take in this
    /// state, or of a context that there is not, changes nothing.
    pub open spec fn next(self, step: Step) -> Contention {
        let i = step.context();
        if !self.known(i) {
            self
        } else {
            let context = self.contexts[i];
            let k = context.core;
            let core = self.cores[k];
            match (step, context.phase) {
                (Step::Enter(_), Phase::Idle) => if !core.entered.contains(i) && (
                core.entered.len() == 0 || !core.masked) {
                    Contention {
                        cores: self.cores.update(k, Core { entered: core.entered.push(i), ..core }),
                        ..self
                    }
                } else {
                    self
                },
                (Step::Leave(_), Phase::Idle) => if self.runs(i) {
                    Contention {
                        cores: self.cores.update(
                            k,
                            Core { entered: core.entered.drop_last(), ..core },
                        ),
                        ..self
                    }
                } else {
                    self
                },
                (Step::Mask(_), Phase::Idle) => if self.runs(i) {
                    Contention {
                        cores: self.cores.update(k, Core { masked: true, ..core }),
                        contexts: self.contexts.update(
                            i,
                            Context { phase: Phase::Contending, saved: core.masked, ..context },
                        ),
                        ..self
                    }
                } else {
                    self
                },
                (Step::Attempt(_), Phase::Contending) => if self.runs(i) {
                    let (flag, swapped) = swap_outcome(self.flag, false, true);
                    Contention { flag, ..self.at_phase(i, Phase::spec_after_attempt(swapped)) }
                } else {
                    self
                },
                (Step::Watch(_), Phase::Watching) => if self.runs(i) {
                    self.at_phase(i, Phase::spec_after_watch(self.flag))
                } else {
                    self
                },
                (Step::Read(_), Phase::Holding) => if self.runs(i) {
                    Contention {
                        contexts: self.contexts.update(
                            i,
                            Context { read: Some(self.value), ..context },
                        ),
                        ..self
                    }
                } else {
                    self
                },
                (Step::Write(_), Phase::Holding) => if self.runs(i) && context.read is Some {
                    Contention {
                        value: context.read->0 + 1,
                        tickets: self.tickets.push((i, context.read->0)),
                        contexts: self.contexts.update(i, Context { read: None, ..context }),
                        ..self
                    }
                } else {
                    self
                },
                (Step::Clear(_), Phase::Holding) => if self.runs(i) && context.read is None {
                    Contention { flag: false, ..self.at_phase(i, Phase::Leaving) }
                } else {
                    self
                },
                (Step::Restore(_), Phase::Leaving) => if self.runs(i) {
                    Contention {
                        cores: self.cores.update(k, Core { masked: context.saved, ..core }),
                        contexts: self.contexts.update(i, Context { phase: Phase::Idle, ..context }),
                        ..self
                    }
                } else {
                    self
                },
                _ => self,
            }
        }
    }

    /// The state after the steps of `trace`, one after the other.
    pub open spec fn run(self, trace: Seq<Step>) -> Contention
        decreases trace.len(),
    {
        if trace.len() == 0 {
            self
        } else {
            self.run(trace.drop_last()).next(trace.last())
        }
    }

    /// At most one context holds the lock.
    pub open spec fn exclusive(self) -> bool {
        forall|i: int, j: int| self.holds(i) && self.holds(j) ==> i == j
    }

    /// Whoever is not idle runs on its core, with the interrupts of the core
    /// masked: no interrupt handler can have come in on top of it.
    pub open spec fn undisturbed(self) -> bool {
        forall|i: int|
            self.known(i) && !(#[trigger] self.contexts[i].phase is Idle) ==> self.runs(i)
                && self.cores[self.contexts[i].core].masked
    }

    /// No ticket is lost and none is given twice: the counter stands at the
    /// number of tickets taken, and the tickets are 0, 1, 2 and so on in the
    /// order in which they were taken.
    pub open spec fn counted(self) -> bool {
        &&& self.value == self.tickets.len()
        &&& forall|t: int| 0 <= t < self.tickets.len() ==> (#[trigger] self.tickets[t]).1 == t
    }

    /// Only a context that holds the lock is in the middle of taking a
    /// ticket, and what it has read is what the counter stands at.
    pub open spec fn unraced(self) -> bool {
        forall|i: int|
            self.known(i) && (#[trigger] self.contexts[i].read) is Some ==> self.holds(i)
                && self.contexts[i].read == Some(self.value)
    }

    /// What every step keeps: at most one context holds the lock, the flag is
    /// set while one does, whoever is not idle is undisturbed, and the
    /// tickets are counted without a race.
    pub open spec fn inv(self) -> bool {
        &&& self.exclusive()
        &&& forall|i: int| self.holds(i) ==> self.flag
        &&& self.undisturbed()
        &&& self.counted()
        &&& self.unraced()
    }
}

/// A step keeps the invariant.
pub proof fn lemma_next_keeps_inv(state: Contention, step: Step)
    requires
        state.inv(),
    ensures
        state.next(step).inv(),
{
    let after = state.next(step);
    let k = step.context();
    assert(after.contexts.len() == state.contexts.len());
    assert(after.cores.len() == state.cores.len());
    assert forall|i: int| #![auto] 0 <= i < state.contexts.len() implies after.contexts[i].core
        == state.contexts[i].core by {}
    assert forall|j: int| 0 <= j < state.contexts.len() && j != k implies #[trigger] after.contexts[j]
        == state.contexts[j] by {}
    if state.known(k) && !(state.contexts[k].phase is Holding) && after.contexts[k].phase is Holding {
        // Only a swap that took place makes a holder, and it takes place on
        // a clear flag alone.
        assert(!state.flag);
    }
    assert forall|i: int, j: int| after.holds(i) && after.holds(j) implies i == j by {
        if i != k {
            assert(state.holds(i));
            assert(state.flag);
        }
        if j != k {
            assert(state.holds(j));
            assert(state.flag);
        }
        if i == k && j != k {
            assert(state.holds(k));
        }
        if j == k && i != k {
            assert(state.holds(k));
        }
    }
    assert forall|i: int| after.holds(i) implies after.flag by {
        if i != k {
            assert(state.holds(i));
        }
        if state.holds(k) {
            assert(state.flag);
        }
    }
    assert forall|i: int|
        after.known(i) && (#[trigger] after.contexts[i].read) is Some implies after.holds(i)
            && after.contexts[i].read == Some(after.value) by {
        if i != k {
            assert(state.known(i) && state.contexts[i].read is Some);
            assert(state.holds(i));
            if state.holds(k) {
                assert(i == k);
            }
        } else {
            assert(state.known(k));
        }
    }
    assert forall|i: int|
        after.known(i) && !(#[trigger] after.contexts[i].phase is Idle) implies after.runs(i)
            && after.cores[after.contexts[i].core].masked by {
        if i != k {
            assert(state.known(i) && !(state.contexts[i].phase is Idle));
            assert(state.runs(i));
            if state.known(k) && state.contexts[k].core == state.contexts[i].core {
                // Context `i` runs on the core of `k`, masked: `k` neither
                // runs there nor can it come in.
                assert(!state.runs(k));
                assert(after == state);
            }
        } else {
            assert(state.known(k));
        }
    }
}

/// Mutual exclusion: from idle contexts around a clear flag, whatever steps
/// the contexts take and in whatever order, no two of them hold the lock at a
/// time. Whoever holds the lock, or is about to, runs on its core with the
/// interrupts masked, so that no interrupt handler of that core stands in its
/// way, and it can take its next step.
pub proof fn lemma_mutual_exclusion(masked: Seq<bool>, homes: Seq<int>, trace: Seq<Step>)
    ensures
        Contention::start(masked, homes).run(trace).inv(),
        Contention::start(masked, homes).run(trace).exclusive(),
        Contention::start(masked, homes).run(trace).undisturbed(),
    decreases trace.len(),
{
    if trace.len() > 0 {
        lemma_mutual_exclusion(masked, homes, trace.drop_last());
        lemma_next_keeps_inv(Contention::start(masked, homes).run(trace.drop_last()), trace.last());
    }
}

/// No update is lost: whatever steps the contexts take and in whatever
/// order, the counter stands at the number of tickets taken, and the tickets
/// are 0, 1, 2 and so on, each given once. Once `n` contexts have taken one
/// ticket each, the counter stands at `n` and their tickets are 0 to `n - 1`.
pub proof fn lemma_no_lost_update(masked: Seq<bool>, homes: Seq<int>, trace: Seq<Step>)
    ensures
        Contention::start(masked, homes).run(trace).counted(),
        forall|a: int, b: int|
            0 <= a < b < Contention::start(masked, homes).run(trace).tickets.len() ==> (
            #[trigger] Contention::start(masked, homes).run(trace).tickets[a]).1 != (
            #[trigger] Contention::start(masked, homes).run(trace).tickets[b]).1,
{
    lemma_mutual_exclusion(masked, homes, trace);
}

/// Whoever holds the lock and is not in the middle of taking a ticket can
/// give it back: its step of clearing the flag is never held up, whatever the
/// other contexts have done.
pub proof fn lemma_holder_can_release(masked: Seq<bool>, homes: Seq<int>, trace: Seq<Step>, i: int)
    requires
        Contention::start(masked, homes).run(trace).holds(i),
        Contention::start(masked, homes).run(trace).contexts[i].read is None,
    ensures
        !Contention::start(masked, homes).run(trace).next(Step::Clear(i)).flag,
        Contention::start(masked, homes).run(trace).next(Step::Clear(i)).contexts[i].phase is Leaving,
{
    lemma_mutual_exclusion(masked, homes, trace);
}

/// From taking the lock to giving it back, a context keeps what the
/// interrupts of its core were, and giving the lock back restores them.
pub proof fn lemma_restore_brings_back(state: Contention, step: Step, i: int)
    requires
        state.inv(),
        state.known(i),
        !(state.contexts[i].phase is Idle),
    ensures
        state.next(step).known(i),
        state.next(step).contexts[i].saved == state.contexts[i].saved,
        state.next(step).contexts[i].phase is Idle ==> state.next(step).cores[state.contexts[i].core].masked
            == state.contexts[i].saved,
{
    let k = step.context();
    if k != i && state.known(k) && state.contexts[k].core == state.contexts[i].core {
        assert(state.runs(i));
        assert(!state.runs(k));
    }
}

} // verus!
