//! A cell that is written at most once.

use vstd::prelude::*;

use crate::cpu::CpuOps;
use crate::sync::spin_lock::{reached, released, taken, LockEvent, SpinLock};

verus! {

/// A value that is set at most once, behind a [`SpinLock`]. Once it is set it
/// is never changed and never taken out again, so a reference to it stays
/// good after the lock is given back. No call hands the value out for
/// changing it.
pub struct OnceLock<T, Cpu: CpuOps> {
    inner: SpinLock<Option<T>, Cpu>,
}

/// What looking at a cell that holds `before` does: it shows what the cell
/// holds and leaves the cell as it is.
pub open spec fn observed<T>(before: Option<T>, shown: Option<T>, after: Option<T>) -> bool {
    shown == before && after == before
}

/// What asking a cell that holds `before` for its value does: the cell holds
/// `result` afterwards, and `result` is what the cell held if it held
/// anything.
pub open spec fn initialised<T>(before: Option<T>, result: T, after: Option<T>) -> bool {
    &&& after == Some(result)
    &&& before matches Some(value) ==> result == value
}

/// What asking a cell for its value once for each of `results`, in turn,
/// does to a cell that holds `before`.
pub open spec fn initialised_in_turn<T>(before: Option<T>, results: Seq<T>, after: Option<T>) -> bool
    decreases results.len(),
{
    if results.len() == 0 {
        after == before
    } else {
        exists|mid: Option<T>|
            initialised_in_turn(before, results.drop_last(), mid) && #[trigger] initialised(
                mid,
                results.last(),
                after,
            )
    }
}

/// A cell that was never asked for its value shows nothing, and looking at it
/// again shows nothing again.
pub proof fn lemma_get_before_init<T>(shown: Option<T>, after: Option<T>)
    requires
        observed(None::<T>, shown, after),
    ensures
        shown is None,
        after is None,
{
}

/// Once a cell was asked for its value, every look at it shows that value,
/// and the cell keeps it.
pub proof fn lemma_get_after_init<T>(
    before: Option<T>,
    result: T,
    set: Option<T>,
    looks: Seq<Option<T>>,
    states: Seq<Option<T>>,
)
    requires
        initialised(before, result, set),
        states.len() == looks.len() + 1,
        states[0] == set,
        forall|i: int| 0 <= i < looks.len() ==> observed(states[i], #[trigger] looks[i], states[i + 1]),
    ensures
        forall|i: int| 0 <= i < looks.len() ==> #[trigger] looks[i] == Some(result),
        forall|i: int| 0 <= i < states.len() ==> #[trigger] states[i] == Some(result),
{
    assert forall|i: int| 0 <= i < states.len() implies #[trigger] states[i] == Some(result) by {
        lemma_looks_keep(set, looks, states, i);
    }
    assert forall|i: int| 0 <= i < looks.len() implies #[trigger] looks[i] == Some(result) by {
        lemma_looks_keep(set, looks, states, i);
        assert(observed(states[i], looks[i], states[i + 1]));
    }
}

proof fn lemma_looks_keep<T>(set: Option<T>, looks: Seq<Option<T>>, states: Seq<Option<T>>, i: int)
    requires
        states.len() == looks.len() + 1,
        states[0] == set,
        forall|k: int| 0 <= k < looks.len() ==> observed(states[k], #[trigger] looks[k], states[k + 1]),
        0 <= i < states.len(),
    ensures
        states[i] == set,
    decreases i,
{
    if i > 0 {
        lemma_looks_keep(set, looks, states, i - 1);
        assert(observed(states[i - 1], looks[i - 1], states[i]));
    }
}

/// One call on a cell: a look at it and what it showed, or a request for its
/// value and what was returned.
pub enum Call<T> {
    Get(Option<T>),
    GetOrInit(T),
}

/// What `call` does to a cell that holds `before`.
pub open spec fn called<T>(before: Option<T>, call: Call<T>, after: Option<T>) -> bool {
    match call {
        Call::Get(shown) => observed(before, shown, after),
        Call::GetOrInit(result) => initialised(before, result, after),
    }
}

/// The value of a cell is written once: whatever the calls on a cell and
/// their order, once the cell holds a value it holds that value after every
/// later call, and every later call shows or returns that value.
pub proof fn lemma_write_once<T>(calls: Seq<Call<T>>, states: Seq<Option<T>>, from: int, to: int)
    requires
        states.len() == calls.len() + 1,
        forall|i: int| 0 <= i < calls.len() ==> called(states[i], #[trigger] calls[i], states[i + 1]),
        0 <= from <= to < states.len(),
        states[from] is Some,
    ensures
        states[to] == states[from],
        from < to ==> match calls[to - 1] {
            Call::Get(shown) => shown == states[from],
            Call::GetOrInit(result) => Some(result) == states[from],
        },
    decreases to - from,
{
    if from < to {
        lemma_write_once(calls, states, from, to - 1);
        assert(called(states[to - 1], calls[to - 1], states[to]));
    }
}

/// However often a cell that begins empty is asked for its value, every
/// answer is the first answer, and that is what the cell holds in the end:
/// of all the initialisers only the first has set the cell.
pub proof fn lemma_initialised_once<T>(results: Seq<T>, after: Option<T>)
    requires
        results.len() > 0,
        initialised_in_turn(None::<T>, results, after),
    ensures
        after == Some(results[0]),
        forall|i: int| 0 <= i < results.len() ==> #[trigger] results[i] == results[0],
    decreases results.len(),
{
    let earlier = results.drop_last();
    let mid = choose|mid: Option<T>|
        initialised_in_turn(None::<T>, earlier, mid) && #[trigger] initialised(
            mid,
            results.last(),
            after,
        );
    if earlier.len() > 0 {
        lemma_initialised_once(earlier, mid);
        assert(earlier[0] == results[0]);
        assert forall|i: int| 0 <= i < results.len() implies #[trigger] results[i] == results[0] by {
            if i < earlier.len() {
                assert(earlier[i] == results[i]);
            }
        }
    }
}

impl<T, Cpu: CpuOps> OnceLock<T, Cpu> {
    /// Whether the cell is at rest: its lock is free, as it is between any
    /// two calls.
    pub closed spec fn wf(&self) -> bool {
        !self.inner.is_locked()
    }

    /// The value, if the cell is set.
    pub closed spec fn value(&self) -> Option<T> {
        self.inner.value()
    }

    /// What was done to the lock of the cell so far.
    pub closed spec fn history(&self) -> Seq<LockEvent> {
        self.inner.history()
    }

    /// A cell that is not set.
    pub fn new() -> (r: Self)
        ensures
            r.wf(),
            r.value() is None,
            r.history() == Seq::<LockEvent>::empty(),
    {
        OnceLock { inner: SpinLock::new(None) }
    }

    /// The value, if the cell is set. The lock is taken, with interrupts
    /// masked, and given back around the look at the cell.
    pub fn get(&mut self, cpu: &mut Cpu) -> (r: Option<&T>)
        requires
            old(self).wf(),
        ensures
            final(self).wf(),
            r == match old(self).value() {
                Some(value) => Some(&value),
                None => None,
            },
            observed(
                old(self).value(),
                match r {
                    Some(value) => Some(*value),
                    None => None,
                },
                final(self).value(),
            ),
            final(cpu).interrupt_state() == old(cpu).interrupt_state(),
            final(self).history() == old(self).history() + seq![taken(), released()],
    {
        let guard = self.inner.lock(cpu);
        let present = guard.is_some();
        guard.unlock(cpu);
        assert(self.history() =~= old(self).history() + seq![taken(), released()]);
        if present {
            self.inner.peek().as_ref()
        } else {
            None
        }
    }

    /// The value; if the cell is not set, it is first set to what `init`
    /// returns. `init` runs only then. The cell is looked at and, where it is
    /// empty, written under the lock, which is taken with interrupts masked.
    pub fn get_or_init<F>(&mut self, cpu: &mut Cpu, init: F) -> (r: &T) where F: FnOnce() -> T
        requires
            old(self).wf(),
            old(self).value() is None ==> call_requires(init, ()),
        ensures
            final(self).wf(),
            initialised(old(self).value(), *r, final(self).value()),
            old(self).value() is None ==> call_ensures(init, (), *r),
            final(cpu).interrupt_state() == old(cpu).interrupt_state(),
            final(self).history() == old(self).history() + if old(self).value() is None {
                seq![taken(), reached(), released()]
            } else {
                seq![taken(), released()]
            },
    {
        let mut guard = self.inner.lock(cpu);
        if guard.is_none() {
            let slot = guard.deref_mut();
            *slot = Some(init());
        }
        guard.unlock(cpu);
        assert(self.history() =~= old(self).history() + if old(self).value() is None {
            seq![taken(), reached(), released()]
        } else {
            seq![taken(), released()]
        });
        match self.inner.peek() {
            Some(value) => value,
            None => vstd::pervasive::unreached(),
        }
    }
}

} // verus!
