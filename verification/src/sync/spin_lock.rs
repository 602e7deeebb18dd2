//! A spin lock that masks interrupts for as long as it is held.

use vstd::prelude::*;

use crate::cpu::{disables, restores, CpuOps};

verus! {

/// One thing that was done to a lock.
pub enum LockEvent {
    /// A swap of the flag to `new` was tried, and `took` place or not, while
    /// the interrupts of the core that tried it were `masked` or not.
    Swap { new: bool, took: bool, masked: bool },
    /// `value` was written to the flag, while the interrupts of the core that
    /// wrote it were `masked` or not.
    Store { value: bool, masked: bool },
    /// The protected value was handed out for changing it, while the flag was
    /// set (`held`) or not.
    Reach { held: bool },
}

/// The lock was taken: the flag went from clear to set, with interrupts
/// masked.
pub open spec fn taken() -> LockEvent {
    LockEvent::Swap { new: true, took: true, masked: true }
}

/// The protected value was handed out under the lock.
pub open spec fn reached() -> LockEvent {
    LockEvent::Reach { held: true }
}

/// The lock was given back: the flag was cleared, with interrupts still
/// masked.
pub open spec fn released() -> LockEvent {
    LockEvent::Store { value: false, masked: true }
}

/// The flag of a lock: set while the lock is held. It is read and written as
/// an atomic flag is, and it keeps the record of what was done to the lock,
/// in the order in which it was done.
pub struct LockFlag {
    set: bool,
    history: Ghost<Seq<LockEvent>>,
}

/// What a compare-and-swap does to a flag that holds `set`: the flag
/// afterwards, and what the swap returns. Where the flag holds `current` it
/// takes `new` and the swap returns `Ok` of the old value; else the flag stays
/// and the swap returns `Err` of it.
pub open spec fn swap_outcome(set: bool, current: bool, new: bool) -> (bool, Result<bool, bool>) {
    if set == current {
        (new, Ok(set))
    } else {
        (set, Err(set))
    }
}

impl LockFlag {
    /// Whether the flag is set.
    pub closed spec fn spec_load(&self) -> bool {
        self.set
    }

    /// What was done to the lock so far.
    pub closed spec fn history(&self) -> Seq<LockEvent> {
        self.history@
    }

    pub fn new(set: bool) -> (r: Self)
        ensures
            r.spec_load() == set,
            r.history() == Seq::<LockEvent>::empty(),
    {
        LockFlag { set, history: Ghost(Seq::empty()) }
    }

    /// Sets the flag to `new` if it holds `current`. `cpu` is the core that
    /// tries the swap.
    pub fn compare_exchange<Cpu: CpuOps>(&mut self, cpu: &Cpu, current: bool, new: bool) -> (r:
        Result<bool, bool>)
        ensures
            (final(self).spec_load(), r) == swap_outcome(old(self).spec_load(), current, new),
            final(self).history() == old(self).history().push(
                LockEvent::Swap { new, took: r is Ok, masked: Cpu::masked(cpu.interrupt_state()) },
            ),
    {
        let held = self.set;
        let r = if held == current {
            self.set = new;
            Ok(held)
        } else {
            Err(held)
        };
        self.history = Ghost(
            self.history@.push(
                LockEvent::Swap { new, took: r is Ok, masked: Cpu::masked(cpu.interrupt_state()) },
            ),
        );
        r
    }

    /// Records that the protected value is handed out for changing it.
    pub(crate) fn reach(&mut self)
        ensures
            final(self).spec_load() == old(self).spec_load(),
            final(self).history() == old(self).history().push(
                LockEvent::Reach { held: old(self).spec_load() },
            ),
    {
        self.history = Ghost(self.history@.push(LockEvent::Reach { held: self.set }));
    }

    #[verifier::when_used_as_spec(spec_load)]
    pub fn load(&self) -> (r: bool)
        ensures
            r == self.spec_load(),
    {
        self.set
    }

    /// Writes `value` to the flag. `cpu` is the core that writes it.
    pub fn store<Cpu: CpuOps>(&mut self, cpu: &Cpu, value: bool)
        ensures
            final(self).spec_load() == value,
            final(self).history() == old(self).history().push(
                LockEvent::Store { value, masked: Cpu::masked(cpu.interrupt_state()) },
            ),
    {
        self.set = value;
        self.history = Ghost(
            self.history@.push(
                LockEvent::Store { value, masked: Cpu::masked(cpu.interrupt_state()) },
            ),
        );
    }
}

/// A value behind a lock flag.
///
/// Taking the lock masks interrupts on the taking core first and sets the flag
/// second; giving it back clears the flag first and restores the masking state
/// second. The value is reached through the guard alone.
pub struct SpinLock<T, Cpu: CpuOps> {
    data: T,
    lock: LockFlag,
    _phantom: core::marker::PhantomData<Cpu>,
}

/// Proof of holding a [`SpinLock`]: it reaches the value and carries the
/// masking state that the core was in before the lock was taken.
///
/// The lock is given back by [`SpinLockGuard::unlock`]. A guard that goes
/// away without it leaves the flag set and the interrupts masked, as
/// [`lemma_guard_gone`] says.
#[must_use]
pub struct SpinLockGuard<'a, T, Cpu: CpuOps> {
    lock: &'a mut SpinLock<T, Cpu>,
    interrupt_state: Cpu::InterruptState,
}

impl<T, Cpu: CpuOps> SpinLock<T, Cpu> {
    /// The protected value.
    pub closed spec fn value(&self) -> T {
        self.data
    }

    /// Whether the lock flag is set.
    pub closed spec fn spec_is_locked(&self) -> bool {
        self.lock.spec_load()
    }

    /// What was done to the lock so far: every try on the flag, every write
    /// to it, and every handing out of the value for a change.
    pub closed spec fn history(&self) -> Seq<LockEvent> {
        self.lock.history()
    }

    /// Reads the lock flag.
    #[verifier::when_used_as_spec(spec_is_locked)]
    pub fn is_locked(&self) -> (r: bool)
        ensures
            r == self.spec_is_locked(),
    {
        self.lock.load()
    }

    pub fn new(data: T) -> (r: Self)
        ensures
            r.value() == data,
            !r.is_locked(),
            r.history() == Seq::<LockEvent>::empty(),
    {
        SpinLock { data, lock: LockFlag::new(false), _phantom: core::marker::PhantomData }
    }

    /// The protected value, read without taking the lock.
    pub(crate) fn peek(&self) -> (r: &T)
        ensures
            *r == self.value(),
    {
        &self.data
    }

    /// The protected value, reached without taking the lock: the exclusive
    /// borrow shows that nobody else can hold it.
    pub fn get_mut(&mut self) -> (r: &mut T)
        ensures
            *r == old(self).value(),
            final(self).value() == *final(r),
            final(self).is_locked() == old(self).is_locked(),
            final(self).history() == old(self).history().push(
                LockEvent::Reach { held: old(self).is_locked() },
            ),
    {
        self.lock.reach();
        &mut self.data
    }

    /// Masks interrupts on `cpu`, then takes the lock: the one swap that is
    /// tried on the flag takes place, and it is tried with interrupts masked.
    ///
    /// The lock must be free: taking it again from the context that holds it
    /// would spin forever. How contexts that find the flag set spin on it is
    /// laid out in [`contention`](crate::sync::contention).
    pub fn lock<'a>(&'a mut self, cpu: &mut Cpu) -> (guard: SpinLockGuard<'a, T, Cpu>)
        requires
            !old(self).is_locked(),
        ensures
            disables(*old(cpu), guard.interrupt_state(), *final(cpu)),
            guard.value() == old(self).value(),
            guard.target().is_locked(),
            guard.target().history() == old(self).history().push(taken()),
            *final(self) == *final(guard.target()),
    {
        let interrupt_state = cpu.disable_interrupts();
        // The flag is clear, so the first swap takes it and there is nothing
        // to spin on.
        let _ = self.lock.compare_exchange(&*cpu, false, true);
        SpinLockGuard { lock: self, interrupt_state }
    }

    /// Runs `f` on the protected value inside one critical section: the lock
    /// is taken with interrupts masked, the value is handed to `f` under the
    /// lock, and the lock is given back with interrupts still masked, which
    /// are restored last.
    pub fn lock_with<R, F>(&mut self, cpu: &mut Cpu, f: F) -> (r: R) where F: FnOnce(&mut T) -> R
        requires
            !old(self).is_locked(),
            forall|place: &mut T| *place == old(self).value() ==> call_requires(f, (place,)),
        ensures
            !final(self).is_locked(),
            exists|place: &mut T|
                {
                    &&& *place == old(self).value()
                    &&& *final(place) == final(self).value()
                    &&& call_ensures(f, (place,), r)
                },
            final(cpu).interrupt_state() == old(cpu).interrupt_state(),
            final(self).history() == old(self).history() + seq![taken(), reached(), released()],
    {
        let mut guard = self.lock(cpu);
        let r = f(guard.deref_mut());
        guard.unlock(cpu);
        assert(self.history() =~= old(self).history() + seq![taken(), reached(), released()]);
        r
    }
}

impl<'a, T, Cpu: CpuOps> core::ops::Deref for SpinLockGuard<'a, T, Cpu> {
    type Target = T;

    fn deref(&self) -> (r: &T)
        ensures
            *r == self.value(),
    {
        &self.lock.data
    }
}

impl<'a, T, Cpu: CpuOps> SpinLockGuard<'a, T, Cpu> {
    /// The protected value as it stands.
    pub closed spec fn value(&self) -> T {
        self.lock.data
    }

    /// The masking state captured when the lock was taken.
    pub closed spec fn interrupt_state(&self) -> Cpu::InterruptState {
        self.interrupt_state
    }

    /// The borrow of the lock that this guard holds.
    pub closed spec fn target(self) -> &'a mut SpinLock<T, Cpu> {
        self.lock
    }

    pub fn deref_mut(&mut self) -> (r: &mut T)
        ensures
            *r == old(self).value(),
            final(self).value() == *final(r),
            final(self).interrupt_state() == old(self).interrupt_state(),
            final(self).target().is_locked() == old(self).target().is_locked(),
            final(self).target().history() == old(self).target().history().push(
                LockEvent::Reach { held: old(self).target().is_locked() },
            ),
            *final(final(self).target()) == *final(old(self).target()),
    {
        self.lock.lock.reach();
        &mut self.lock.data
    }

    /// Gives the lock back: clears the flag, then restores the masking state
    /// captured when the lock was taken. The flag is cleared in the masking
    /// state that `cpu` comes in with.
    pub fn unlock(self, cpu: &mut Cpu)
        ensures
            restores(*old(cpu), self.interrupt_state(), *final(cpu)),
            !final(self.target()).is_locked(),
            final(self.target()).value() == self.value(),
            final(self.target()).history() == self.target().history().push(
                LockEvent::Store {
                    value: false,
                    masked: Cpu::masked(old(cpu).interrupt_state()),
                },
            ),
    {
        self.lock.lock.store(&*cpu, false);
        cpu.enable_interrupts(self.interrupt_state);
    }
}

/// A guard that has gone away leaves the lock as the guard last had it: held,
/// with the value as it stood.
pub proof fn lemma_guard_gone<'a, T, Cpu: CpuOps>(guard: SpinLockGuard<'a, T, Cpu>)
    requires
        has_resolved(guard),
    ensures
        *final(guard.target()) == *guard.target(),
        final(guard.target()).value() == guard.value(),
{
}

} // verus!
