//! Interrupt masking as seen by the kernel core.
//!
//! A core is a value; masking and restoring are transitions of that value, so
//! that contracts can say what each call leaves behind.

use vstd::prelude::*;

verus! {

/// Interrupt masking of one core.
///
/// `InterruptState` is the backend's snapshot of the masking state. A snapshot
/// taken by [`CpuOps::disable_interrupts`] and handed back to
/// [`CpuOps::enable_interrupts`] brings the core back to the state it was
/// taken in.
pub trait CpuOps: Sized {
    type InterruptState: Copy;

    /// The masking state the core is in.
    spec fn interrupt_state(&self) -> Self::InterruptState;

    /// Whether `state` is a masking state that a core can be in.
    spec fn representable(state: Self::InterruptState) -> bool;

    /// Whether interrupts are held back while the core is in `state`.
    spec fn masked(state: Self::InterruptState) -> bool;

    /// Masks interrupts and returns the state the core was in before.
    fn disable_interrupts(&mut self) -> (token: Self::InterruptState)
        ensures
            token == old(self).interrupt_state(),
            Self::representable(token),
            Self::masked(final(self).interrupt_state()),
            Self::representable(final(self).interrupt_state()),
    ;

    /// Puts the core back into `state`.
    fn enable_interrupts(&mut self, state: Self::InterruptState)
        ensures
            Self::representable(final(self).interrupt_state()),
            Self::representable(state) ==> final(self).interrupt_state() == state,
    ;
}

/// The contract of [`CpuOps::disable_interrupts`] as a relation: `token` is
/// the state of `pre`, it is representable, and `post` holds interrupts back.
pub open spec fn disables<C: CpuOps>(pre: C, token: C::InterruptState, post: C) -> bool {
    &&& token == pre.interrupt_state()
    &&& C::representable(token)
    &&& C::masked(post.interrupt_state())
    &&& C::representable(post.interrupt_state())
}

/// The contract of [`CpuOps::enable_interrupts`] as a relation: a
/// representable `state` becomes the state of `post`, whatever `pre` was in.
pub open spec fn restores<C: CpuOps>(pre: C, state: C::InterruptState, post: C) -> bool {
    &&& C::representable(post.interrupt_state())
    &&& C::representable(state) ==> post.interrupt_state() == state
}

/// Masking and then restoring with the returned snapshot leaves the core in
/// the masking state it started in, whatever that state was.
pub proof fn lemma_disable_then_enable_restores<C: CpuOps>(
    start: C,
    token: C::InterruptState,
    held: C,
    end: C,
)
    requires
        disables(start, token, held),
        restores(held, token, end),
    ensures
        end.interrupt_state() == start.interrupt_state(),
{
}

/// Two nested masked sections, left in reverse order, leave the core in the
/// masking state it started in, and the inner section ends masked.
pub proof fn lemma_nested_sections_restore<C: CpuOps>(
    start: C,
    outer: C::InterruptState,
    first: C,
    inner: C::InterruptState,
    second: C,
    third: C,
    end: C,
)
    requires
        disables(start, outer, first),
        disables(first, inner, second),
        restores(second, inner, third),
        restores(third, outer, end),
    ensures
        C::masked(third.interrupt_state()),
        third.interrupt_state() == first.interrupt_state(),
        end.interrupt_state() == start.interrupt_state(),
{
}

} // verus!
