//! Interrupt masking on a 64-bit Arm core: the `DAIF` mask register.

use vstd::prelude::*;

use crate::cpu::CpuOps;

verus! {

/// The four mask bits of `DAIF`: debug, SError, IRQ and FIQ.
pub const DAIF_BITS: u64 = 0x3c0;

/// The mask bit of `DAIF` that holds back IRQs.
pub const DAIF_IRQ: u64 = 0x80;

/// A core, as far as interrupt masking goes: the contents of its `DAIF`
/// register. Only the four mask bits can be set.
pub struct Cpu {
    daif: u64,
}

impl Cpu {
    #[verifier::type_invariant]
    spec fn mask_bits_only(self) -> bool {
        self.daif & !DAIF_BITS == 0
    }

    /// The contents of `DAIF`.
    pub closed spec fn spec_daif(&self) -> u64 {
        self.daif
    }

    /// A core whose `DAIF` holds the mask bits of `daif`.
    pub fn new(daif: u64) -> (r: Cpu)
        ensures
            r.spec_daif() == daif & DAIF_BITS,
    {
        assert((daif & DAIF_BITS) & !DAIF_BITS == 0) by (bit_vector);
        Cpu { daif: daif & DAIF_BITS }
    }

    #[verifier::when_used_as_spec(spec_daif)]
    pub fn daif(&self) -> (r: u64)
        ensures
            r == self.spec_daif(),
            r & !DAIF_BITS == 0,
    {
        proof {
            use_type_invariant(self);
        }
        self.daif
    }
}

impl CpuOps for Cpu {
    type InterruptState = u64;

    open spec fn interrupt_state(&self) -> u64 {
        self.spec_daif()
    }

    open spec fn representable(state: u64) -> bool {
        state & !DAIF_BITS == 0
    }

    open spec fn masked(state: u64) -> bool {
        state & DAIF_IRQ == DAIF_IRQ
    }

    /// Reads `DAIF`, then sets its IRQ mask bit.
    fn disable_interrupts(&mut self) -> (token: u64)
        ensures
            final(self).spec_daif() == old(self).spec_daif() | DAIF_IRQ,
    {
        proof {
            use_type_invariant(&*self);
        }
        let flags: u64 = self.daif;
        assert(flags & !DAIF_BITS == 0 ==> (flags | DAIF_IRQ) & !DAIF_BITS == 0) by (bit_vector);
        assert((flags | DAIF_IRQ) & DAIF_IRQ == DAIF_IRQ) by (bit_vector);
        self.daif = flags | DAIF_IRQ;
        flags
    }

    /// Writes the mask bits of `state` to `DAIF`.
    fn enable_interrupts(&mut self, state: u64)
        ensures
            final(self).spec_daif() == state & DAIF_BITS,
    {
        assert((state & DAIF_BITS) & !DAIF_BITS == 0) by (bit_vector);
        assert(state & !DAIF_BITS == 0 ==> state & DAIF_BITS == state) by (bit_vector);
        self.daif = state & DAIF_BITS;
    }
}

} // verus!
