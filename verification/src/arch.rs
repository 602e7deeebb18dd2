//! The contract between the kernel core and the architecture it is built for.

use vstd::prelude::*;

use crate::boot::BootInfo as BootDescription;
use crate::mem::{FrameAllocator, MemoryMapper};

pub mod aarch64;

pub use crate::cpu::CpuOps;
pub use aarch64::boot::BootInfo;
pub use aarch64::Impl;

verus! {

/// The core type of the architecture that the kernel is built for.
pub type Cpu = aarch64::Cpu;

/// The architecture that the kernel is built for.
pub fn current<'a>() -> (r: &'a Impl)
    ensures
        *r == Impl,
{
    &Impl
}

/// One architecture: its core, its description of the machine at boot, its
/// memory backends, and how it brings memory up.
pub trait ArchImpl {
    type Cpu: CpuOps;

    type BootInfo: BootDescription;

    type MemoryMapper: MemoryMapper;

    type FrameAllocator: FrameAllocator;

    /// Builds a frame allocator from the memory map of `boot_info` and a
    /// mapper on top of it, or says why it could not.
    fn init_memory(boot_info: &Self::BootInfo) -> (r: Result<
        (Self::MemoryMapper, Self::FrameAllocator),
        &'static str,
    >)
    ;
}

} // verus!
