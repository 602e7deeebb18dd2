//! The 64-bit Arm backend.

use vstd::prelude::*;

use crate::arch::ArchImpl;

pub mod boot;
pub mod cpu;
pub mod mem;

pub use cpu::Cpu;

verus! {

/// The 64-bit Arm architecture.
pub struct Impl;

impl ArchImpl for Impl {
    type Cpu = Cpu;

    type BootInfo = boot::BootInfo;

    type MemoryMapper = mem::MemoryMapper;

    type FrameAllocator = mem::FrameAllocator;

    /// Succeeds on every boot description.
    fn init_memory(boot_info: &boot::BootInfo) -> (r: Result<
        (mem::MemoryMapper, mem::FrameAllocator),
        &'static str,
    >)
        ensures
            r is Ok,
    {
        let frame_allocator = mem::FrameAllocator::new(boot_info)?;
        let memory_mapper = mem::MemoryMapper::new(&frame_allocator)?;
        Ok((memory_mapper, frame_allocator))
    }
}

} // verus!
