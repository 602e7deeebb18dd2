//! Physical and virtual memory as the kernel core sees it: addresses, frames,
//! mapping permissions, and the contracts of a frame allocator and a mapper.

use vstd::prelude::*;

verus! {

/// An address in physical memory.
#[derive(Copy, Clone, Debug, PartialEq, Eq, Structural)]
pub struct PhysicalAddress(pub u64);

/// An address in a virtual address space.
#[derive(Copy, Clone, Debug)]
pub struct VirtualAddress(pub u64);

/// What a mapping permits and whom it belongs to: a set of the five flags
/// `READ`, `WRITE`, `EXEC`, `USER` and `GLOBAL`, one bit each.
#[derive(Copy, Clone, Debug, PartialEq, Eq, Structural)]
pub struct MapFlags {
    bits: u32,
}

/// The bits that stand for a flag.
pub const MAP_FLAGS_ALL: u32 = 0x1f;

impl MapFlags {
    /// The bit of each flag.
    pub const READ: u32 = 0x01;

    pub const WRITE: u32 = 0x02;

    pub const EXEC: u32 = 0x04;

    pub const USER: u32 = 0x08;

    pub const GLOBAL: u32 = 0x10;

    #[verifier::type_invariant]
    spec fn known_bits_only(self) -> bool {
        self.bits & !MAP_FLAGS_ALL == 0
    }

    /// The set as a bit pattern.
    pub closed spec fn spec_bits(self) -> u32 {
        self.bits
    }

    /// Whether every flag of `other` is in this set.
    pub open spec fn spec_contains(self, other: MapFlags) -> bool {
        self.spec_bits() & other.spec_bits() == other.spec_bits()
    }

    /// The set without a flag.
    pub fn empty() -> (r: MapFlags)
        ensures
            r.spec_bits() == 0,
    {
        assert(0u32 & !MAP_FLAGS_ALL == 0) by (bit_vector);
        MapFlags { bits: 0 }
    }

    /// The set of all five flags.
    pub fn all() -> (r: MapFlags)
        ensures
            r.spec_bits() == MAP_FLAGS_ALL,
    {
        assert(MAP_FLAGS_ALL & !MAP_FLAGS_ALL == 0) by (bit_vector);
        MapFlags { bits: MAP_FLAGS_ALL }
    }

    #[verifier::when_used_as_spec(spec_bits)]
    pub fn bits(self) -> (r: u32)
        ensures
            r == self.spec_bits(),
            r & !MAP_FLAGS_ALL == 0,
    {
        proof {
            use_type_invariant(self);
        }
        self.bits
    }

    /// The set that `bits` stands for, unless a bit of it stands for no flag.
    pub fn from_bits(bits: u32) -> (r: Option<MapFlags>)
        ensures
            match r {
                Some(flags) => flags.spec_bits() == bits,
                None => bits & !MAP_FLAGS_ALL != 0,
            },
            r is Some <==> bits & !MAP_FLAGS_ALL == 0,
    {
        if bits & !MAP_FLAGS_ALL == 0 {
            Some(MapFlags { bits })
        } else {
            None
        }
    }

    /// The set that `bits` stands for, bits that stand for no flag left out.
    pub fn from_bits_truncate(bits: u32) -> (r: MapFlags)
        ensures
            r.spec_bits() == bits & MAP_FLAGS_ALL,
    {
        assert((bits & MAP_FLAGS_ALL) & !MAP_FLAGS_ALL == 0) by (bit_vector);
        MapFlags { bits: bits & MAP_FLAGS_ALL }
    }

    pub fn is_empty(self) -> (r: bool)
        ensures
            r == (self.spec_bits() == 0),
    {
        self.bits == 0
    }

    #[verifier::when_used_as_spec(spec_contains)]
    pub fn contains(self, other: MapFlags) -> (r: bool)
        ensures
            r == self.spec_contains(other),
    {
        self.bits & other.bits == other.bits
    }

    /// The flags that are in this set or in `other`.
    pub fn union(self, other: MapFlags) -> (r: MapFlags)
        ensures
            r.spec_bits() == self.spec_bits() | other.spec_bits(),
            r.spec_contains(self),
            r.spec_contains(other),
    {
        proof {
            use_type_invariant(self);
            use_type_invariant(other);
        }
        let a: u32 = self.bits;
        let b: u32 = other.bits;
        assert(a & !MAP_FLAGS_ALL == 0 && b & !MAP_FLAGS_ALL == 0 ==> (a | b) & !MAP_FLAGS_ALL == 0)
            by (bit_vector);
        assert((a | b) & a == a && (a | b) & b == b) by (bit_vector);
        MapFlags { bits: a | b }
    }
}

/// A frame of physical memory, named by the address of its first byte.
#[derive(Copy, Clone, Debug, PartialEq, Eq, Structural)]
pub struct PhysicalFrame {
    pub addr: PhysicalAddress,
}

/// Whether `n` is a power of two.
pub open spec fn is_power_of_two(n: int) -> bool {
    exists|k: nat| #[trigger] vstd::arithmetic::power2::pow2(k) == n
}

impl PhysicalFrame {
    /// Whether the frame starts on a multiple of `frame_size`.
    pub open spec fn aligned(self, frame_size: u64) -> bool {
        frame_size > 0 && self.addr.0 % frame_size == 0
    }

    #[verifier::when_used_as_spec(aligned)]
    pub fn is_aligned(self, frame_size: u64) -> (r: bool)
        ensures
            r == self.aligned(frame_size),
    {
        frame_size > 0 && self.addr.0 % frame_size == 0
    }
}

/// Hands out and takes back frames of physical memory.
pub trait FrameAllocator: Sized {
    const FRAME_SIZE: u64;

    /// Whether this allocator can serve requests. A backend that is not
    /// operational, or does not say that it is, has no callable method.
    open spec fn operational(&self) -> bool {
        false
    }

    /// The frames that the allocator may still hand out.
    open spec fn free_frames(&self) -> Set<PhysicalFrame> {
        arbitrary()
    }

    /// Hands out one free frame, or nothing when the allocator has none to
    /// give.
    fn alloc_frame(&mut self) -> (r: Option<PhysicalFrame>)
        requires
            old(self).operational(),
        ensures
            final(self).operational(),
            is_power_of_two(Self::FRAME_SIZE as int),
            match r {
                Some(frame) => {
                    &&& old(self).free_frames().contains(frame)
                    &&& frame.aligned(Self::FRAME_SIZE)
                    &&& final(self).free_frames() == old(self).free_frames().remove(frame)
                },
                None => final(self).free_frames() == old(self).free_frames(),
            },
    ;

    /// Takes back a frame that was handed out and is in use nowhere.
    fn free_frame(&mut self, frame: PhysicalFrame)
        requires
            old(self).operational(),
            frame.aligned(Self::FRAME_SIZE),
            !old(self).free_frames().contains(frame),
        ensures
            final(self).operational(),
            final(self).free_frames() == old(self).free_frames().insert(frame),
    ;
}

/// Creates address spaces and maps pages into them.
pub trait MemoryMapper: Sized {
    type AddressSpace;

    /// Whether this mapper can serve requests. A backend that is not
    /// operational, or does not say that it is, has no callable method.
    open spec fn operational(&self) -> bool {
        false
    }

    /// The size of a page; every mapping covers one page.
    open spec fn page_size() -> u64 {
        arbitrary()
    }

    /// What `space` translates: for each mapped page its frame and flags,
    /// keyed by the page's first address.
    open spec fn mappings(space: &Self::AddressSpace) -> Map<u64, (PhysicalFrame, MapFlags)> {
        arbitrary()
    }

    /// The translations that the core goes through, once
    /// [`MemoryMapper::activate`] has installed a space.
    open spec fn active(&self) -> Option<Map<u64, (PhysicalFrame, MapFlags)>> {
        arbitrary()
    }

    /// Creates an address space that maps nothing.
    fn new_address_space(&mut self) -> (r: Result<Self::AddressSpace, &'static str>)
        requires
            old(self).operational(),
        ensures
            final(self).operational(),
            final(self).active() == old(self).active(),
            r matches Ok(space) ==> Self::mappings(&space) == Map::<u64, (PhysicalFrame, MapFlags)>::empty(),
    ;

    /// Maps the page at `virtual_address` to `physical_frame`.
    ///
    /// The page must be aligned and not mapped in `space` yet.
    fn map_page(
        &mut self,
        space: &mut Self::AddressSpace,
        virtual_address: VirtualAddress,
        physical_frame: PhysicalFrame,
        flags: MapFlags,
    ) -> (r: Result<(), &'static str>)
        requires
            old(self).operational(),
            virtual_address.0 % Self::page_size() == 0,
            physical_frame.aligned(Self::page_size()),
            !Self::mappings(old(space)).dom().contains(virtual_address.0),
        ensures
            final(self).operational(),
            final(self).active() == old(self).active(),
            r is Ok ==> Self::mappings(final(space)) == Self::mappings(old(space)).insert(
                virtual_address.0,
                (physical_frame, flags),
            ),
            r is Err ==> Self::mappings(final(space)) == Self::mappings(old(space)),
    ;

    /// Removes the mapping of the page at `virt` and returns its frame.
    fn unmap_page(&mut self, space: &mut Self::AddressSpace, virt: VirtualAddress) -> (r: Result<
        PhysicalFrame,
        &'static str,
    >)
        requires
            old(self).operational(),
        ensures
            final(self).operational(),
            final(self).active() == old(self).active(),
            r matches Ok(frame) ==> {
                &&& Self::mappings(old(space)).dom().contains(virt.0)
                &&& Self::mappings(old(space))[virt.0].0 == frame
                &&& Self::mappings(final(space)) == Self::mappings(old(space)).remove(virt.0)
            },
            r is Err ==> Self::mappings(final(space)) == Self::mappings(old(space)),
    ;

    /// Installs `space` as the one that the core translates through.
    fn activate(&mut self, space: &Self::AddressSpace)
        requires
            old(self).operational(),
        ensures
            final(self).operational(),
            final(self).active() == Some(Self::mappings(space)),
    ;
}

} // verus!
