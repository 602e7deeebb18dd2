//! Physical memory of a 64-bit Arm machine.

use vstd::prelude::*;

use crate::arch::aarch64::boot::BootInfo;
use crate::mem::{MapFlags, PhysicalFrame, VirtualAddress};
use crate::text::{decimal, pad, push_decimal, push_pad};
use vstd::string::StringExecFns;

verus! {

/// What a region of physical memory is there for.
#[derive(Debug, Copy, Clone, PartialEq, Eq, Structural)]
pub enum MemoryRegionType {
    Usable,
    Reserved,
    Mmio,
    Firmware,
}

impl MemoryRegionType {
    /// The name of the kind, as it is written in a dump.
    pub open spec fn spec_name(self) -> Seq<char> {
        match self {
            MemoryRegionType::Usable => "Usable"@,
            MemoryRegionType::Reserved => "Reserved"@,
            MemoryRegionType::Mmio => "Mmio"@,
            MemoryRegionType::Firmware => "Firmware"@,
        }
    }

    pub fn name(self) -> (r: &'static str)
        ensures
            r@ == self.spec_name(),
    {
        match self {
            MemoryRegionType::Usable => "Usable",
            MemoryRegionType::Reserved => "Reserved",
            MemoryRegionType::Mmio => "Mmio",
            MemoryRegionType::Firmware => "Firmware",
        }
    }
}

/// `size` bytes of physical memory from `start` on, all of one kind.
#[derive(Debug, Copy, Clone)]
pub struct MemoryRegion {
    pub start: u64,
    pub size: u64,
    pub kind: MemoryRegionType,
}

impl MemoryRegion {
    /// The first address behind the region.
    pub open spec fn spec_end(self) -> int {
        self.start + self.size
    }

    /// Whether the region ends within the 64-bit address range.
    pub open spec fn spec_fits(&self) -> bool {
        self.spec_end() <= u64::MAX
    }

    /// Whether `address` lies in the region.
    pub open spec fn spec_contains(self, address: int) -> bool {
        self.start <= address < self.spec_end()
    }

    /// Whether the two regions have an address in common.
    pub open spec fn spec_overlaps(self, other: MemoryRegion) -> bool {
        exists|address: int| #[trigger] self.spec_contains(address) && other.spec_contains(address)
    }

    /// The first address behind the region, where it is a 64-bit address.
    pub fn end(&self) -> (r: Option<u64>)
        ensures
            r is Some <==> self.spec_fits(),
            r matches Some(end) ==> end == self.spec_end(),
    {
        self.start.checked_add(self.size)
    }

    #[verifier::when_used_as_spec(spec_fits)]
    pub fn fits(&self) -> (r: bool)
        ensures
            r == self.spec_fits(),
    {
        self.size <= u64::MAX - self.start
    }

    pub fn overlaps(&self, other: &MemoryRegion) -> (r: bool)
        requires
            self.spec_fits(),
            other.spec_fits(),
        ensures
            r == self.spec_overlaps(*other),
    {
        let r = self.size > 0 && other.size > 0 && self.start < other.start + other.size
            && other.start < self.start + self.size;
        proof {
            if r {
                let address: int = if self.start >= other.start {
                    self.start as int
                } else {
                    other.start as int
                };
                assert(self.spec_contains(address) && other.spec_contains(address));
            }
        }
        r
    }

    /// The region as it is written in a dump, `depth` levels deep.
    pub open spec fn spec_debug(self, depth: nat) -> Seq<char> {
        "MemoryRegion {\n"@ + pad(depth + 1) + "start: "@ + decimal(self.start as nat) + ",\n"@
            + pad(depth + 1) + "size: "@ + decimal(self.size as nat) + ",\n"@ + pad(depth + 1)
            + "kind: "@ + self.kind.spec_name() + ",\n"@ + pad(depth) + "}"@
    }

    /// The region as it is written in a dump, `depth` levels deep.
    pub fn debug_text(&self, depth: usize) -> (r: String)
        requires
            depth < usize::MAX,
        ensures
            r@ == self.spec_debug(depth as nat),
    {
        let mut text = String::from_str("MemoryRegion {\n");
        push_pad(&mut text, depth + 1);
        text.append("start: ");
        push_decimal(&mut text, self.start);
        text.append(",\n");
        push_pad(&mut text, depth + 1);
        text.append("size: ");
        push_decimal(&mut text, self.size);
        text.append(",\n");
        push_pad(&mut text, depth + 1);
        text.append("kind: ");
        text.append(self.kind.name());
        text.append(",\n");
        push_pad(&mut text, depth);
        text.append("}");
        text
    }
}

/// The entries of a list of regions as they are written in a dump, each on
/// lines of its own, `depth` levels deep.
pub open spec fn spec_debug_entries(regions: Seq<MemoryRegion>, depth: nat) -> Seq<char>
    decreases regions.len(),
{
    if regions.len() == 0 {
        Seq::<char>::empty()
    } else {
        spec_debug_entries(regions.drop_last(), depth) + pad(depth) + regions.last().spec_debug(
            depth,
        ) + ",\n"@
    }
}

/// A list of regions as it is written in a dump, `depth` levels deep.
pub open spec fn spec_debug_regions(regions: Seq<MemoryRegion>, depth: nat) -> Seq<char> {
    if regions.len() == 0 {
        "[]"@
    } else {
        "[\n"@ + spec_debug_entries(regions, depth + 1) + pad(depth) + "]"@
    }
}

/// A list of regions as it is written in a dump, `depth` levels deep.
pub fn debug_regions_text(regions: &Vec<MemoryRegion>, depth: usize) -> (r: String)
    requires
        depth + 1 < usize::MAX,
    ensures
        r@ == spec_debug_regions(regions@, depth as nat),
{
    if regions.len() == 0 {
        return String::from_str("[]");
    }
    let mut text = String::from_str("[\n");
    let mut i: usize = 0;
    assert(regions@.subrange(0, 0) =~= Seq::<MemoryRegion>::empty());
    assert(text@ =~= "[\n"@ + spec_debug_entries(regions@.subrange(0, 0), (depth + 1) as nat));
    while i < regions.len()
        invariant
            i <= regions.len(),
            depth + 1 < usize::MAX,
            text@ == "[\n"@ + spec_debug_entries(regions@.subrange(0, i as int), (depth + 1) as nat),
        decreases regions.len() - i,
    {
        push_pad(&mut text, depth + 1);
        let entry = regions[i].debug_text(depth + 1);
        text.append(entry.as_str());
        text.append(",\n");
        proof {
            let taken = regions@.subrange(0, i + 1);
            assert(taken.drop_last() =~= regions@.subrange(0, i as int));
            assert(taken.last() == regions@[i as int]);
            assert(text@ =~= "[\n"@ + spec_debug_entries(taken, (depth + 1) as nat));
        }
        i += 1;
    }
    assert(regions@.subrange(0, i as int) =~= regions@);
    push_pad(&mut text, depth);
    text.append("]");
    text
}

/// The mapper of this backend. It maps nothing yet: it is never operational.
pub struct MemoryMapper;

impl MemoryMapper {
    pub fn new(_frame_allocator: &FrameAllocator) -> (r: Result<Self, &'static str>)
        ensures
            r is Ok,
    {
        Ok(MemoryMapper)
    }
}

impl crate::mem::MemoryMapper for MemoryMapper {
    type AddressSpace = ();

    open spec fn operational(&self) -> bool {
        false
    }

    open spec fn page_size() -> u64 {
        0x1000
    }

    open spec fn mappings(space: &()) -> Map<u64, (PhysicalFrame, MapFlags)> {
        Map::empty()
    }

    open spec fn active(&self) -> Option<Map<u64, (PhysicalFrame, MapFlags)>> {
        None
    }

    fn new_address_space(&mut self) -> (r: Result<(), &'static str>) {
        Err("no address space can be created")
    }

    fn map_page(
        &mut self,
        _space: &mut (),
        _virtual_address: VirtualAddress,
        _physical_frame: PhysicalFrame,
        _flags: MapFlags,
    ) -> (r: Result<(), &'static str>) {
        Err("no page can be mapped")
    }

    fn unmap_page(&mut self, _space: &mut (), _virt: VirtualAddress) -> (r: Result<
        PhysicalFrame,
        &'static str,
    >) {
        Err("no page is mapped")
    }

    fn activate(&mut self, _space: &()) {
    }
}

/// The frame size of this backend is a power of two.
pub proof fn lemma_frame_size_is_power_of_two()
    ensures
        crate::mem::is_power_of_two(<FrameAllocator as crate::mem::FrameAllocator>::FRAME_SIZE as int),
{
    vstd::arithmetic::power2::lemma2_to64();
    assert(vstd::arithmetic::power2::pow2(12) == 0x1000);
}

/// The frame allocator of this backend. It hands out nothing yet: it is never
/// operational.
pub struct FrameAllocator;

impl FrameAllocator {
    pub fn new(_boot_info: &BootInfo) -> (r: Result<Self, &'static str>)
        ensures
            r is Ok,
    {
        Ok(FrameAllocator)
    }
}

impl crate::mem::FrameAllocator for FrameAllocator {
    const FRAME_SIZE: u64 = 0x1000;

    open spec fn operational(&self) -> bool {
        false
    }

    open spec fn free_frames(&self) -> Set<PhysicalFrame> {
        Set::empty()
    }

    fn alloc_frame(&mut self) -> (r: Option<PhysicalFrame>) {
        None
    }

    fn free_frame(&mut self, _frame: PhysicalFrame) {
    }
}

} // verus!
