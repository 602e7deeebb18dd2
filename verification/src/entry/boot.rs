//! The description of the machine at boot.

use vstd::prelude::*;
use vstd::string::StringExecFns;

use crate::arch::aarch64::boot::{well_formed_map, BootInfo};
use crate::arch::aarch64::mem::{MemoryRegion, MemoryRegionType};
use crate::console::Console;
use crate::kernel::{lemma_printed_join, lemma_printed_nothing, printed, KernelCell};
use crate::print::{dbg_line, klog};
use crate::text::{hexadecimal, push_hexadecimal};

verus! {

/// A device tree blob, known by the physical address it lies at.
#[derive(Debug)]
pub struct Dtb {
    base: u64,
}

impl Dtb {
    /// The address that the blob lies at.
    pub closed spec fn spec_base(&self) -> u64 {
        self.base
    }

    #[verifier::when_used_as_spec(spec_base)]
    pub fn base(&self) -> (r: u64)
        ensures
            r == self.spec_base(),
    {
        self.base
    }

    /// The blob at `addr`.
    pub fn from_phys_addr(addr: u64) -> (r: Option<Self>)
        ensures
            r matches Some(dtb) && dtb.spec_base() == addr,
    {
        Some(Dtb { base: addr })
    }
}

/// The memory map of the machine: its RAM, the part that the firmware keeps,
/// and the device registers.
pub open spec fn machine_memory_map() -> Seq<MemoryRegion> {
    seq![
        MemoryRegion { start: 0x0000_0000, size: 0x3B00_0000, kind: MemoryRegionType::Usable },
        MemoryRegion { start: 0x3B00_0000, size: 0x0500_0000, kind: MemoryRegionType::Firmware },
        MemoryRegion { start: 0xFE00_0000, size: 0x0200_0000, kind: MemoryRegionType::Mmio },
    ]
}

/// The memory map of the machine. The blob is not read yet: the map is the
/// same for every blob.
pub fn parse_memory_map(_dtb: &Dtb) -> (regions: Vec<MemoryRegion>)
    ensures
        regions@ == machine_memory_map(),
        well_formed_map(regions@),
{
    let mut regions: Vec<MemoryRegion> = Vec::new();
    // RAM
    regions.push(
        MemoryRegion { start: 0x0000_0000, size: 0x3B00_0000, kind: MemoryRegionType::Usable },
    );
    // Firmware reserved
    regions.push(
        MemoryRegion { start: 0x3B00_0000, size: 0x0500_0000, kind: MemoryRegionType::Firmware },
    );
    // MMIO
    regions.push(
        MemoryRegion { start: 0xFE00_0000, size: 0x0200_0000, kind: MemoryRegionType::Mmio },
    );
    assert(regions@ =~= machine_memory_map());
    proof {
        lemma_machine_memory_map();
    }
    regions
}

/// The memory map of the machine is one that may be handed to the kernel.
pub proof fn lemma_machine_memory_map()
    ensures
        well_formed_map(machine_memory_map()),
{
    let map = machine_memory_map();
    assert forall|i: int, j: int| 0 <= i < j < map.len() implies !(#[trigger] map[i]).spec_overlaps(
        #[trigger] map[j],
    ) by {
        assert forall|address: int| !(#[trigger] map[i].spec_contains(address)
            && map[j].spec_contains(address)) by {}
    }
}

/// The lines that describing the machine writes.
pub open spec fn boot_lines(dtb_phys: u64, kernel_range: (u64, u64)) -> Seq<Seq<char>> {
    seq![
        dbg_line("DTB physical address: "@ + hexadecimal(dtb_phys as nat)),
        dbg_line(
            "Kernel physical range: "@ + hexadecimal(kernel_range.0 as nat) + " - "@ + hexadecimal(
                kernel_range.1 as nat,
            ),
        ),
    ]
}

/// Describes the machine: its memory map, and `kernel_range` as the place of
/// the kernel. `dtb_phys` is the address that the boot code found the device
/// tree blob at; it must have found one.
pub fn boot_info<C: Console>(cell: &mut KernelCell<C>, dtb_phys: u64, kernel_range: (u64, u64)) -> (r:
    BootInfo)
    requires
        dtb_phys != 0,
    ensures
        r.memory_map@ == machine_memory_map(),
        r.kernel_phys_start == kernel_range.0,
        r.kernel_phys_end == kernel_range.1,
        r.spec_well_formed(),
        printed(old(cell).state(), boot_lines(dtb_phys, kernel_range), final(cell).state()),
{
    let ghost start = cell.state();
    let ghost none = Seq::<Seq<char>>::empty();
    let mut found = String::from_str("DTB physical address: ");
    push_hexadecimal(&mut found, dtb_phys);
    klog(cell, found.as_str());
    let ghost told = cell.state();
    let dtb = match Dtb::from_phys_addr(dtb_phys) {
        Some(dtb) => dtb,
        None => vstd::pervasive::unreached(),
    };
    let memory_map = parse_memory_map(&dtb);
    let mut range = String::from_str("Kernel physical range: ");
    push_hexadecimal(&mut range, kernel_range.0);
    range.append(" - ");
    push_hexadecimal(&mut range, kernel_range.1);
    klog(cell, range.as_str());
    proof {
        let lines = boot_lines(dtb_phys, kernel_range);
        lemma_printed_nothing(start);
        lemma_printed_join(start, none, start, lines[0], told);
        lemma_printed_join(start, none.push(lines[0]), told, lines[1], cell.state());
        assert(none.push(lines[0]).push(lines[1]) =~= lines);
    }
    BootInfo { memory_map, kernel_phys_start: kernel_range.0, kernel_phys_end: kernel_range.1 }
}

} // verus!
