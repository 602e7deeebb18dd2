//! What the boot code of a 64-bit Arm machine hands to the kernel.

use vstd::prelude::*;
use vstd::string::StringExecFns;

use crate::arch::aarch64::mem::{debug_regions_text, spec_debug_regions, MemoryRegion};
use crate::text::{decimal, pad, push_decimal, push_pad};

verus! {

/// The machine at boot: its physical memory and where the kernel lies in it.
#[derive(Debug)]
pub struct BootInfo {
    /// Physical memory regions
    pub memory_map: Vec<MemoryRegion>,
    /// Kernel physical base
    pub kernel_phys_start: u64,
    pub kernel_phys_end: u64,
}

impl crate::boot::BootInfo for BootInfo {

}

/// Whether each of `regions` ends within the 64-bit address range and no two
/// of them have an address in common.
pub open spec fn well_formed_map(regions: Seq<MemoryRegion>) -> bool {
    &&& forall|i: int| 0 <= i < regions.len() ==> (#[trigger] regions[i]).spec_fits()
    &&& forall|i: int, j: int|
        0 <= i < j < regions.len() ==> !(#[trigger] regions[i]).spec_overlaps(#[trigger] regions[j])
}

impl BootInfo {
    /// Whether the memory map is one that a boot-information producer may
    /// hand out.
    pub open spec fn spec_well_formed(&self) -> bool {
        well_formed_map(self.memory_map@)
    }

    /// Checks the memory map: every region must end within the 64-bit address
    /// range, and no two regions may have an address in common.
    #[verifier::when_used_as_spec(spec_well_formed)]
    pub fn well_formed(&self) -> (r: bool)
        ensures
            r == self.spec_well_formed(),
    {
        let n = self.memory_map.len();
        let mut i: usize = 0;
        while i < n
            invariant
                i <= n,
                n == self.memory_map.len(),
                forall|k: int| 0 <= k < i ==> (#[trigger] self.memory_map@[k]).spec_fits(),
            decreases n - i,
        {
            if !self.memory_map[i].fits() {
                return false;
            }
            i += 1;
        }
        let mut j: usize = 0;
        while j < n
            invariant
                j <= n,
                n == self.memory_map.len(),
                forall|k: int| 0 <= k < n ==> (#[trigger] self.memory_map@[k]).spec_fits(),
                forall|a: int, b: int|
                    0 <= a < b < j ==> !(#[trigger] self.memory_map@[a]).spec_overlaps(
                        #[trigger] self.memory_map@[b],
                    ),
            decreases n - j,
        {
            let mut k: usize = 0;
            while k < j
                invariant
                    k <= j < n,
                    n == self.memory_map.len(),
                    forall|a: int| 0 <= a < n ==> (#[trigger] self.memory_map@[a]).spec_fits(),
                    forall|a: int|
                        0 <= a < k ==> !(#[trigger] self.memory_map@[a]).spec_overlaps(
                            self.memory_map@[j as int],
                        ),
                decreases j - k,
            {
                if self.memory_map[k].overlaps(&self.memory_map[j]) {
                    return false;
                }
                k += 1;
            }
            j += 1;
        }
        true
    }

    /// The description as it is written in a dump, `depth` levels deep.
    pub open spec fn spec_debug(&self, depth: nat) -> Seq<char> {
        "BootInfo {\n"@ + pad(depth + 1) + "memory_map: "@ + spec_debug_regions(
            self.memory_map@,
            depth + 1,
        ) + ",\n"@ + pad(depth + 1) + "kernel_phys_start: "@ + decimal(
            self.kernel_phys_start as nat,
        ) + ",\n"@ + pad(depth + 1) + "kernel_phys_end: "@ + decimal(self.kernel_phys_end as nat)
            + ",\n"@ + pad(depth) + "}"@
    }

    /// The description as it is written in a dump, `depth` levels deep.
    pub fn debug_text(&self, depth: usize) -> (r: String)
        requires
            depth + 2 < usize::MAX,
        ensures
            r@ == self.spec_debug(depth as nat),
    {
        let mut text = String::from_str("BootInfo {\n");
        push_pad(&mut text, depth + 1);
        text.append("memory_map: ");
        let map = debug_regions_text(&self.memory_map, depth + 1);
        text.append(map.as_str());
        text.append(",\n");
        push_pad(&mut text, depth + 1);
        text.append("kernel_phys_start: ");
        push_decimal(&mut text, self.kernel_phys_start);
        text.append(",\n");
        push_pad(&mut text, depth + 1);
        text.append("kernel_phys_end: ");
        push_decimal(&mut text, self.kernel_phys_end);
        text.append(",\n");
        push_pad(&mut text, depth);
        text.append("}");
        text
    }
}

} // verus!
