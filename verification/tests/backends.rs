use ratto::console::{Console, WriteError};
use ratto::cpu::CpuOps;
use ratto::mem::{FrameAllocator, MapFlags, MemoryMapper, PhysicalAddress, PhysicalFrame, VirtualAddress};
use ratto::sync::SpinLock;

/// A core whose interrupts are on or off.
struct Switch {
    on: bool,
}

impl CpuOps for Switch {
    type InterruptState = bool;

    fn interrupt_state(&self) -> bool {
        self.on
    }

    fn representable(_state: bool) -> bool {
        true
    }

    fn masked(state: bool) -> bool {
        !state
    }

    fn disable_interrupts(&mut self) -> bool {
        let was = self.on;
        self.on = false;
        was
    }

    fn enable_interrupts(&mut self, state: bool) {
        self.on = state;
    }
}

/// An allocator of the frames from `next` up to `end`.
struct Bump {
    next: u64,
    end: u64,
}

impl FrameAllocator for Bump {
    const FRAME_SIZE: u64 = 0x1000;

    fn alloc_frame(&mut self) -> Option<PhysicalFrame> {
        if self.next < self.end {
            let frame = PhysicalFrame { addr: PhysicalAddress(self.next) };
            self.next += Self::FRAME_SIZE;
            Some(frame)
        } else {
            None
        }
    }

    fn free_frame(&mut self, _frame: PhysicalFrame) {
    }
}

/// A mapper that keeps each space as a list of pages.
struct Listing {
    spaces: usize,
    active: Option<usize>,
}

impl MemoryMapper for Listing {
    type AddressSpace = (usize, Vec<(u64, PhysicalFrame, MapFlags)>);

    fn new_address_space(&mut self) -> Result<Self::AddressSpace, &'static str> {
        if self.spaces == 2 {
            return Err("out of address spaces");
        }
        self.spaces += 1;
        Ok((self.spaces, Vec::new()))
    }

    fn map_page(
        &mut self,
        space: &mut Self::AddressSpace,
        virtual_address: VirtualAddress,
        physical_frame: PhysicalFrame,
        flags: MapFlags,
    ) -> Result<(), &'static str> {
        space.1.push((virtual_address.0, physical_frame, flags));
        Ok(())
    }

    fn unmap_page(
        &mut self,
        space: &mut Self::AddressSpace,
        virt: VirtualAddress,
    ) -> Result<PhysicalFrame, &'static str> {
        match space.1.iter().position(|page| page.0 == virt.0) {
            Some(at) => Ok(space.1.remove(at).1),
            None => Err("not mapped"),
        }
    }

    fn activate(&mut self, space: &Self::AddressSpace) {
        self.active = Some(space.0);
    }
}

/// A console that keeps what it is given.
struct Keeper {
    text: String,
}

impl Console for Keeper {
    fn output(&self) -> String {
        self.text.clone()
    }

    fn reliable(&self) -> bool {
        true
    }

    fn spec_label(&self) -> &'static str {
        "Keeper"
    }

    fn label(&self) -> &'static str {
        "Keeper"
    }

    fn write_str(&mut self, s: &str) -> Result<(), WriteError> {
        self.text.push_str(s);
        Ok(())
    }
}

#[test]
fn a_lock_works_on_any_core() {
    let mut cpu = Switch { on: true };
    let mut lock: SpinLock<u8, Switch> = SpinLock::new(1);
    assert!(!Switch::masked(cpu.interrupt_state()));
    let guard = lock.lock(&mut cpu);
    assert!(!cpu.on);
    assert!(Switch::masked(cpu.interrupt_state()));
    assert!(Switch::representable(cpu.interrupt_state()));
    guard.unlock(&mut cpu);
    assert!(cpu.on);
}

#[test]
fn an_allocator_hands_out_aligned_frames_until_it_has_none() {
    let mut frames = Bump { next: 0x1000, end: 0x3000 };
    assert_eq!(frames.alloc_frame(), Some(PhysicalFrame { addr: PhysicalAddress(0x1000) }));
    assert_eq!(frames.alloc_frame(), Some(PhysicalFrame { addr: PhysicalAddress(0x2000) }));
    assert_eq!(frames.alloc_frame(), None);
    assert_eq!(frames.alloc_frame(), None);
    assert_eq!(Bump::FRAME_SIZE.count_ones(), 1);
}

#[test]
fn a_mapper_maps_and_unmaps_pages() {
    let mut mapper = Listing { spaces: 0, active: None };
    let mut space = mapper.new_address_space().unwrap();
    let frame = PhysicalFrame { addr: PhysicalAddress(0x8000) };
    let flags = MapFlags::from_bits(MapFlags::READ | MapFlags::WRITE).unwrap();
    assert_eq!(mapper.map_page(&mut space, VirtualAddress(0x4000), frame, flags), Ok(()));
    mapper.activate(&space);
    assert_eq!(mapper.active, Some(1));
    assert_eq!(mapper.unmap_page(&mut space, VirtualAddress(0x4000)), Ok(frame));
    assert_eq!(mapper.unmap_page(&mut space, VirtualAddress(0x4000)), Err("not mapped"));
    assert!(mapper.new_address_space().is_ok());
    assert_eq!(mapper.new_address_space().err(), Some("out of address spaces"));
}

#[test]
fn a_console_takes_text() {
    let mut console = Keeper { text: String::new() };
    assert_eq!(console.write_str("ab"), Ok(()));
    assert_eq!(console.write_str("c"), Ok(()));
    assert_eq!(console.text, "abc");
    assert_eq!(console.output(), "abc");
    assert!(console.reliable());
    assert_eq!(console.label(), "Keeper");
    assert_eq!(console.label(), console.spec_label());
}
