use ratto::arch::aarch64::mem::MemoryRegionType;
use ratto::arch::aarch64::Cpu;
use ratto::console::Console;
use ratto::entry::boot::{boot_info, parse_memory_map, Dtb};
use ratto::entry::serial::SerialConsole;
use ratto::kernel::{Kernel, KernelArgs, KernelCell};
use ratto::print::console;

#[test]
fn a_blob_is_known_by_its_address() {
    let dtb = Dtb::from_phys_addr(0x200_0000).unwrap();
    assert_eq!(dtb.base(), 0x200_0000);
}

#[test]
fn the_memory_map_has_ram_firmware_and_device_registers() {
    let dtb = Dtb::from_phys_addr(0x200_0000).unwrap();
    let map = parse_memory_map(&dtb);
    assert_eq!(map.len(), 3);
    assert_eq!((map[0].start, map[0].size, map[0].kind), (0, 0x3B00_0000, MemoryRegionType::Usable));
    assert_eq!(
        (map[1].start, map[1].size, map[1].kind),
        (0x3B00_0000, 0x0500_0000, MemoryRegionType::Firmware)
    );
    assert_eq!(
        (map[2].start, map[2].size, map[2].kind),
        (0xFE00_0000, 0x0200_0000, MemoryRegionType::Mmio)
    );
}

#[test]
fn the_machine_is_described_and_the_description_is_well_formed() {
    let mut cell: KernelCell<SerialConsole> = KernelCell::new();
    Kernel::init1(&mut cell, Some(SerialConsole::new(Cpu::new(0x3c0))));
    let info = boot_info(&mut cell, 0x200_0000, (0x8_0000, 0x9_abcd));
    assert_eq!(info.kernel_phys_start, 0x8_0000);
    assert_eq!(info.kernel_phys_end, 0x9_abcd);
    assert_eq!(info.memory_map.len(), 3);
    assert!(info.well_formed());
    let sent = console(&cell).unwrap().sent().clone();
    assert_eq!(
        String::from_utf8(sent).unwrap(),
        "[DBG] DTB physical address: 0x2000000\n[DBG] Kernel physical range: 0x80000 - 0x9abcd\n"
    );
    let args = KernelArgs { boot_info: info, console: None };
    assert_eq!(Kernel::init2(&mut cell, args), Ok(()));
}

#[test]
fn the_machine_is_described_without_a_console() {
    let mut cell: KernelCell<SerialConsole> = KernelCell::new();
    let info = boot_info(&mut cell, 1, (0, 0));
    assert!(info.well_formed());
    assert!(console(&cell).is_none());
}

#[test]
fn the_serial_line_takes_the_low_byte_of_each_character() {
    let mut line = SerialConsole::new(Cpu::new(0));
    assert_eq!(line.write_str("ab"), Ok(()));
    assert_eq!(line.write_str("\u{e9}\u{141}\u{1F600}!"), Ok(()));
    assert_eq!(line.sent(), &vec![0x61, 0x62, 0xe9, 0x41, 0x00, 0x21]);
    assert_eq!(line.write_str(""), Ok(()));
    assert_eq!(line.sent().len(), 6);
    assert_eq!(line.label(), "QUMUSerialConsole");
}
