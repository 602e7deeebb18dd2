use ratto::arch::aarch64::boot::BootInfo;
use ratto::arch::aarch64::mem::{FrameAllocator, MemoryMapper, MemoryRegion, MemoryRegionType};
use ratto::arch::aarch64::Cpu;
use ratto::console::{Console, WriteError};
use ratto::entry::serial::SerialConsole;
use ratto::kernel::{
    kernel, Kernel, KernelArgs, KernelCell, KernelState, LifecycleError, LifecycleFailure,
    PanicReport,
};
use ratto::print::{console, kerr, klog, kraw, print};

fn usable_ram() -> BootInfo {
    BootInfo {
        memory_map: vec![MemoryRegion {
            start: 0x0,
            size: 0x3B00_0000,
            kind: MemoryRegionType::Usable,
        }],
        kernel_phys_start: 0x8_0000,
        kernel_phys_end: 0x10_0000,
    }
}

fn written(cell: &KernelCell<SerialConsole>) -> String {
    let bytes = console(cell).expect("a console is registered").sent();
    String::from_utf8(bytes.clone()).expect("the text written is ASCII")
}

const RAM_DUMP: &str = "BootInfo {
    memory_map: [
        MemoryRegion {
            start: 0,
            size: 989855744,
            kind: Usable,
        },
    ],
    kernel_phys_start: 524288,
    kernel_phys_end: 1048576,
}";

/// A console that takes two characters of every write and then fails.
struct Choked {
    taken: String,
}

impl Console for Choked {
    fn output(&self) -> String {
        self.taken.clone()
    }

    fn reliable(&self) -> bool {
        false
    }

    fn spec_label(&self) -> &'static str {
        "Choked"
    }

    fn label(&self) -> &'static str {
        "Choked"
    }

    fn write_str(&mut self, s: &str) -> Result<(), WriteError> {
        self.taken.extend(s.chars().take(2));
        Err(WriteError)
    }
}

#[test]
fn a_new_cell_is_uninitialised() {
    let cell: KernelCell<SerialConsole> = KernelCell::new();
    assert!(matches!(cell.get(), KernelState::Uninit));
    assert!(matches!(kernel(&cell), KernelState::Uninit));
    assert!(!cell.get().is_ready());
    assert!(cell.get().try_as_ready().is_none());
    assert!(cell.get().console().is_none());
    assert_eq!(cell.get().debug_text(0), "Uninit");
}

#[test]
fn boot_without_a_console_reaches_ready() {
    let mut cell: KernelCell<SerialConsole> = KernelCell::new();
    Kernel::init1(&mut cell, None);
    assert!(matches!(cell.get(), KernelState::Init1(None)));
    let args = KernelArgs { boot_info: usable_ram(), console: None };
    assert_eq!(Kernel::init2(&mut cell, args), Ok(()));
    assert!(cell.get().is_ready());
    assert!(cell.get().try_as_ready().is_some());
    assert!(cell.get().console().is_none());
    assert_eq!(cell.get().debug_text(0), "Ready(\n    Kernel {\n        console: None,\n    },\n)");
    let report = PanicReport { location: None, message: String::from("late") };
    Kernel::panic_dump(&mut cell, &report);
    assert!(cell.get().is_ready());
    assert!(cell.get().console().is_none());
    assert_eq!(cell.get().as_ready().debug_text(0), "Kernel {\n    console: None,\n}");
}

#[test]
fn boot_with_a_console_logs_the_three_lines() {
    let mut cell: KernelCell<SerialConsole> = KernelCell::new();
    Kernel::init1(&mut cell, Some(SerialConsole::new(Cpu::new(0x3c0))));
    let args = KernelArgs {
        boot_info: usable_ram(),
        console: Some(SerialConsole::new(Cpu::new(0x3c0))),
    };
    assert_eq!(Kernel::init2(&mut cell, args), Ok(()));
    assert!(cell.get().is_ready());
    let expected = format!(
        "[DBG] Kernel initialization started...\n[DBG] Boot info: {}\n[DBG] Kernel initialization completed.\n",
        RAM_DUMP
    );
    assert_eq!(written(&cell), expected);
}

#[test]
fn init1_twice_is_refused_with_more_than_once() {
    let mut cell: KernelCell<SerialConsole> = KernelCell::new();
    assert!(Kernel::try_init1(&mut cell, None).is_ok());
    let again = Kernel::try_init1(&mut cell, None);
    let error = again.expect_err("the second call is refused");
    assert!(matches!(error, LifecycleError::CalledTwice));
    assert!(error.message().contains("more than once"));
    assert_eq!(error.message(), "Kernel::init() called more than once");
    assert!(matches!(cell.get(), KernelState::Init1(None)));
}

#[test]
fn init2_before_init1_is_refused_with_before_init() {
    let mut cell: KernelCell<SerialConsole> = KernelCell::new();
    let args = KernelArgs { boot_info: usable_ram(), console: None };
    let error = Kernel::try_init2(&mut cell, args).expect_err("nothing was begun");
    assert!(matches!(error, LifecycleError::CalledBeforeInit));
    assert!(error.message().contains("before init"));
    assert!(matches!(cell.get(), KernelState::Uninit));
}

#[test]
fn init2_twice_is_refused_with_more_than_once() {
    let mut cell: KernelCell<SerialConsole> = KernelCell::new();
    Kernel::init1(&mut cell, None);
    let args = KernelArgs { boot_info: usable_ram(), console: None };
    assert!(Kernel::try_init2(&mut cell, args).is_ok());
    let args = KernelArgs { boot_info: usable_ram(), console: None };
    let error = Kernel::try_init2(&mut cell, args).expect_err("it was completed before");
    assert!(matches!(error, LifecycleError::CalledTwice));
    assert!(error.message().contains("more than once"));
    assert!(cell.get().is_ready());
}

#[test]
fn run_before_ready_is_refused() {
    let mut cell: KernelCell<SerialConsole> = KernelCell::new();
    let failure = Kernel::try_run(&mut cell);
    assert!(matches!(failure, LifecycleFailure::Misuse(LifecycleError::RunBeforeInit)));
    assert_eq!(failure.message(), "Kernel::run() called before Kernel::init()");
    Kernel::init1(&mut cell, None);
    let failure = Kernel::try_run(&mut cell);
    assert!(matches!(failure, LifecycleFailure::Misuse(LifecycleError::RunBeforeInit)));
    assert!(matches!(cell.get(), KernelState::Init1(None)));
}

#[test]
fn run_announces_the_main_loop_and_stops() {
    let mut cell: KernelCell<SerialConsole> = KernelCell::new();
    Kernel::init1(&mut cell, None);
    let args = KernelArgs {
        boot_info: usable_ram(),
        console: Some(SerialConsole::new(Cpu::new(0))),
    };
    Kernel::init2(&mut cell, args).unwrap();
    let before = written(&cell);
    assert_eq!(Kernel::run(&mut cell), "Unimplemented: Kernel main loop");
    assert_eq!(written(&cell), format!("{}[DBG] Kernel main loop starting...\n", before));
    let failure = Kernel::try_run(&mut cell);
    assert!(matches!(failure, LifecycleFailure::Unimplemented));
    assert_eq!(failure.message(), "Unimplemented: Kernel main loop");
}

#[test]
fn panic_dump_in_init1_shows_the_console_and_nothing_of_later_states() {
    let mut cell: KernelCell<SerialConsole> = KernelCell::new();
    Kernel::init1(&mut cell, Some(SerialConsole::new(Cpu::new(0))));
    let report = PanicReport {
        location: Some(String::from("src/main.rs:10:5")),
        message: String::from("boom"),
    };
    Kernel::panic_dump(&mut cell, &report);
    assert_eq!(
        written(&cell),
        "[ERR] !!! Kernel panic !!!\nAt: src/main.rs:10:5\nReason: boom\nKernel State: Init1(\n    Some(\n        QUMUSerialConsole,\n    ),\n)\n"
    );
    assert!(!written(&cell).contains("BootInfo"));
    assert!(!written(&cell).contains("Kernel {"));
    assert!(matches!(cell.get(), KernelState::Init1(Some(_))));
}

#[test]
fn panic_dump_without_a_location_leaves_the_line_out() {
    let mut cell: KernelCell<SerialConsole> = KernelCell::new();
    Kernel::init1(&mut cell, Some(SerialConsole::new(Cpu::new(0))));
    let report = PanicReport { location: None, message: String::from("boom") };
    Kernel::panic_dump(&mut cell, &report);
    assert_eq!(
        written(&cell),
        "[ERR] !!! Kernel panic !!!\nReason: boom\nKernel State: Init1(\n    Some(\n        QUMUSerialConsole,\n    ),\n)\n"
    );
}

#[test]
fn panic_dump_when_ready_shows_the_kernel() {
    let mut cell: KernelCell<SerialConsole> = KernelCell::new();
    Kernel::init1(&mut cell, None);
    let args = KernelArgs {
        boot_info: usable_ram(),
        console: Some(SerialConsole::new(Cpu::new(0))),
    };
    Kernel::init2(&mut cell, args).unwrap();
    let before = written(&cell);
    let report = PanicReport { location: None, message: String::from("late") };
    Kernel::panic_dump(&mut cell, &report);
    let expected = format!(
        "{}[ERR] !!! Kernel panic !!!\nReason: late\nKernel State: Ready(\n    Kernel {{\n        console: Some(\n            QUMUSerialConsole,\n        ),\n    }},\n)\n",
        before
    );
    assert_eq!(written(&cell), expected);
}

#[test]
fn panic_dump_before_init_writes_nothing() {
    let mut cell: KernelCell<SerialConsole> = KernelCell::new();
    let report = PanicReport { location: None, message: String::from("early") };
    Kernel::panic_dump(&mut cell, &report);
    assert!(matches!(cell.get(), KernelState::Uninit));
}

#[test]
fn the_state_in_init2_shows_the_boot_arguments() {
    let state: KernelState<SerialConsole> =
        KernelState::Init2(KernelArgs { boot_info: usable_ram(), console: None });
    let expected = "Init2(
    KernelArgs {
        boot_info: BootInfo {
            memory_map: [
                MemoryRegion {
                    start: 0,
                    size: 989855744,
                    kind: Usable,
                },
            ],
            kernel_phys_start: 524288,
            kernel_phys_end: 1048576,
        },
        console: None,
    },
)";
    assert_eq!(state.debug_text(0), expected);
}

#[test]
fn print_marks_its_lines() {
    let mut cell: KernelCell<SerialConsole> = KernelCell::new();
    Kernel::init1(&mut cell, Some(SerialConsole::new(Cpu::new(0))));
    print(&mut cell, "a");
    klog(&mut cell, "b");
    kerr(&mut cell, "c");
    kraw(&mut cell, "d");
    assert_eq!(written(&cell), "a[DBG] b\n[ERR] c\nd\n");
}

#[test]
fn print_without_a_console_does_nothing() {
    let mut cell: KernelCell<SerialConsole> = KernelCell::new();
    print(&mut cell, "lost");
    assert!(matches!(cell.get(), KernelState::Uninit));
    Kernel::init1(&mut cell, None);
    klog(&mut cell, "lost");
    assert!(console(&cell).is_none());
}

#[test]
fn a_failed_write_is_passed_over() {
    let mut cell: KernelCell<Choked> = KernelCell::new();
    Kernel::init1(&mut cell, Some(Choked { taken: String::new() }));
    klog(&mut cell, "one");
    kraw(&mut cell, "two");
    assert_eq!(console(&cell).unwrap().taken, "[Dtw");
    let report = PanicReport { location: None, message: String::from("x") };
    Kernel::panic_dump(&mut cell, &report);
    assert_eq!(console(&cell).unwrap().taken, "[Dtw[EReKe");
    assert_eq!(
        cell.get().debug_text(0),
        "Init1(\n    Some(\n        Choked,\n    ),\n)"
    );
}

#[test]
fn promote_moves_the_kernel_on() {
    let mut cell: KernelCell<SerialConsole> = KernelCell::new();
    cell.promote(KernelState::Init1(None));
    assert!(matches!(cell.get(), KernelState::Init1(None)));
    cell.promote(KernelState::Init2(KernelArgs { boot_info: usable_ram(), console: None }));
    assert!(matches!(cell.get(), KernelState::Init2(_)));
}

#[test]
fn console_mut_reaches_the_registered_console() {
    let mut cell: KernelCell<SerialConsole> = KernelCell::new();
    assert!(cell.console_mut().is_none());
    Kernel::init1(&mut cell, Some(SerialConsole::new(Cpu::new(0))));
    cell.console_mut().unwrap().write_str("hi").unwrap();
    assert_eq!(written(&cell), "hi");
}

#[test]
fn a_failure_to_bring_memory_up_leaves_the_kernel_in_init2() {
    let mut cell: KernelCell<SerialConsole> = KernelCell::new();
    cell.promote(KernelState::Init1(None));
    cell.promote(KernelState::Init2(KernelArgs {
        boot_info: usable_ram(),
        console: Some(SerialConsole::new(Cpu::new(0))),
    }));
    assert_eq!(Kernel::conclude(&mut cell, Err("no frames")), Err("no frames"));
    assert!(matches!(cell.get(), KernelState::Init2(_)));
    assert_eq!(written(&cell), "");
    assert_eq!(LifecycleError::Memory("no frames").message(), "Failed to initialize memory");
}

#[test]
fn with_memory_up_the_kernel_becomes_ready() {
    let mut cell: KernelCell<SerialConsole> = KernelCell::new();
    cell.promote(KernelState::Init1(None));
    cell.promote(KernelState::Init2(KernelArgs {
        boot_info: usable_ram(),
        console: Some(SerialConsole::new(Cpu::new(0))),
    }));
    assert_eq!(Kernel::conclude(&mut cell, Ok((MemoryMapper, FrameAllocator))), Ok(()));
    assert!(cell.get().is_ready());
    assert_eq!(written(&cell), "[DBG] Kernel initialization completed.\n");
}

#[test]
fn a_state_that_is_not_ready_gives_the_words_to_stop_with() {
    let mut cell: KernelCell<SerialConsole> = KernelCell::new();
    let error = cell.get().ready_or_error().err().expect("nothing is ready yet");
    assert!(matches!(error, LifecycleError::NotReady));
    assert_eq!(error.message(), "Kernel is not ready");
    Kernel::init1(&mut cell, None);
    assert!(cell.get().ready_or_error().is_err());
    let args = KernelArgs { boot_info: usable_ram(), console: None };
    Kernel::init2(&mut cell, args).unwrap();
    assert!(cell.get().ready_or_error().is_ok());
}
