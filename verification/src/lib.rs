//! Building blocks of a small bare-metal kernel: interrupt-safe locking, a
//! one-time-initialised cell, the contract between the kernel core and an
//! architecture, and the lifecycle of the kernel from nothing to ready.
//!
//! Everything here is stated over explicit state. A core is a value whose
//! interrupt masking the calls change; a lock is borrowed mutably by whoever
//! takes it; the state of the kernel lives in a cell that is handed to the
//! functions that read or advance it; a console is a value that knows what
//! was written to it. What several contexts do to one lock at a time is
//! described, step by step, in [`sync::contention`].
//!
//! - [`cpu`], [`mem`], [`boot`], [`console`]: what a backend supplies.
//! - [`sync`]: the spin lock and the cell that is set once.
//! - [`arch`]: the architecture contract and the 64-bit Arm backend.
//! - [`kernel`], [`print`]: the lifecycle and the diagnostics of the kernel.
//! - [`entry`]: what the boot code prepares before it hands over.
//! - [`qemu`], [`xtask`]: leaving an emulator, and the command lines that
//!   build the kernel and start it under one.
//! - [`text`]: numbers and indentation in diagnostics.

pub mod arch;
pub mod boot;
pub mod console;
pub mod cpu;
pub mod entry;
pub mod kernel;
pub mod mem;
pub mod print;
pub mod qemu;
pub mod sync;
pub mod text;
pub mod xtask;
