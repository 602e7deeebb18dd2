//! Leaving the emulator with a verdict, for runs under test.

use vstd::prelude::*;

verus! {

/// The verdict that a run under the emulator ends with.
#[derive(Debug, Clone, Copy, PartialEq, Eq, Structural)]
pub enum QemuExitCode {
    Success,
    Failed,
}

/// The I/O address of the exit device of an x86 machine.
pub const EXIT_DEVICE: u16 = 0xf4;

/// The semihosting operation that reports an exception to the emulator.
pub const SYS_EXIT: u64 = 0x18;

/// The semihosting reason for a stop that the application asked for.
pub const APPLICATION_EXIT: u64 = 0x20026;

/// The two words that the semihosting exit operation reads: the reason for
/// the stop and the status to leave with.
#[derive(Debug, Clone, Copy, PartialEq, Eq, Structural)]
pub struct QemuParameterBlock {
    pub arg0: u64,
    pub arg1: u64,
}

impl QemuExitCode {
    /// The value to write to the exit device of an x86 machine.
    pub fn exit_device_value(self) -> (r: u32)
        ensures
            r == match self {
                QemuExitCode::Success => 0x10u32,
                QemuExitCode::Failed => 0x11u32,
            },
    {
        match self {
            QemuExitCode::Success => 0x10u32,
            QemuExitCode::Failed => 0x11u32,
        }
    }

    /// The words to hand to the semihosting exit operation of a 64-bit Arm
    /// machine.
    pub fn parameter_block(self) -> (r: QemuParameterBlock)
        ensures
            r.arg0 == APPLICATION_EXIT,
            r.arg1 == match self {
                QemuExitCode::Success => 0u64,
                QemuExitCode::Failed => 1u64,
            },
    {
        QemuParameterBlock {
            arg0: APPLICATION_EXIT,
            arg1: match self {
                QemuExitCode::Success => 0u64,
                QemuExitCode::Failed => 1u64,
            },
        }
    }
}

} // verus!
