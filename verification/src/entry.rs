//! What the boot code of a machine does before it hands over to the kernel.

pub mod boot;
pub mod serial;
