//! Interrupt-safe synchronisation primitives.

pub mod contention;
pub mod once_lock;
pub mod spin_lock;

pub use once_lock::OnceLock;
pub use spin_lock::SpinLock;
