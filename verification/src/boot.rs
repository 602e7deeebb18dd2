//! What a platform hands to the kernel at boot.

use vstd::prelude::*;

verus! {

/// Marks a type as a backend's description of the machine at boot.
pub trait BootInfo {

}

} // verus!
