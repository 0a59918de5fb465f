//! x86_64-specific constants and initialisation.
use vstd::prelude::*;

verus! {

/// Size of a page.
pub const PAGE_SIZE: u64 = 4096;

/// Default offset of the higher-half direct map.
pub const HHDM_OFFSET_DEFAULT: u64 = 0xFFFF_8000_0000_0000;

/// x86-specific initialisation; the descriptor tables, interrupts and
/// memory management are brought up by the boot path itself.
pub fn init() {
}

} // verus!
