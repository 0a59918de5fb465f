//! Architecture identification.  This kernel is built for x86_64 and boots
//! through Limine on UEFI.
use vstd::prelude::*;

pub mod x86;

verus! {

/// Name of the architecture the kernel runs on.
pub fn arch_name() -> (s: &'static str)
    ensures
        s@ == "x86_64"@,
{
    "x86_64"
}

/// Architecture-specific initialisation.
pub fn init() {
    x86::init();
}

/// Name of the boot loader.
pub fn boot_loader() -> (s: &'static str)
    ensures
        s@ == "Limine (UEFI)"@,
{
    "Limine (UEFI)"
}

} // verus!
