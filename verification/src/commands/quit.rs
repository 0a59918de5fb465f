//! `quit`: halts the machine (the ACPI power-off itself is done by the
//! kernel after this message).
use vstd::prelude::*;
use crate::console::{Console, txt};

verus! {

pub fn run(args: &[&str], console: &mut Console)
    ensures
        final(console)@ == old(console)@.push(txt("System halted.\n"@)),
{
    console.print("System halted.\n");
}

} // verus!
