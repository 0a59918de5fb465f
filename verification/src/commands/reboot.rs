//! `reboot`: resets the machine (the reset itself is done by the kernel
//! after this message).
use vstd::prelude::*;
use crate::console::{Console, Color, col};

verus! {

pub fn run(args: &[&str], console: &mut Console)
    ensures
        final(console)@ == old(console)@.push(col("Rebooting...\n"@, Color::Yellow)),
{
    console.print_colored("Rebooting...\n", Color::Yellow);
}

} // verus!
