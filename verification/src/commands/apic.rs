//! `apic`: interrupt controller status.
use vstd::prelude::*;
use crate::console::{Console, OpView, txt};
use super::CmdResult;

verus! {

pub open spec fn apic_ops(has_apic: bool, active: bool) -> Seq<OpView> {
    seq![
        txt("APIC Status:\n"@),
        txt("  Detected: "@),
        txt(if has_apic { "yes"@ } else { "no"@ }),
        txt("\n"@),
        txt("  Active:   "@),
        txt(if active { "yes (full APIC, PIC offline)"@ } else { "no (PIC primary)"@ }),
        txt("\n"@),
    ] + (if active {
        seq![
            txt("  Timer:    LAPIC periodic 100Hz, vector 32\n"@),
            txt("  Keyboard: IO APIC GSI1 -> vector 33\n"@),
            txt("  Serial:   polling (no IO APIC redirect)\n"@),
        ]
    } else {
        Seq::empty()
    })
}

pub fn run(args: &[&str], console: &mut Console, has_apic: bool, active: bool) -> (r: CmdResult)
    ensures
        r == CmdResult::Done,
        final(console)@ == old(console)@ + apic_ops(has_apic, active),
{
    console.print("APIC Status:\n");
    console.print("  Detected: ");
    console.print(if has_apic { "yes" } else { "no" });
    console.print("\n");
    console.print("  Active:   ");
    console.print(if active { "yes (full APIC, PIC offline)" } else { "no (PIC primary)" });
    console.print("\n");
    if active {
        console.print("  Timer:    LAPIC periodic 100Hz, vector 32\n");
        console.print("  Keyboard: IO APIC GSI1 -> vector 33\n");
        console.print("  Serial:   polling (no IO APIC redirect)\n");
    }
    assert(console@ =~= old(console)@ + apic_ops(has_apic, active));
    CmdResult::Done
}

} // verus!
