//! `uptime`: timer ticks and the time since boot.
use vstd::prelude::*;
use crate::console::{Console, OpView, Color, txt, col, dec};
use super::{CmdResult, print_dec};

verus! {

pub open spec fn uptime_ops(ticks: nat, hz: nat) -> Seq<OpView> {
    let seconds = ticks / hz;
    let minutes = seconds / 60;
    let hours = minutes / 60;
    seq![
        col("System Uptime:\n"@, Color::Cyan),
        col("  Timer ticks: "@, Color::Yellow),
        txt(dec(ticks)),
        txt("\n"@),
        col("  Uptime:      "@, Color::Yellow),
        txt(dec(hours)),
        txt("h "@),
        txt(dec(minutes % 60)),
        txt("m "@),
        txt(dec(seconds % 60)),
        txt("s\n"@),
    ]
}

/// `timer_hz` is the rate of the timer interrupt.
pub fn run(args: &[&str], console: &mut Console, ticks: u64, timer_hz: u64) -> (r: CmdResult)
    requires
        timer_hz > 0,
    ensures
        r == CmdResult::Done,
        final(console)@ == old(console)@ + uptime_ops(ticks as nat, timer_hz as nat),
{
    let seconds = ticks / timer_hz;
    let minutes = seconds / 60;
    let hours = minutes / 60;
    console.print_colored("System Uptime:\n", Color::Cyan);
    console.print_colored("  Timer ticks: ", Color::Yellow);
    print_dec(console, ticks);
    console.print("\n");
    console.print_colored("  Uptime:      ", Color::Yellow);
    print_dec(console, hours);
    console.print("h ");
    print_dec(console, minutes % 60);
    console.print("m ");
    print_dec(console, seconds % 60);
    console.print("s\n");
    assert(console@ =~= old(console)@ + uptime_ops(ticks as nat, timer_hz as nat));
    CmdResult::Done
}

} // verus!
