//! `date`: time of day from the 100 Hz timer, as `H:MM:SS UTC`.
use vstd::prelude::*;
use crate::console::{Console, OpView, txt, dec};
use super::{CmdResult, print_dec};

verus! {

/// `n` in decimal with a leading zero below ten, as separate operations.
pub open spec fn two_digit_ops(n: nat) -> Seq<OpView> {
    (if n < 10 { seq![txt("0"@)] } else { Seq::empty() }) + seq![txt(dec(n))]
}

pub open spec fn date_ops(ticks: nat) -> Seq<OpView> {
    let secs = ticks / 100;
    let mins = secs / 60;
    let hours = mins / 60;
    seq![txt(dec(hours)), txt(":"@)] + two_digit_ops(mins % 60) + seq![txt(":"@)] + two_digit_ops(secs % 60)
        + seq![txt(" UTC\n"@)]
}

fn print_two_digits(console: &mut Console, n: u64)
    ensures
        final(console)@ == old(console)@ + two_digit_ops(n as nat),
{
    if n < 10 {
        console.print("0");
    }
    print_dec(console, n);
    assert(console@ =~= old(console)@ + two_digit_ops(n as nat));
}

pub fn run(args: &[&str], console: &mut Console, ticks: u64) -> (r: CmdResult)
    ensures
        r == CmdResult::Done,
        final(console)@ == old(console)@ + date_ops(ticks as nat),
{
    let secs = ticks / 100;
    let mins = secs / 60;
    let hours = mins / 60;
    print_dec(console, hours);
    console.print(":");
    print_two_digits(console, mins % 60);
    console.print(":");
    print_two_digits(console, secs % 60);
    console.print(" UTC\n");
    assert(console@ =~= old(console)@ + date_ops(ticks as nat));
    CmdResult::Done
}

} // verus!
