//! `kill`: ends a task.
use vstd::prelude::*;
use crate::console::{Console, OpView, Color, txt, col, dec};
use super::{CmdResult, parse_unsigned, parse_bounded, print_dec};

verus! {

/// What `kill` prints, and the task it ends, for its arguments.
pub open spec fn kill_outcome(args: Seq<&str>) -> (Seq<OpView>, Option<u32>) {
    if args.len() == 0 {
        (seq![col("Usage: kill <PID>\n"@, Color::Yellow)], None)
    } else {
        match parse_unsigned(args[0]@, u32::MAX as int) {
            None => (seq![col("Invalid PID\n"@, Color::Red)], None),
            Some(p) => if p == 0 {
                (seq![col("Cannot kill kernel process (kshell)\n"@, Color::Red)], None)
            } else {
                (seq![txt("Process "@), txt(dec(p as nat)), txt(" killed\n"@)], Some(p as u32))
            },
        }
    }
}

/// Parses the PID; the task to end is returned (the kernel process, PID 0,
/// is never ended).
pub fn run(args: &[&str], console: &mut Console) -> (r: (CmdResult, Option<u32>))
    ensures
        r.0 == CmdResult::Done,
        final(console)@ == old(console)@ + kill_outcome(args@).0,
        r.1 == kill_outcome(args@).1,
{
    if args.len() == 0 {
        console.print_colored("Usage: kill <PID>\n", Color::Yellow);
        assert(console@ =~= old(console)@ + kill_outcome(args@).0);
        return (CmdResult::Done, None);
    }
    let pid = match parse_bounded(args[0], 0xFFFF_FFFF) {
        Some(p) => p as u32,
        None => {
            console.print_colored("Invalid PID\n", Color::Red);
            assert(console@ =~= old(console)@ + kill_outcome(args@).0);
            return (CmdResult::Done, None);
        }
    };
    if pid == 0 {
        console.print_colored("Cannot kill kernel process (kshell)\n", Color::Red);
        assert(console@ =~= old(console)@ + kill_outcome(args@).0);
        return (CmdResult::Done, None);
    }
    console.print("Process ");
    print_dec(console, pid as u64);
    console.print(" killed\n");
    assert(console@ =~= old(console)@ + kill_outcome(args@).0);
    (CmdResult::Done, Some(pid))
}

} // verus!
