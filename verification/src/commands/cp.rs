//! `cp`: copies a file.
use vstd::prelude::*;
use crate::console::{Console, OpView, Color, txt, col, dec};
use super::{CmdResult, print_dec};

verus! {

/// How the copy went: the number of bytes copied, or the message of the
/// error met reading the source or writing the destination.
pub enum CopyOutcome {
    Copied(usize),
    ReadError(String),
    WriteError(String),
}

pub open spec fn cp_ops(args: Seq<&str>, outcome: Option<CopyOutcome>) -> Seq<OpView> {
    if args.len() < 2 {
        seq![col("Usage: cp <source> <destination>\n"@, Color::Red)]
    } else {
        match outcome {
            Some(CopyOutcome::Copied(n)) => seq![
                col("Copied: "@, Color::Green), txt(args[0]@), col(" -> "@, Color::Yellow), txt(args[1]@),
                txt(" ("@), txt(dec(n as nat)), txt(" bytes)\n"@),
            ],
            Some(CopyOutcome::WriteError(e)) => seq![col("Error writing: "@, Color::Red), txt(e@), OpView::Char('\n')],
            Some(CopyOutcome::ReadError(e)) => seq![col("Error reading: "@, Color::Red), txt(e@), OpView::Char('\n')],
            None => Seq::empty(),
        }
    }
}

/// Reports the copy of the first argument to the second; the copy itself
/// (read the source, create the destination if missing, write it) is done
/// by the caller when there are two arguments.
pub fn run(args: &[&str], console: &mut Console, outcome: Option<CopyOutcome>) -> (r: CmdResult)
    requires
        outcome is Some <==> args@.len() >= 2,
    ensures
        r == CmdResult::Done,
        final(console)@ == old(console)@ + cp_ops(args@, outcome),
{
    if args.len() < 2 {
        console.print_colored("Usage: cp <source> <destination>\n", Color::Red);
    } else {
        match outcome {
            Some(CopyOutcome::Copied(n)) => {
                console.print_colored("Copied: ", Color::Green);
                console.print(args[0]);
                console.print_colored(" -> ", Color::Yellow);
                console.print(args[1]);
                console.print(" (");
                print_dec(console, n as u64);
                console.print(" bytes)\n");
            }
            Some(CopyOutcome::WriteError(e)) => {
                console.print_colored("Error writing: ", Color::Red);
                console.print(e.as_str());
                console.put_char('\n');
            }
            Some(CopyOutcome::ReadError(e)) => {
                console.print_colored("Error reading: ", Color::Red);
                console.print(e.as_str());
                console.put_char('\n');
            }
            None => {}
        }
    }
    assert(console@ =~= old(console)@ + cp_ops(args@, outcome));
    CmdResult::Done
}

} // verus!
