//! `touch`: creates a file.
use vstd::prelude::*;
use crate::console::{Console, OpView, Color, txt, col};
use super::CmdResult;

verus! {

pub open spec fn touch_ops(args: Seq<&str>, outcome: Option<Result<(), String>>) -> Seq<OpView> {
    if args.len() == 0 {
        seq![col("Usage: touch <filename>\n"@, Color::Red)]
    } else {
        match outcome {
            Some(Ok(_)) => seq![col("Created: "@, Color::Green), txt(args[0]@), OpView::Char('\n')],
            Some(Err(e)) => seq![col("Error: "@, Color::Red), txt(e@), OpView::Char('\n')],
            None => Seq::empty(),
        }
    }
}

/// Reports on the file-system operation on the first argument, whose
/// outcome (an error as its message) is handed in; with no argument, the usage.
pub fn run(args: &[&str], console: &mut Console, outcome: Option<Result<(), String>>) -> (r: CmdResult)
    requires
        outcome is Some <==> args@.len() > 0,
    ensures
        r == CmdResult::Done,
        final(console)@ == old(console)@ + touch_ops(args@, outcome),
{
    if args.len() == 0 {
        console.print_colored("Usage: touch <filename>\n", Color::Red);
    } else {
        match outcome {
            Some(Ok(())) => {
                console.print_colored("Created: ", Color::Green);
                console.print(args[0]);
                console.put_char('\n');
            }
            Some(Err(e)) => {
                console.print_colored("Error: ", Color::Red);
                console.print(e.as_str());
                console.put_char('\n');
            }
            None => {}
        }
    }
    assert(console@ =~= old(console)@ + touch_ops(args@, outcome));
    CmdResult::Done
}

} // verus!
