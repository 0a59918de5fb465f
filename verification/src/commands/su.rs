//! `su`: switches user.
use vstd::prelude::*;
use crate::console::{Console, OpView, Color, txt, col, dec};
use super::{CmdResult, print_dec};

verus! {

/// The user to switch to: the first argument, `root` by default.
pub fn target_user<'a>(args: &[&'a str]) -> (u: &'a str)
    ensures
        u@ == (if args@.len() > 0 { args@[0]@ } else { "root"@ }),
{
    if args.len() > 0 { args[0] } else { "root" }
}

/// Reports the switch: the new user's name and uid, or the reason it failed.
pub fn run(args: &[&str], console: &mut Console, outcome: Result<(String, u32), String>) -> (r: CmdResult)
    ensures
        r == CmdResult::Done,
        final(console)@ == old(console)@ + (match outcome {
            Ok(u) => seq![col("Switched to user: "@, Color::Green), txt(u.0@), txt(" (uid="@), txt(dec(u.1 as nat)), txt(")\n"@)],
            Err(e) => seq![col("su: "@, Color::Red), txt(e@), OpView::Char('\n')],
        }),
{
    match outcome {
        Ok((name, uid)) => {
            console.print_colored("Switched to user: ", Color::Green);
            console.print(name.as_str());
            console.print(" (uid=");
            print_dec(console, uid as u64);
            console.print(")\n");
        }
        Err(e) => {
            console.print_colored("su: ", Color::Red);
            console.print(e.as_str());
            console.put_char('\n');
        }
    }
    assert(console@ =~= old(console)@ + (match outcome {
        Ok(u) => seq![col("Switched to user: "@, Color::Green), txt(u.0@), txt(" (uid="@), txt(dec(u.1 as nat)), txt(")\n"@)],
        Err(e) => seq![col("su: "@, Color::Red), txt(e@), OpView::Char('\n')],
    }));
    CmdResult::Done
}

} // verus!
