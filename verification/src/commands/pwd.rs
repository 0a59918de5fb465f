//! `pwd`: prints the current directory.
use vstd::prelude::*;
use crate::console::{Console, OpView, txt};
use super::CmdResult;

verus! {

pub fn run(args: &[&str], console: &mut Console, cwd: &str) -> (r: CmdResult)
    ensures
        r == CmdResult::Done,
        final(console)@ == old(console)@ + seq![txt(cwd@), OpView::Char('\n')],
{
    console.print(cwd);
    console.put_char('\n');
    assert(console@ =~= old(console)@ + seq![txt(cwd@), OpView::Char('\n')]);
    CmdResult::Done
}

} // verus!
