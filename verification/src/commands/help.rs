//! `help`: a boxed table of the commands and what they do, drawn with the
//! box-drawing characters of code page 437.
use vstd::prelude::*;
use crate::console::{Console, OpView, Color, txt, col};
use super::{CmdResult, repeat_op, put_char_n, print_n};

verus! {

/// Width of the name column.
pub const NAME_W: usize = 9;
/// Width of the help column.
pub const HELP_W: usize = 24;

pub open spec fn sat_sub(a: int, b: int) -> nat {
    if a > b { (a - b) as nat } else { 0 }
}

/// A horizontal border between the two corner characters.
pub open spec fn border(left: char, right: char) -> Seq<OpView> {
    seq![OpView::Char(left)] + repeat_op(OpView::Char('\u{CD}'), (NAME_W + HELP_W + 2) as nat)
        + seq![OpView::Char(right), OpView::Char('\n')]
}

/// A table row: the name padded to the name column, the help padded to the
/// help column (by byte length).
pub open spec fn cmd_row(name: &str, help: &str) -> Seq<OpView> {
    seq![OpView::Char('\u{BA}'), txt(" "@), col(name@, Color::Prompt)]
        + repeat_op(txt(" "@), sat_sub(NAME_W as int, name.len() as int))
        + seq![txt(" "@), OpView::Char('\u{BA}'), txt(" "@), col(help@, Color::Foreground)]
        + repeat_op(txt(" "@), sat_sub(HELP_W as int, help.len() as int))
        + seq![txt(" "@), OpView::Char('\u{BA}'), OpView::Char('\n')]
}

pub open spec fn cmd_rows(cmds: Seq<(&str, &str)>) -> Seq<OpView>
    decreases cmds.len(),
{
    if cmds.len() == 0 {
        Seq::empty()
    } else {
        cmd_rows(cmds.drop_last()) + cmd_row(cmds.last().0, cmds.last().1)
    }
}

pub open spec fn help_ops(cmds: Seq<(&str, &str)>) -> Seq<OpView> {
    seq![OpView::Char('\n')] + border('\u{C9}', '\u{BB}')
        + seq![OpView::Char('\u{BA}'), col("  Available commands"@, Color::Yellow)]
        + repeat_op(txt(" "@), (NAME_W + HELP_W + 2 - 21) as nat)
        + seq![OpView::Char('\u{BA}'), OpView::Char('\n')]
        + border('\u{CC}', '\u{B9}')
        + cmd_rows(cmds)
        + border('\u{C8}', '\u{BC}')
}

fn print_border(console: &mut Console, left: char, right: char)
    ensures
        final(console)@ == old(console)@ + border(left, right),
{
    console.put_char(left);
    put_char_n(console, '\u{CD}', NAME_W + HELP_W + 2);
    console.put_char(right);
    console.put_char('\n');
    assert(console@ =~= old(console)@ + border(left, right));
}

fn print_cmd_table(console: &mut Console, name: &str, help: &str)
    ensures
        final(console)@ == old(console)@ + cmd_row(name, help),
{
    console.put_char('\u{BA}');
    console.print(" ");
    console.print_colored(name, Color::Prompt);
    let pad = NAME_W.saturating_sub(name.len());
    print_n(console, " ", pad);
    console.print(" ");
    console.put_char('\u{BA}');
    console.print(" ");
    console.print_colored(help, Color::Foreground);
    let help_pad = HELP_W.saturating_sub(help.len());
    print_n(console, " ", help_pad);
    console.print(" ");
    console.put_char('\u{BA}');
    console.put_char('\n');
    assert(console@ =~= old(console)@ + cmd_row(name, help));
}

/// `cmds` are the built-in commands followed by those registered later,
/// each as (name, help).
pub fn run(args: &[&str], console: &mut Console, cmds: &Vec<(&str, &str)>) -> (r: CmdResult)
    ensures
        r == CmdResult::Done,
        final(console)@ == old(console)@ + help_ops(cmds@),
{
    console.put_char('\n');
    print_border(console, '\u{C9}', '\u{BB}');
    console.put_char('\u{BA}');
    console.print_colored("  Available commands", Color::Yellow);
    print_n(console, " ", NAME_W + HELP_W + 2 - 21);
    console.put_char('\u{BA}');
    console.put_char('\n');
    print_border(console, '\u{CC}', '\u{B9}');
    let ghost start = console@;
    let mut i: usize = 0;
    while i < cmds.len()
        invariant
            i <= cmds@.len(),
            console@ == start + cmd_rows(cmds@.take(i as int)),
        decreases cmds.len() - i,
    {
        let ghost before = console@;
        print_cmd_table(console, cmds[i].0, cmds[i].1);
        proof {
            let t = cmds@.take(i + 1);
            assert(t.drop_last() =~= cmds@.take(i as int));
            assert(t.last() == cmds@[i as int]);
            assert(console@ =~= start + cmd_rows(t));
        }
        i = i + 1;
    }
    assert(cmds@.take(cmds@.len() as int) =~= cmds@);
    print_border(console, '\u{C8}', '\u{BC}');
    assert(console@ =~= old(console)@ + help_ops(cmds@));
    CmdResult::Done
}

} // verus!
