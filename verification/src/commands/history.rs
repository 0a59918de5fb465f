//! `history`: the numbered command history.
use vstd::prelude::*;
use crate::console::{Console, OpView, txt, dec};
use super::{CmdResult, print_dec};

verus! {

/// The line for history entry `i` (numbered from 1, right-aligned in three columns).
pub open spec fn history_line(i: nat, entry: Seq<char>) -> Seq<OpView> {
    let num = i + 1;
    (if num < 10 { seq![txt("  "@)] } else if num < 100 { seq![txt(" "@)] } else { Seq::empty() })
        + seq![txt(dec(num)), txt("  "@), txt(entry), OpView::Char('\n')]
}

pub open spec fn history_lines(entries: Seq<Seq<char>>) -> Seq<OpView>
    decreases entries.len(),
{
    if entries.len() == 0 {
        Seq::empty()
    } else {
        history_lines(entries.drop_last()) + history_line((entries.len() - 1) as nat, entries.last())
    }
}

pub open spec fn history_ops(entries: Seq<Seq<char>>) -> Seq<OpView> {
    if entries.len() == 0 {
        seq![txt("История команд пуста\n"@)]
    } else {
        history_lines(entries)
    }
}

pub fn run(args: &[&str], console: &mut Console, entries: &Vec<String>) -> (r: CmdResult)
    requires
        entries@.len() < u64::MAX,
    ensures
        r == CmdResult::Done,
        final(console)@ == old(console)@ + history_ops(entries@.map_values(|s: String| s@)),
{
    let ghost all = entries@.map_values(|s: String| s@);
    if entries.len() == 0 {
        console.print("История команд пуста\n");
        assert(console@ =~= old(console)@ + history_ops(all));
        return CmdResult::Done;
    }
    let mut i: usize = 0;
    while i < entries.len()
        invariant
            i <= entries@.len(),
            entries@.len() < u64::MAX,
            all == entries@.map_values(|s: String| s@),
            console@ == old(console)@ + history_lines(all.take(i as int)),
        decreases entries.len() - i,
    {
        let ghost before = console@;
        let num = i + 1;
        if num < 10 {
            console.print("  ");
        } else if num < 100 {
            console.print(" ");
        }
        print_dec(console, num as u64);
        console.print("  ");
        console.print(entries[i].as_str());
        console.put_char('\n');
        proof {
            let t = all.take(i + 1);
            assert(t.drop_last() =~= all.take(i as int));
            assert(t.last() == entries@[i as int]@);
            assert(console@ =~= before + history_line(i as nat, entries@[i as int]@));
        }
        i = i + 1;
    }
    assert(all.take(all.len() as int) =~= all);
    CmdResult::Done
}

} // verus!
