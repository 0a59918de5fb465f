//! `echo`: prints its arguments separated by spaces.
use vstd::prelude::*;
use crate::console::{Console, OpView, txt};
use super::{CmdResult, arg_texts};

verus! {

/// The words printed one after the other with a space before each but the first.
pub open spec fn words_ops(ws: Seq<Seq<char>>) -> Seq<OpView>
    decreases ws.len(),
{
    if ws.len() == 0 {
        Seq::empty()
    } else {
        words_ops(ws.drop_last()) + (if ws.len() > 1 { seq![txt(" "@)] } else { Seq::empty() }) + seq![txt(ws.last())]
    }
}

pub fn run(args: &[&str], console: &mut Console) -> (r: CmdResult)
    ensures
        r == CmdResult::Done,
        final(console)@ == old(console)@ + words_ops(arg_texts(args@)) + seq![OpView::Char('\n')],
{
    let ghost start = console@;
    let mut i: usize = 0;
    while i < args.len()
        invariant
            i <= args@.len(),
            console@ == start + words_ops(arg_texts(args@.take(i as int))),
        decreases args.len() - i,
    {
        let ghost before = console@;
        if i > 0 {
            console.print(" ");
        }
        console.print(args[i]);
        proof {
            let ws = arg_texts(args@.take(i + 1));
            assert(ws.drop_last() =~= arg_texts(args@.take(i as int)));
            assert(ws.last() == args@[i as int]@);
            assert(console@ =~= start + words_ops(ws));
        }
        i = i + 1;
    }
    assert(args@.take(args@.len() as int) =~= args@);
    console.put_char('\n');
    CmdResult::Done
}

} // verus!
