//! `id`: the current user's identity.
use vstd::prelude::*;
use crate::console::{Console, OpView, txt, dec};
use super::CmdResult;

verus! {

pub open spec fn id_ops(uid: u32, username: Seq<char>, gid: u32) -> Seq<OpView> {
    seq![txt("uid="@), txt(dec(uid as nat)), txt("("@), txt(username), txt(") gid="@), txt(dec(gid as nat)),
        txt("(users)"@), OpView::Char('\n')]
}

/// Prints `uid=U(name) gid=G(users)` for the current user.
pub fn run(args: &[&str], console: &mut Console, uid: u32, username: &str, gid: u32) -> (r: CmdResult)
    ensures
        r == CmdResult::Done,
        final(console)@ == old(console)@ + id_ops(uid, username@, gid),
{
    console.print("uid=");
    console.print_num(uid as usize);
    console.print("(");
    console.print(username);
    console.print(") gid=");
    console.print_num(gid as usize);
    console.print("(users)");
    console.put_char('\n');
    assert(console@ =~= old(console)@ + id_ops(uid, username@, gid));
    CmdResult::Done
}

} // verus!
