//! `heap`: kernel heap usage.
use vstd::prelude::*;
use crate::console::{Console, OpView, Color, col, dec, push_dec};
use super::CmdResult;

verus! {

pub open spec fn heap_ops(used: nat, total: nat) -> Seq<OpView> {
    let free: nat = if total >= used { (total - used) as nat } else { 0 };
    let pct: nat = if total != 0 { used * 100 / total } else { 0 };
    seq![
        col("Heap (free-list allocator)\n"@, Color::Cyan),
        col("  used:  "@ + dec(used) + " bytes ("@ + dec(used / 1024) + " KB)\n"@, Color::Foreground),
        col("  free:  "@ + dec(free) + " bytes ("@ + dec(free / 1024) + " KB)\n"@, Color::Green),
        col("  total: "@ + dec(total) + " bytes ("@ + dec(total / 1024) + " KB)  ["@ + dec(pct) + "% used]\n"@, Color::Foreground),
    ]
}

/// Prints used, free and total heap bytes (and KiB), and the share used.
pub fn run(args: &[&str], console: &mut Console, used: usize, total: usize) -> (r: CmdResult)
    requires
        total != 0 ==> used * 100 <= usize::MAX,
    ensures
        r == CmdResult::Done,
        final(console)@ == old(console)@ + heap_ops(used as nat, total as nat),
{
    let free = total.saturating_sub(used);
    let pct = if total != 0 { (used * 100) / total } else { 0 };
    console.print_colored("Heap (free-list allocator)\n", Color::Cyan);

    let mut line = String::from_str("  used:  ");
    push_dec(&mut line, used as u64);
    line.append(" bytes (");
    push_dec(&mut line, (used / 1024) as u64);
    line.append(" KB)\n");
    console.print_string_colored(line, Color::Foreground);

    let mut line = String::from_str("  free:  ");
    push_dec(&mut line, free as u64);
    line.append(" bytes (");
    push_dec(&mut line, (free / 1024) as u64);
    line.append(" KB)\n");
    console.print_string_colored(line, Color::Green);

    let mut line = String::from_str("  total: ");
    push_dec(&mut line, total as u64);
    line.append(" bytes (");
    push_dec(&mut line, (total / 1024) as u64);
    line.append(" KB)  [");
    push_dec(&mut line, pct as u64);
    line.append("% used]\n");
    console.print_string_colored(line, Color::Foreground);
    assert(console@ =~= old(console)@ + heap_ops(used as nat, total as nat));
    CmdResult::Done
}

} // verus!
