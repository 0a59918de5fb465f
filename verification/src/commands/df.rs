//! `df`: file systems and memory use.
use vstd::prelude::*;
use crate::console::{Console, OpView, Color, txt, col, dec};
use super::{CmdResult, print_dec};

verus! {

pub open spec fn df_ops(heap_used: nat, heap_total: nat, used_frames: nat, total_frames: nat) -> Seq<OpView> {
    let used_kb = heap_used / 1024;
    let total_kb = heap_total / 1024;
    seq![
        col("Filesystem      Size     Used    Avail   Mount\n"@, Color::Cyan),
        col("-----------     ------   ------  ------  -------\n"@, Color::Cyan),
        col("ramfs           "@, Color::Green),
        txt(dec(total_kb)),
        txt("KB   "@),
        txt(dec(used_kb)),
        txt("KB   "@),
        txt(dec((total_kb - used_kb) as nat)),
        txt("KB   /\n"@),
        col("procfs          "@, Color::Green),
        txt("0KB     0KB     0KB     /proc\n"@),
        col("sysfs           "@, Color::Green),
        txt("0KB     0KB     0KB     /sys\n"@),
        col("devtmpfs        "@, Color::Green),
        txt("0KB     0KB     0KB     /dev\n"@),
        txt("\n"@),
        col("Heap: "@, Color::Yellow),
        txt("used="@),
        txt(dec(heap_used)),
        txt(" total="@),
        txt(dec(heap_total)),
        txt("\n"@),
        col("RAM:  "@, Color::Yellow),
        txt(dec(used_frames * 4096 / (1024 * 1024))),
        txt("MB / "@),
        txt(dec(total_frames * 4096 / (1024 * 1024))),
        txt("MB used\n"@),
    ]
}

/// Heap bytes in use and in total, and physical frames (4 KiB) in use and
/// in total, as the memory managers report them.
pub fn run(args: &[&str], console: &mut Console, heap_used: usize, heap_total: usize, used_frames: usize, total_frames: usize) -> (r: CmdResult)
    requires
        heap_used / 1024 <= heap_total / 1024,
        used_frames * 4096 <= usize::MAX,
        total_frames * 4096 <= usize::MAX,
    ensures
        r == CmdResult::Done,
        final(console)@ == old(console)@ + df_ops(heap_used as nat, heap_total as nat, used_frames as nat, total_frames as nat),
{
    console.print_colored("Filesystem      Size     Used    Avail   Mount\n", Color::Cyan);
    console.print_colored("-----------     ------   ------  ------  -------\n", Color::Cyan);
    let used_kb = heap_used / 1024;
    let total_kb = heap_total / 1024;
    let free_kb = total_kb - used_kb;
    console.print_colored("ramfs           ", Color::Green);
    print_dec(console, total_kb as u64);
    console.print("KB   ");
    print_dec(console, used_kb as u64);
    console.print("KB   ");
    print_dec(console, free_kb as u64);
    console.print("KB   /\n");
    console.print_colored("procfs          ", Color::Green);
    console.print("0KB     0KB     0KB     /proc\n");
    console.print_colored("sysfs           ", Color::Green);
    console.print("0KB     0KB     0KB     /sys\n");
    console.print_colored("devtmpfs        ", Color::Green);
    console.print("0KB     0KB     0KB     /dev\n");
    console.print("\n");
    console.print_colored("Heap: ", Color::Yellow);
    console.print("used=");
    print_dec(console, heap_used as u64);
    console.print(" total=");
    print_dec(console, heap_total as u64);
    console.print("\n");
    let used_mb = (used_frames * 4096) / (1024 * 1024);
    let total_mb = (total_frames * 4096) / (1024 * 1024);
    console.print_colored("RAM:  ", Color::Yellow);
    print_dec(console, used_mb as u64);
    console.print("MB / ");
    print_dec(console, total_mb as u64);
    console.print("MB used\n");
    assert(console@ =~= old(console)@ + df_ops(heap_used as nat, heap_total as nat, used_frames as nat, total_frames as nat));
    CmdResult::Done
}

} // verus!
