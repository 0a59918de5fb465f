//! `memmap`: the boot loader's memory map.
use vstd::prelude::*;
use crate::console::{Console, OpView, Color, txt, col, dec, hex_fixed, push_dec, push_hex_fixed};
use super::{CmdResult, repeat_op, print_n};
use super::systest::MemmapEntry;

verus! {

/// Name of a Limine memory map type as this listing shows it.
pub open spec fn type_label(t: u64) -> Seq<char> {
    if t == 0 { "Usable"@ }
    else if t == 1 { "Reserved"@ }
    else if t == 2 { "ACPI Reclaim"@ }
    else if t == 3 { "ACPI NVS"@ }
    else if t == 4 { "Bad Memory"@ }
    else if t == 5 { "Boot Reclaim"@ }
    else if t == 6 { "Kernel/Mod"@ }
    else if t == 7 { "Framebuffer"@ }
    else { "Unknown"@ }
}

fn type_label_str(t: u64) -> (s: &'static str)
    ensures
        s@ == type_label(t),
        s@.len() <= 23,
        s.len() == s@.len(),
{
    let s = if t == 0 { "Usable" }
    else if t == 1 { "Reserved" }
    else if t == 2 { "ACPI Reclaim" }
    else if t == 3 { "ACPI NVS" }
    else if t == 4 { "Bad Memory" }
    else if t == 5 { "Boot Reclaim" }
    else if t == 6 { "Kernel/Mod" }
    else if t == 7 { "Framebuffer" }
    else { "Unknown" };
    proof {
        reveal_strlit("Usable");
        reveal_strlit("Reserved");
        reveal_strlit("ACPI Reclaim");
        reveal_strlit("ACPI NVS");
        reveal_strlit("Bad Memory");
        reveal_strlit("Boot Reclaim");
        reveal_strlit("Kernel/Mod");
        reveal_strlit("Framebuffer");
        reveal_strlit("Unknown");
    }
    assert(s.is_ascii());
    s
}

/// The size of `len` bytes in whole GiB, MiB or KiB, the largest unit
/// reaching one.
pub open spec fn size_text(len: u64) -> Seq<char> {
    let kb = len as nat / 1024;
    if kb >= 1024 * 1024 {
        dec(kb / (1024 * 1024)) + " GB"@
    } else if kb >= 1024 {
        dec(kb / 1024) + " MB"@
    } else {
        dec(kb) + " KB"@
    }
}

pub open spec fn entry_line(e: MemmapEntry) -> Seq<OpView> {
    let label = type_label(e.type_code);
    seq![txt("  "@), txt(label)] + repeat_op(txt(" "@), (23 - label.len()) as nat)
        + seq![txt("0x"@ + hex_fixed(e.base as nat, 16, false)), txt("  "@), txt(size_text(e.length)), txt("\n"@)]
}

pub open spec fn entry_lines(es: Seq<MemmapEntry>) -> Seq<OpView>
    decreases es.len(),
{
    if es.len() == 0 { Seq::empty() } else { entry_lines(es.drop_last()) + entry_line(es.last()) }
}

pub open spec fn memmap_ops(entries: Option<Seq<MemmapEntry>>) -> Seq<OpView> {
    seq![col("Memory Map:\n"@, Color::Cyan), txt("  Type                    Base              Size\n"@)] + match entries {
        Some(es) => entry_lines(es),
        None => seq![col("  Memory map not available\n"@, Color::Red)],
    }
}

/// Lists each entry: its type padded to 23 columns, its base as 16 hex
/// digits after `0x`, and its size.
pub fn run(args: &[&str], console: &mut Console, entries: &Option<Vec<MemmapEntry>>) -> (r: CmdResult)
    ensures
        r == CmdResult::Done,
        final(console)@ == old(console)@ + memmap_ops(match entries { Some(es) => Some(es@), None => None }),
{
    console.print_colored("Memory Map:\n", Color::Cyan);
    console.print("  Type                    Base              Size\n");
    match entries {
        Some(es) => {
            let ghost start = console@;
            let mut i: usize = 0;
            while i < es.len()
                invariant
                    i <= es@.len(),
                    console@ == start + entry_lines(es@.take(i as int)),
                decreases es.len() - i,
            {
                let e = &es[i];
                let ghost before = console@;
                let label = type_label_str(e.type_code);
                console.print("  ");
                console.print(label);
                let pad = 23 - label.len();
                print_n(console, " ", pad);
                let mut base = String::from_str("0x");
                push_hex_fixed(&mut base, e.base, 16, false);
                console.print_string(base);
                console.print("  ");
                let size_kb = e.length / 1024;
                let mut size = String::new();
                if size_kb >= 1024 * 1024 {
                    push_dec(&mut size, size_kb / (1024 * 1024));
                    size.append(" GB");
                } else if size_kb >= 1024 {
                    push_dec(&mut size, size_kb / 1024);
                    size.append(" MB");
                } else {
                    push_dec(&mut size, size_kb);
                    size.append(" KB");
                }
                console.print_string(size);
                console.print("\n");
                proof {
                    let t = es@.take(i + 1);
                    assert(t.drop_last() =~= es@.take(i as int));
                    assert(t.last() == es@[i as int]);
                    assert(console@ =~= before + entry_line(es@[i as int]));
                }
                i = i + 1;
            }
            assert(es@.take(es@.len() as int) =~= es@);
        }
        None => {
            console.print_colored("  Memory map not available\n", Color::Red);
        }
    }
    assert(console@ =~= old(console)@ + memmap_ops(match entries { Some(es) => Some(es@), None => None }));
    CmdResult::Done
}

} // verus!
