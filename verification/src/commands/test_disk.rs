//! `test-disk`: RAM disks for testing the disk file systems.
use vstd::prelude::*;
use crate::console::{Console, OpView, Color, txt, col, dec, push_dec};
use crate::text::str_eq;
use super::{CmdResult, parse_unsigned, parse_bounded};

verus! {

pub open spec fn id_list(n: nat) -> Seq<OpView>
    decreases n,
{
    if n == 0 { Seq::empty() } else { id_list((n - 1) as nat) + seq![txt(dec((n - 1) as nat) + " "@)] }
}

/// What `test-disk` prints, and the size in MiB of a RAM disk to create
/// (it gets the next disk id, `disk_count`).
pub open spec fn test_disk_outcome(args: Seq<&str>, disk_count: usize) -> (Seq<OpView>, Option<usize>) {
    let cmd = if args.len() > 0 { args[0]@ } else { "help"@ };
    if cmd == "help"@ {
        (seq![
            col("Disk testing commands:\n"@, Color::Cyan),
            txt("  test-disk ram <size_mb>    - create RAM disk (for FAT32/EXT testing)\n"@),
            txt("  test-disk list             - list available disks\n"@),
            txt("  test-disk info <id>        - show disk info\n"@),
            txt("  test-disk read <id> <sec>  - read sector from disk\n"@),
        ], None)
    } else if cmd == "ram"@ {
        if args.len() < 2 {
            (seq![col("Usage: test-disk ram <size_mb>\n"@, Color::Red)], None)
        } else {
            match parse_unsigned(args[1]@, usize::MAX as int) {
                None => (seq![col("Invalid size\n"@, Color::Red)], None),
                Some(size) => (seq![
                    txt("Creating RAM disk "@ + dec(size as nat) + " MB... "@),
                    col("OK\n"@, Color::Green),
                    txt("  Disk ID: "@ + dec(disk_count as nat) + "\n"@),
                ], Some(size as usize)),
            }
        }
    } else if cmd == "list"@ {
        (seq![txt("Total disks: "@ + dec(disk_count as nat) + "\n"@)]
            + (if disk_count > 0 { seq![txt("  IDs: "@)] + id_list(disk_count as nat) + seq![txt("\n"@)] } else { Seq::empty() }),
        None)
    } else if cmd == "info"@ {
        if args.len() < 2 {
            (seq![col("Usage: test-disk info <disk_id>\n"@, Color::Red)], None)
        } else {
            match parse_unsigned(args[1]@, usize::MAX as int) {
                None => (seq![col("Invalid disk ID\n"@, Color::Red)], None),
                Some(id) => if id < disk_count {
                    (seq![
                        col("Disk "@ + dec(id as nat) + " info:\n"@, Color::Yellow),
                        txt("  Type: RamDisk (in-memory)\n"@),
                        txt("  Sector size: 512 bytes\n"@),
                        col("  Status: Ready\n"@, Color::Green),
                    ], None)
                } else {
                    (seq![col("Disk "@ + dec(id as nat) + " not found\n"@, Color::Red)], None)
                },
            }
        }
    } else {
        (seq![col("Unknown command: "@ + cmd + "\n"@, Color::Red)], None)
    }
}

fn parse_usize(s: &str) -> (r: Option<usize>)
    ensures
        r is Some <==> parse_unsigned(s@, usize::MAX as int) is Some,
        r matches Some(v) ==> parse_unsigned(s@, usize::MAX as int) == Some(v as int),
{
    match parse_bounded(s, usize::MAX as u64) {
        Some(v) => Some(v as usize),
        None => None,
    }
}

/// `disk_count` is the number of disks the disk manager holds.
pub fn run(args: &[&str], console: &mut Console, disk_count: usize) -> (r: (CmdResult, Option<usize>))
    requires
        disk_count < u64::MAX,
    ensures
        r.0 == CmdResult::Done,
        final(console)@ == old(console)@ + test_disk_outcome(args@, disk_count).0,
        r.1 == test_disk_outcome(args@, disk_count).1,
{
    let cmd = if args.len() > 0 { args[0] } else { "help" };
    let mut create: Option<usize> = None;
    if str_eq(cmd, "help") {
        console.print_colored("Disk testing commands:\n", Color::Cyan);
        console.print("  test-disk ram <size_mb>    - create RAM disk (for FAT32/EXT testing)\n");
        console.print("  test-disk list             - list available disks\n");
        console.print("  test-disk info <id>        - show disk info\n");
        console.print("  test-disk read <id> <sec>  - read sector from disk\n");
    } else if str_eq(cmd, "ram") {
        if args.len() < 2 {
            console.print_colored("Usage: test-disk ram <size_mb>\n", Color::Red);
        } else {
            match parse_usize(args[1]) {
                None => console.print_colored("Invalid size\n", Color::Red),
                Some(size) => {
                    let mut line = String::from_str("Creating RAM disk ");
                    push_dec(&mut line, size as u64);
                    line.append(" MB... ");
                    console.print_string(line);
                    console.print_colored("OK\n", Color::Green);
                    let mut line = String::from_str("  Disk ID: ");
                    push_dec(&mut line, disk_count as u64);
                    line.append("\n");
                    console.print_string(line);
                    create = Some(size);
                }
            }
        }
    } else if str_eq(cmd, "list") {
        let mut line = String::from_str("Total disks: ");
        push_dec(&mut line, disk_count as u64);
        line.append("\n");
        console.print_string(line);
        if disk_count > 0 {
            console.print("  IDs: ");
            let ghost start = console@;
            let mut i: usize = 0;
            while i < disk_count
                invariant
                    i <= disk_count,
                    disk_count < u64::MAX,
                    console@ == start + id_list(i as nat),
                decreases disk_count - i,
            {
                let mut s = String::new();
                push_dec(&mut s, i as u64);
                s.append(" ");
                console.print_string(s);
                i = i + 1;
                assert(console@ =~= start + id_list(i as nat));
            }
            console.print("\n");
        }
    } else if str_eq(cmd, "info") {
        if args.len() < 2 {
            console.print_colored("Usage: test-disk info <disk_id>\n", Color::Red);
        } else {
            match parse_usize(args[1]) {
                None => console.print_colored("Invalid disk ID\n", Color::Red),
                Some(id) => {
                    if id < disk_count {
                        let mut line = String::from_str("Disk ");
                        push_dec(&mut line, id as u64);
                        line.append(" info:\n");
                        console.print_string_colored(line, Color::Yellow);
                        console.print("  Type: RamDisk (in-memory)\n");
                        console.print("  Sector size: 512 bytes\n");
                        console.print_colored("  Status: Ready\n", Color::Green);
                    } else {
                        let mut line = String::from_str("Disk ");
                        push_dec(&mut line, id as u64);
                        line.append(" not found\n");
                        console.print_string_colored(line, Color::Red);
                    }
                }
            }
        }
    } else {
        let mut line = String::from_str("Unknown command: ");
        line.append(cmd);
        line.append("\n");
        console.print_string_colored(line, Color::Red);
    }
    assert(console@ =~= old(console)@ + test_disk_outcome(args@, disk_count).0);
    (CmdResult::Done, create)
}

} // verus!
