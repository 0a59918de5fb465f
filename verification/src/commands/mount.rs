//! `mount`: lists the mounted file systems or mounts a new one.
use vstd::prelude::*;
use crate::console::{Console, OpView, Color, txt, col, dec, push_dec};
use crate::text::str_eq;
use super::CmdResult;

verus! {

/// How mounting a RAM file system went.
#[derive(PartialEq, Eq, Structural, Clone, Copy, Debug)]
pub enum RamfsMount {
    Mounted,
    AlreadyMounted,
    Failed,
}

pub open spec fn mount_list_lines(mounts: Seq<Seq<char>>) -> Seq<OpView>
    decreases mounts.len(),
{
    if mounts.len() == 0 {
        Seq::empty()
    } else {
        mount_list_lines(mounts.drop_last()) + seq![txt("  "@ + mounts.last() + "\n"@)]
    }
}

pub open spec fn mount_ops(args: Seq<&str>, mounts: Seq<Seq<char>>, disk_count: usize) -> Seq<OpView> {
    if args.len() == 0 {
        seq![col("Mounted filesystems:\n"@, Color::Cyan), col("====================\n"@, Color::Cyan)]
            + (if mounts.len() == 0 { seq![col("  No filesystems mounted\n"@, Color::Red)] } else { mount_list_lines(mounts) })
            + seq![
                txt("\n"@),
                col("Available disk devices:\n"@, Color::Yellow),
                txt("  Total disks: "@ + dec(disk_count as nat) + "\n"@),
                txt("\n"@),
                col("Usage:\n"@, Color::Cyan),
                txt("  mount                          - show mounted filesystems\n"@),
                txt("  mount <path> fat32 <disk_id>   - mount FAT32 disk\n"@),
                txt("  mount <path> ext [ro|rw]       - mount EXT2/3/4 disk\n"@),
                txt("  mount <path> ramfs             - mount RAMFS\n"@),
            ]
    } else {
        let path = args[0]@;
        seq![col("Mounting filesystems...\n"@, Color::Yellow)] + (if args.len() >= 2 {
            let t = args[1]@;
            if t == "ramfs"@ {
                seq![txt("  Mounting RAMFS at "@ + path + "... "@)]
            } else if t == "fat32"@ {
                seq![txt("  Mounting FAT32 at "@ + path + "... "@), col("NOT YET IMPLEMENTED\n"@, Color::Yellow),
                    txt("  (Need real disk driver for FAT32)\n"@)]
            } else if t == "ext"@ {
                seq![txt("  Mounting EXT at "@ + path + "... "@), col("NOT YET IMPLEMENTED\n"@, Color::Yellow),
                    txt("  (Need real disk driver for EXT)\n"@)]
            } else {
                seq![col("Unknown filesystem type: "@, Color::Red), txt(t), txt("\n"@)]
            }
        } else {
            seq![col("Usage: mount <path> <filesystem_type>\n"@, Color::Red)]
        })
    }
}

/// Without arguments, the mount list (`mounts`, one line each) and the
/// number of disks; `mount <path> ramfs` hands back the path at which to
/// mount a new RAM file system, whose outcome `finish_ramfs` reports.
pub fn run(args: &[&str], console: &mut Console, mounts: &Vec<String>, disk_count: usize) -> (r: (CmdResult, Option<String>))
    ensures
        r.0 == CmdResult::Done,
        final(console)@ == old(console)@ + mount_ops(args@, mounts@.map_values(|s: String| s@), disk_count),
        r.1 is Some <==> (args@.len() >= 2 && args@[1]@ == "ramfs"@),
        r.1 matches Some(p) ==> p@ == args@[0]@,
{
    let ghost ms = mounts@.map_values(|s: String| s@);
    if args.len() == 0 {
        console.print_colored("Mounted filesystems:\n", Color::Cyan);
        console.print_colored("====================\n", Color::Cyan);
        let ghost head = console@;
        if mounts.len() == 0 {
            console.print_colored("  No filesystems mounted\n", Color::Red);
        } else {
            let mut i: usize = 0;
            while i < mounts.len()
                invariant
                    i <= mounts@.len(),
                    ms == mounts@.map_values(|s: String| s@),
                    console@ == head + mount_list_lines(ms.take(i as int)),
                decreases mounts.len() - i,
            {
                let mut line = String::from_str("  ");
                line.append(mounts[i].as_str());
                line.append("\n");
                console.print_string(line);
                proof {
                    let t = ms.take(i + 1);
                    assert(t.drop_last() =~= ms.take(i as int));
                    assert(t.last() == mounts@[i as int]@);
                    assert(console@ =~= head + mount_list_lines(t));
                }
                i = i + 1;
            }
            assert(ms.take(ms.len() as int) =~= ms);
        }
        console.print("\n");
        console.print_colored("Available disk devices:\n", Color::Yellow);
        let mut line = String::from_str("  Total disks: ");
        push_dec(&mut line, disk_count as u64);
        line.append("\n");
        console.print_string(line);
        console.print("\n");
        console.print_colored("Usage:\n", Color::Cyan);
        console.print("  mount                          - show mounted filesystems\n");
        console.print("  mount <path> fat32 <disk_id>   - mount FAT32 disk\n");
        console.print("  mount <path> ext [ro|rw]       - mount EXT2/3/4 disk\n");
        console.print("  mount <path> ramfs             - mount RAMFS\n");
        assert(console@ =~= old(console)@ + mount_ops(args@, ms, disk_count));
        return (CmdResult::Done, None);
    }
    console.print_colored("Mounting filesystems...\n", Color::Yellow);
    let path = args[0];
    let mut target: Option<String> = None;
    if args.len() >= 2 {
        let fs_type = args[1];
        if str_eq(fs_type, "ramfs") {
            let mut line = String::from_str("  Mounting RAMFS at ");
            line.append(path);
            line.append("... ");
            console.print_string(line);
            target = Some(String::from_str(path));
        } else if str_eq(fs_type, "fat32") {
            let mut line = String::from_str("  Mounting FAT32 at ");
            line.append(path);
            line.append("... ");
            console.print_string(line);
            console.print_colored("NOT YET IMPLEMENTED\n", Color::Yellow);
            console.print("  (Need real disk driver for FAT32)\n");
        } else if str_eq(fs_type, "ext") {
            let mut line = String::from_str("  Mounting EXT at ");
            line.append(path);
            line.append("... ");
            console.print_string(line);
            console.print_colored("NOT YET IMPLEMENTED\n", Color::Yellow);
            console.print("  (Need real disk driver for EXT)\n");
        } else {
            console.print_colored("Unknown filesystem type: ", Color::Red);
            console.print(fs_type);
            console.print("\n");
        }
    } else {
        console.print_colored("Usage: mount <path> <filesystem_type>\n", Color::Red);
    }
    assert(console@ =~= old(console)@ + mount_ops(args@, ms, disk_count));
    (CmdResult::Done, target)
}

/// Reports the outcome of mounting the RAM file system.
pub fn finish_ramfs(console: &mut Console, outcome: RamfsMount)
    ensures
        final(console)@ == old(console)@.push(match outcome {
            RamfsMount::Mounted => col("OK\n"@, Color::Green),
            RamfsMount::AlreadyMounted => col("FAILED (already mounted)\n"@, Color::Red),
            RamfsMount::Failed => col("FAILED\n"@, Color::Red),
        }),
{
    match outcome {
        RamfsMount::Mounted => console.print_colored("OK\n", Color::Green),
        RamfsMount::AlreadyMounted => console.print_colored("FAILED (already mounted)\n", Color::Red),
        RamfsMount::Failed => console.print_colored("FAILED\n", Color::Red),
    }
}

} // verus!
