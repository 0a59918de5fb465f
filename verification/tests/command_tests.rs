use kernel::console::{Console, Color, ConsoleOp};
use kernel::commands::CmdResult;
use kernel::commands::{echo, kill, date, uptime, uname, version, heap, history, rm, cp, tasks, help, hostname, test_disk, diag, mount, net, edit, systest, memmap, parse_bounded};
use kernel::commands::version::VersionInfo;
use kernel::commands::cp::CopyOutcome;
use kernel::commands::hostname::HostnameIo;
use kernel::commands::diag::DiagTest;
use kernel::commands::edit::{Editor, EditKey};
use kernel::commands::systest::{SystestAction, ChoiceKey, MemmapEntry};

fn text(c: &Console) -> String {
    c.transcript().into_iter().collect()
}

fn vinfo() -> VersionInfo {
    VersionInfo {
        kernel_version: "0.5.0".to_string(),
        kernel_codename: "Aurora".to_string(),
        architecture: "x86_64".to_string(),
        os_version: "1.2".to_string(),
        os_codename: "Breeze".to_string(),
    }
}

#[test]
fn echo_joins_arguments() {
    let mut c = Console::new(0, 0, 0);
    assert_eq!(echo::run(&["hello", "world"], &mut c), CmdResult::Done);
    assert_eq!(text(&c), "hello world\n");
    let mut c = Console::new(0, 0, 0);
    echo::run(&[], &mut c);
    assert_eq!(text(&c), "\n");
}

#[test]
fn parse_numbers_like_std() {
    assert_eq!(parse_bounded("42", u32::MAX as u64), Some(42));
    assert_eq!(parse_bounded("+7", u32::MAX as u64), Some(7));
    assert_eq!(parse_bounded("4294967295", u32::MAX as u64), Some(4294967295));
    assert_eq!(parse_bounded("4294967296", u32::MAX as u64), None);
    assert_eq!(parse_bounded("", u32::MAX as u64), None);
    assert_eq!(parse_bounded("+", u32::MAX as u64), None);
    assert_eq!(parse_bounded("-1", u32::MAX as u64), None);
    assert_eq!(parse_bounded("12a", u32::MAX as u64), None);
}

#[test]
fn kill_outcomes() {
    let mut c = Console::new(0, 0, 0);
    assert_eq!(kill::run(&["17"], &mut c), (CmdResult::Done, Some(17)));
    assert_eq!(text(&c), "Process 17 killed\n");
    let mut c = Console::new(0, 0, 0);
    assert_eq!(kill::run(&["0"], &mut c).1, None);
    assert_eq!(text(&c), "Cannot kill kernel process (kshell)\n");
    let mut c = Console::new(0, 0, 0);
    assert_eq!(kill::run(&["x"], &mut c).1, None);
    assert_eq!(text(&c), "Invalid PID\n");
    let mut c = Console::new(0, 0, 0);
    assert_eq!(kill::run(&[], &mut c).1, None);
    assert_eq!(text(&c), "Usage: kill <PID>\n");
}

#[test]
fn date_and_uptime() {
    let mut c = Console::new(0, 0, 0);
    date::run(&[], &mut c, 100 * (3600 + 2 * 60 + 5));
    assert_eq!(text(&c), "1:02:05 UTC\n");
    let mut c = Console::new(0, 0, 0);
    uptime::run(&[], &mut c, 100 * 3725 + 40, 100);
    assert_eq!(text(&c), "System Uptime:\n  Timer ticks: 372540\n  Uptime:      1h 2m 5s\n");
}

#[test]
fn uname_and_version() {
    let v = vinfo();
    let mut c = Console::new(0, 0, 0);
    uname::run(&[], &mut c, &v);
    assert_eq!(text(&c), "Vibra 0.5.0 Aurora x86_64\n");
    let mut c = Console::new(0, 0, 0);
    uname::run(&["-a"], &mut c, &v);
    assert_eq!(text(&c), "Vibra 0.5.0 Aurora vibra x86_64 1.2 \"Breeze\"\n");
    let mut c = Console::new(0, 0, 0);
    uname::run(&["-q"], &mut c, &v);
    assert_eq!(text(&c), "Usage: uname [-a|-r|-s|-m|-o]\n");
    let mut c = Console::new(0, 0, 0);
    version::run(&["kernel"], &mut c, &v);
    assert!(text(&c).starts_with("Vibra Kernel v0.5.0 \"Aurora\"\n  Architecture : x86_64\n"));
    let mut c = Console::new(0, 0, 0);
    version::run(&[], &mut c, &v);
    assert!(text(&c).starts_with("Vibra OS v1.2 \"Breeze\"\n  Kernel: v0.5.0 \"Aurora\"\n"));
}

#[test]
fn heap_report() {
    let mut c = Console::new(0, 0, 0);
    heap::run(&[], &mut c, 2048, 8192);
    assert_eq!(
        text(&c),
        "Heap (free-list allocator)\n  used:  2048 bytes (2 KB)\n  free:  6144 bytes (6 KB)\n  total: 8192 bytes (8 KB)  [25% used]\n"
    );
    let mut c = Console::new(0, 0, 0);
    heap::run(&[], &mut c, 10, 0);
    assert!(text(&c).ends_with("[0% used]\n"));
    assert!(text(&c).contains("free:  0 bytes"));
}

#[test]
fn history_numbering() {
    let mut c = Console::new(0, 0, 0);
    history::run(&[], &mut c, &vec!["ls".to_string(), "pwd".to_string()]);
    assert_eq!(text(&c), "  1  ls\n  2  pwd\n");
    let mut c = Console::new(0, 0, 0);
    history::run(&[], &mut c, &vec![]);
    assert_eq!(text(&c), "История команд пуста\n");
}

#[test]
fn rm_and_cp_reports() {
    let mut c = Console::new(0, 0, 0);
    rm::run(&[], &mut c, None);
    assert_eq!(text(&c), "Usage: rm <name>\n");
    let mut c = Console::new(0, 0, 0);
    rm::run(&["/tmp/a"], &mut c, Some(Ok(())));
    assert_eq!(text(&c), "Removed: /tmp/a\n");
    let mut c = Console::new(0, 0, 0);
    rm::run(&["/tmp/a"], &mut c, Some(Err("not found".to_string())));
    assert_eq!(text(&c), "Error: not found\n");
    let mut c = Console::new(0, 0, 0);
    cp::run(&["a", "b"], &mut c, Some(CopyOutcome::Copied(12)));
    assert_eq!(text(&c), "Copied: a -> b (12 bytes)\n");
    let mut c = Console::new(0, 0, 0);
    cp::run(&["a"], &mut c, None);
    assert_eq!(text(&c), "Usage: cp <source> <destination>\n");
}

#[test]
fn tasks_table() {
    let mut c = Console::new(0, 0, 0);
    let list = vec![(1u32, "kshell".to_string(), "Running"), (12u32, "idle".to_string(), "Ready")];
    tasks::run(&[], &mut c, &list, 500, 42, 2);
    let t = text(&c);
    assert!(t.contains("  1  Running kshell\n"));
    assert!(t.contains(" 12  Ready   idle\n"));
    assert!(t.ends_with("\n  Tasks: 2  Ticks: 500  Switches: 42\n"));
}

#[test]
fn help_table_rows() {
    let mut c = Console::new(0, 0, 0);
    help::run(&[], &mut c, &vec![("ls", "list files")]);
    let t = text(&c);
    let lines: Vec<&str> = t.split('\n').collect();
    assert_eq!(lines[1].chars().count(), 37);
    assert!(lines[1].starts_with('\u{C9}'));
    assert_eq!(lines[4], "\u{BA} ls        \u{BA} list files               \u{BA}");
}

#[test]
fn hostname_read_and_write() {
    let mut c = Console::new(0, 0, 0);
    hostname::run(&[], &mut c, HostnameIo::Read(Some(b"box\n".to_vec())));
    assert_eq!(text(&c), "box\n");
    let mut c = Console::new(0, 0, 0);
    hostname::run(&[], &mut c, HostnameIo::Read(None));
    assert_eq!(text(&c), "vibra\n");
    let mut c = Console::new(0, 0, 0);
    hostname::run(&["new"], &mut c, HostnameIo::Written(Ok(())));
    assert_eq!(text(&c), "Hostname set to: new\n");
}

#[test]
fn test_disk_actions() {
    let mut c = Console::new(0, 0, 0);
    assert_eq!(test_disk::run(&["ram", "16"], &mut c, 2), (CmdResult::Done, Some(16)));
    assert_eq!(text(&c), "Creating RAM disk 16 MB... OK\n  Disk ID: 2\n");
    let mut c = Console::new(0, 0, 0);
    test_disk::run(&["list"], &mut c, 3);
    assert_eq!(text(&c), "Total disks: 3\n  IDs: 0 1 2 \n");
    let mut c = Console::new(0, 0, 0);
    test_disk::run(&["info", "5"], &mut c, 3);
    assert_eq!(text(&c), "Disk 5 not found\n");
    let mut c = Console::new(0, 0, 0);
    test_disk::run(&["zap"], &mut c, 3);
    assert_eq!(text(&c), "Unknown command: zap\n");
}

#[test]
fn diag_selection_and_reports() {
    let mut c = Console::new(0, 0, 0);
    assert_eq!(diag::run(&["pmm"], &mut c).1, Some(DiagTest::Pmm));
    assert_eq!(c.len(), 0);
    let mut c = Console::new(0, 0, 0);
    diag::pmm_report(&mut c, (10, 100), 110, (10, 100));
    assert!(text(&c).ends_with("[PMM TEST] PASS\n"));
    let mut c = Console::new(0, 0, 0);
    diag::pmm_report(&mut c, (10, 100), 110, (11, 100));
    assert!(text(&c).ends_with("[PMM TEST] FAIL (leak detected)\n"));
}

#[test]
fn mount_command() {
    let mut c = Console::new(0, 0, 0);
    let (_, target) = mount::run(&["/mnt", "ramfs"], &mut c, &vec![], 0);
    assert_eq!(target, Some("/mnt".to_string()));
    mount::finish_ramfs(&mut c, mount::RamfsMount::Mounted);
    assert_eq!(text(&c), "Mounting filesystems...\n  Mounting RAMFS at /mnt... OK\n");
}

#[test]
fn net_commands() {
    let mut c = Console::new(0, 0, 0);
    let (_, t) = net::ping(&["10.0.2.2", "3"], &mut c, true);
    assert_eq!(t, Some(("10.0.2.2".to_string(), 3)));
    let (_, t) = net::ping(&["10.0.2.2", "x"], &mut c, true);
    assert_eq!(t, Some(("10.0.2.2".to_string(), 4)));
    let info = net::NetInfo {
        mac: [0x52, 0x54, 0x00, 0x12, 0x34, 0x0a],
        ip: [10, 0, 2, 15],
        gateway: [10, 0, 2, 2],
        mask: [255, 255, 255, 0],
        arp: vec![([10, 0, 2, 2], [0x52, 0x55, 0x0a, 0, 2, 2])],
    };
    let mut c = Console::new(0, 0, 0);
    net::ifconfig(&[], &mut c, &Some(info));
    let t = text(&c);
    assert!(t.contains("  MAC: 52:54:00:12:34:0A\n"));
    assert!(t.contains("  IP: 10.0.2.15\n"));
    assert!(t.contains("  10.0.2.2 -> 52:55:0A:00:02:02\n"));
}

#[test]
fn editor_keys() {
    let mut c = Console::new(0, 0, 0);
    let mut e = Editor::open(&mut c, "f.txt", Some(b"ab".to_vec()));
    assert_eq!(text(&c), "Editing: f.txt (ESC to save & exit)\n---\nab\n> ");
    e.handle_key(&mut c, EditKey::Char('c'));
    assert_eq!(e.contents(), b"abc");
    e.handle_key(&mut c, EditKey::Backspace);
    assert_eq!(e.contents(), b"ab");
    e.handle_key(&mut c, EditKey::Enter);
    e.handle_key(&mut c, EditKey::Char('z'));
    assert_eq!(e.contents(), b"ab\nz");
    let t = text(&c);
    // after the last insertion the one-character last line is redrawn
    assert!(t.ends_with("\u{8} \u{8}z"));
}

#[test]
fn systest_menu_and_choice() {
    let mut c = Console::new(0, 0, 0);
    assert!(systest::run(&[], &mut c, false));
    assert!(text(&c).ends_with("Выберите пункт: "));
    assert_eq!(systest::key_choice('7'), ChoiceKey::Digit(7));
    assert_eq!(systest::key_choice('q'), ChoiceKey::Cancel);
    let mut c = Console::new(0, 0, 0);
    assert_eq!(systest::choose_action(&mut c, Some(3)), SystestAction::ShowPci);
    assert_eq!(systest::choose_action(&mut c, Some(0)), SystestAction::Quit);
    assert_eq!(text(&c), "Выход из systest.\n");
}

#[test]
fn memory_map_listing() {
    let mut c = Console::new(0, 0, 0);
    let entries = vec![MemmapEntry { base: 0x1000, length: 3 * 1024 * 1024, type_code: 0 }];
    memmap::run(&[], &mut c, &Some(entries));
    assert_eq!(
        text(&c),
        "Memory Map:\n  Type                    Base              Size\n  Usable                 0x0000000000001000  3 MB\n"
    );
}

#[test]
fn colored_ops_recorded() {
    let mut c = Console::new(0, 0, 0);
    kill::run(&[], &mut c);
    match c.op_at(0) {
        ConsoleOp::Text(s, col) => {
            assert_eq!(s.as_str(), "Usage: kill <PID>\n");
            assert_eq!(*col, Color::Yellow);
        }
        _ => panic!("expected text"),
    }
}

use kernel::commands::desktop::{info_window, terminal_window, step, DesktopAction};
use kernel::devices::ps2_mouse::MouseState;

fn items_of(w: &kernel::commands::desktop::DemoWindow) -> Vec<(usize, usize, String, u32)> {
    w.items.iter().map(|t| (t.x, t.y, t.text.clone(), t.color)).collect()
}

#[test]
fn desktop_info_window_layout() {
    let brand = "Intel(R) Core(TM) i7-9750H CPU @ 2.60GHz";
    let w = info_window(brand, "2600 MHz", 12345, 1048576);
    assert_eq!(w.title, "System Info");
    assert_eq!((w.x, w.y, w.width, w.height), (80, 60, 300, 200));
    let items = items_of(&w);
    assert_eq!(items, vec![
        (8, 32, "CPU:".to_string(), 0x0000CC88),
        (16, 50, brand[..34].to_string(), 0x00FFFFFF),
        (16, 66, brand[34..].to_string(), 0x00FFFFFF),
        (8, 86, "Freq: ".to_string(), 0x0000CC88),
        (56, 86, "2600 MHz".to_string(), 0x00FFFFFF),
        (8, 104, "Heap:".to_string(), 0x0000CC88),
        (16, 122, "Used: ".to_string(), 0x00E0E0E0),
        (64, 122, "12345".to_string(), 0x00FFFFFF),
        (16, 138, "Total: ".to_string(), 0x00E0E0E0),
        (64, 138, "1048576".to_string(), 0x00FFFFFF),
    ]);
}

#[test]
fn desktop_short_and_empty_brand() {
    let w = info_window("QEMU", "?", 0, 0);
    let items = items_of(&w);
    assert_eq!(items[1], (16, 50, "QEMU".to_string(), 0x00FFFFFF));
    assert_eq!(items[2].1, 70);
    let w = info_window("", "?", 0, 0);
    let items = items_of(&w);
    assert_eq!(items.len(), 8);
    assert_eq!(items[1], (8, 54, "Freq: ".to_string(), 0x0000CC88));
    assert_eq!(items[5].2, "0");
}

#[test]
fn desktop_terminal_window() {
    let w = terminal_window();
    assert_eq!(w.title, "Terminal");
    assert_eq!((w.x, w.y, w.width, w.height), (200, 180, 400, 250));
    assert_eq!(items_of(&w), vec![
        (8, 36, "Vibra OS Terminal".to_string(), 0x0000FF88),
        (8, 56, "Type 'exit' to return".to_string(), 0x00888888),
    ]);
}

#[test]
fn desktop_loop_step() {
    let still = MouseState { dx: 0, dy: 0, left_button: false, right_button: false, middle_button: false };
    assert_eq!(step(still, (5, 5), None), vec![DesktopAction::Render]);
    let moving = MouseState { dx: 3, dy: -2, left_button: true, right_button: false, middle_button: false };
    assert_eq!(step(moving, (10, 20), Some('a')), vec![
        DesktopAction::MoveCursor(3, -2),
        DesktopAction::Click(10, 20),
        DesktopAction::Key(b'a'),
        DesktopAction::Render,
    ]);
    assert_eq!(step(moving, (-1, 20), None), vec![DesktopAction::MoveCursor(3, -2), DesktopAction::Render]);
    assert_eq!(step(still, (0, 0), Some('\x1B')), vec![DesktopAction::Leave]);
}

#[test]
fn desktop_brand_cut_by_bytes() {
    let brand = format!("{}X", "é".repeat(17));
    let w = info_window(&brand, "1 MHz", 1, 2);
    let items = items_of(&w);
    assert_eq!(items[1], (16, 50, "é".repeat(17), 0x00FFFFFF));
    assert_eq!(items[2], (16, 66, "X".to_string(), 0x00FFFFFF));
    assert_eq!(items[3].1, 86);
}
