//! `diag`: memory-management self tests.  The command picks the test; the
//! kernel runs it and the reports below print what it found.
use vstd::prelude::*;
use crate::console::{Console, OpView, Color, txt, col, dec};
use crate::text::str_eq;
use super::{CmdResult, print_dec};

verus! {

/// The self tests.
#[derive(PartialEq, Eq, Structural, Clone, Copy, Debug)]
pub enum DiagTest {
    /// Allocate and free 100 physical frames and compare the counts.
    Pmm,
    /// Translate the kernel entry point through the current page tables.
    Paging,
    /// Build a mapping in a sandbox page table.
    PagingTest,
    /// Write to read-only data, expecting a page fault.
    WxTest,
}

pub open spec fn diag_outcome(args: Seq<&str>) -> (Seq<OpView>, Option<DiagTest>) {
    if args.len() == 0 {
        (seq![
            col("Usage: diag <subcommand>\n"@, Color::Yellow),
            txt("  pmm        - test PMM alloc/free\n"@),
            txt("  paging     - test page table walker\n"@),
            txt("  paging-test - test page table builder\n"@),
            txt("  wxtest     - test W^X protection (write to .rodata)\n"@),
        ], None)
    } else if args[0]@ == "pmm"@ {
        (Seq::empty(), Some(DiagTest::Pmm))
    } else if args[0]@ == "paging"@ {
        (Seq::empty(), Some(DiagTest::Paging))
    } else if args[0]@ == "paging-test"@ {
        (Seq::empty(), Some(DiagTest::PagingTest))
    } else if args[0]@ == "wxtest"@ {
        (Seq::empty(), Some(DiagTest::WxTest))
    } else {
        (seq![col("Unknown diag: "@, Color::Red), txt(args[0]@), txt("\n"@)], None)
    }
}

/// Picks the test named by the first argument; the usage without one.
pub fn run(args: &[&str], console: &mut Console) -> (r: (CmdResult, Option<DiagTest>))
    ensures
        r.0 == CmdResult::Done,
        final(console)@ == old(console)@ + diag_outcome(args@).0,
        r.1 == diag_outcome(args@).1,
{
    if args.len() == 0 {
        console.print_colored("Usage: diag <subcommand>\n", Color::Yellow);
        console.print("  pmm        - test PMM alloc/free\n");
        console.print("  paging     - test page table walker\n");
        console.print("  paging-test - test page table builder\n");
        console.print("  wxtest     - test W^X protection (write to .rodata)\n");
        assert(console@ =~= old(console)@ + diag_outcome(args@).0);
        return (CmdResult::Done, None);
    }
    let t = if str_eq(args[0], "pmm") {
        Some(DiagTest::Pmm)
    } else if str_eq(args[0], "paging") {
        Some(DiagTest::Paging)
    } else if str_eq(args[0], "paging-test") {
        Some(DiagTest::PagingTest)
    } else if str_eq(args[0], "wxtest") {
        Some(DiagTest::WxTest)
    } else {
        None
    };
    if t.is_none() {
        console.print_colored("Unknown diag: ", Color::Red);
        console.print(args[0]);
        console.print("\n");
    }
    assert(console@ =~= old(console)@ + diag_outcome(args@).0);
    (CmdResult::Done, t)
}

pub open spec fn pmm_ops(before: (usize, usize), mid_used: usize, after: (usize, usize)) -> Seq<OpView> {
    seq![
        col("[PMM TEST] Running...\n"@, Color::Yellow),
        txt("  Before: used="@), txt(dec(before.0 as nat)), txt(" total="@), txt(dec(before.1 as nat)), txt("\n"@),
        txt("  After alloc 100: used="@), txt(dec(mid_used as nat)), txt("\n"@),
        txt("  After free: used="@), txt(dec(after.0 as nat)), txt(" total="@), txt(dec(after.1 as nat)), txt("\n"@),
        if before == after { col("[PMM TEST] PASS\n"@, Color::Green) } else { col("[PMM TEST] FAIL (leak detected)\n"@, Color::Red) },
    ]
}

/// Frame counts (used, total) before the test, after allocating and after
/// freeing: the test passes when nothing leaked.
pub fn pmm_report(console: &mut Console, before: (usize, usize), mid_used: usize, after: (usize, usize))
    ensures
        final(console)@ == old(console)@ + pmm_ops(before, mid_used, after),
{
    console.print_colored("[PMM TEST] Running...\n", Color::Yellow);
    console.print("  Before: used=");
    print_dec(console, before.0 as u64);
    console.print(" total=");
    print_dec(console, before.1 as u64);
    console.print("\n");
    console.print("  After alloc 100: used=");
    print_dec(console, mid_used as u64);
    console.print("\n");
    console.print("  After free: used=");
    print_dec(console, after.0 as u64);
    console.print(" total=");
    print_dec(console, after.1 as u64);
    console.print("\n");
    if before.0 == after.0 && before.1 == after.1 {
        console.print_colored("[PMM TEST] PASS\n", Color::Green);
    } else {
        console.print_colored("[PMM TEST] FAIL (leak detected)\n", Color::Red);
    }
    assert(console@ =~= old(console)@ + pmm_ops(before, mid_used, after));
}

pub open spec fn paging_ops(root: u64, start_virt: u64, phys: Option<u64>) -> Seq<OpView> {
    seq![
        col("[PAGING TEST] Current CR3...\n"@, Color::Yellow),
        txt("  CR3 root: 0x"@), txt(dec(root as nat)), txt("\n"@),
    ] + match phys {
        Some(p) => seq![
            txt("  _start: virt=0x"@), txt(dec(start_virt as nat)), txt(" -> phys=0x"@), txt(dec(p as nat)), txt("\n"@),
            col("[PAGING TEST] PASS\n"@, Color::Green),
        ],
        None => seq![col("[PAGING TEST] FAIL (translate returned None)\n"@, Color::Red)],
    }
}

/// The page-table root, the kernel entry's virtual address and what it
/// translated to (the numbers are printed in decimal after `0x`).
pub fn paging_report(console: &mut Console, root: u64, start_virt: u64, phys: Option<u64>)
    ensures
        final(console)@ == old(console)@ + paging_ops(root, start_virt, phys),
{
    console.print_colored("[PAGING TEST] Current CR3...\n", Color::Yellow);
    console.print("  CR3 root: 0x");
    print_dec(console, root);
    console.print("\n");
    match phys {
        Some(p) => {
            console.print("  _start: virt=0x");
            print_dec(console, start_virt);
            console.print(" -> phys=0x");
            print_dec(console, p);
            console.print("\n");
            console.print_colored("[PAGING TEST] PASS\n", Color::Green);
        }
        None => {
            console.print_colored("[PAGING TEST] FAIL (translate returned None)\n", Color::Red);
        }
    }
    assert(console@ =~= old(console)@ + paging_ops(root, start_virt, phys));
}

pub open spec fn paging_test_ops(result: Result<(u64, u64, u64), String>) -> Seq<OpView> {
    seq![col("[PAGING TEST] sandbox mapping test...\n"@, Color::Yellow)] + match result {
        Ok(m) => seq![
            txt("  root_phys=0x"@), txt(dec(m.0 as nat)), txt("\n"@),
            txt("  virtual=0x"@), txt(dec(m.1 as nat)), txt("\n"@),
            txt("  physical=0x"@), txt(dec(m.2 as nat)), txt("\n"@),
            col("[PAGING TEST] PASS\n"@, Color::Green),
        ],
        Err(e) => seq![txt("  Error: "@), txt(e@), txt("\n"@), col("[PAGING TEST] FAIL\n"@, Color::Red)],
    }
}

/// The sandbox mapping's (root, virtual, physical) addresses, or the error.
pub fn paging_test_report(console: &mut Console, result: Result<(u64, u64, u64), String>)
    ensures
        final(console)@ == old(console)@ + paging_test_ops(result),
{
    console.print_colored("[PAGING TEST] sandbox mapping test...\n", Color::Yellow);
    match result {
        Ok((root, virt, phys)) => {
            console.print("  root_phys=0x");
            print_dec(console, root);
            console.print("\n");
            console.print("  virtual=0x");
            print_dec(console, virt);
            console.print("\n");
            console.print("  physical=0x");
            print_dec(console, phys);
            console.print("\n");
            console.print_colored("[PAGING TEST] PASS\n", Color::Green);
        }
        Err(e) => {
            console.print("  Error: ");
            console.print(e.as_str());
            console.print("\n");
            console.print_colored("[PAGING TEST] FAIL\n", Color::Red);
        }
    }
    assert(console@ =~= old(console)@ + paging_test_ops(result));
}

pub open spec fn wx_intro_ops(vmm_ready: bool, rodata_addr: u64) -> Seq<OpView> {
    seq![
        col("[W^X TEST] Testing write to .rodata...\n"@, Color::Yellow),
        txt("  If VMM is working, this should cause a PAGE FAULT.\n"@),
        txt("  The PAGE FAULT handler will print the fault info.\n"@),
        txt("  After the fault, shell should still work.\n\n"@),
    ] + if vmm_ready {
        seq![
            col("  VMM is active. Attempting write to .rodata...\n"@, Color::Yellow),
            txt("  .rodata addr: 0x"@), txt(dec(rodata_addr as nat)), txt("\n"@),
        ]
    } else {
        seq![col("  VMM not active yet. Skipping test.\n"@, Color::Yellow), col("[W^X TEST] SKIP\n"@, Color::Yellow)]
    }
}

/// What the W^X test prints before the write; the kernel writes to
/// read-only data only when the VMM is ready, and when that write returns
/// `wx_report_no_fault` reports the failure.
pub fn wx_intro(console: &mut Console, vmm_ready: bool, rodata_addr: u64)
    ensures
        final(console)@ == old(console)@ + wx_intro_ops(vmm_ready, rodata_addr),
{
    console.print_colored("[W^X TEST] Testing write to .rodata...\n", Color::Yellow);
    console.print("  If VMM is working, this should cause a PAGE FAULT.\n");
    console.print("  The PAGE FAULT handler will print the fault info.\n");
    console.print("  After the fault, shell should still work.\n\n");
    if vmm_ready {
        console.print_colored("  VMM is active. Attempting write to .rodata...\n", Color::Yellow);
        console.print("  .rodata addr: 0x");
        print_dec(console, rodata_addr);
        console.print("\n");
    } else {
        console.print_colored("  VMM not active yet. Skipping test.\n", Color::Yellow);
        console.print_colored("[W^X TEST] SKIP\n", Color::Yellow);
    }
    assert(console@ =~= old(console)@ + wx_intro_ops(vmm_ready, rodata_addr));
}

/// The write to read-only data did not fault.
pub fn wx_report_no_fault(console: &mut Console)
    ensures
        final(console)@ == old(console)@ + seq![
            col("  ERROR: Write to .rodata did not cause PAGE FAULT!\n"@, Color::Red),
            col("[W^X TEST] FAIL\n"@, Color::Red),
        ],
{
    console.print_colored("  ERROR: Write to .rodata did not cause PAGE FAULT!\n", Color::Red);
    console.print_colored("[W^X TEST] FAIL\n", Color::Red);
    assert(console@ =~= old(console)@ + seq![
        col("  ERROR: Write to .rodata did not cause PAGE FAULT!\n"@, Color::Red),
        col("[W^X TEST] FAIL\n"@, Color::Red),
    ]);
}

} // verus!
