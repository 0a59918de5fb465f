//! `systest`: an interactive system test menu.  Each round the menu is
//! printed and a digit read; the chosen report is printed from what the
//! kernel gathered for it.
use vstd::prelude::*;
use crate::console::{Console, OpView, Color, txt, col, dec, hex_min, hex_fixed, push_hex_min};
use crate::cpu_info::{CpuInfo, brand_str, freq_str, freq_text, utf8_brand};
use crate::drivers::usb::UsbController;
use super::{CmdResult, print_dec, repeat_op};
use super::net::{NetInfo, ip_text};

verus! {

/// What the menu round led to.
#[derive(PartialEq, Eq, Structural, Clone, Copy, Debug)]
pub enum SystestAction {
    ShowCpu,
    ShowMemoryMap,
    ShowPci,
    ShowDisks,
    ShowNetwork,
    PingTest,
    ShowUsb,
    ShowApic,
    ShowKernelStats,
    /// Leave the menu.
    Quit,
    /// Print the menu again.
    Again,
}

/// What a key pressed at the menu means.
#[derive(PartialEq, Eq, Structural, Clone, Copy, Debug)]
pub enum ChoiceKey {
    /// A digit was typed.
    Digit(u8),
    /// Any other character: the choice is abandoned.
    Cancel,
    /// A key that is not a character: keep waiting.
    Ignore,
}

/// Classifies a character typed at the menu (by the low byte of its code).
pub fn key_choice(ch: char) -> (k: ChoiceKey)
    ensures
        k == (if 0x30 <= (ch as u32) % 256 <= 0x39 { ChoiceKey::Digit(((ch as u32) % 256 - 0x30) as u8) } else { ChoiceKey::Cancel }),
{
    let b = ((ch as u32) % 256) as u8;
    if b >= 0x30 && b <= 0x39 {
        ChoiceKey::Digit(b - 0x30)
    } else {
        ChoiceKey::Cancel
    }
}

pub open spec fn menu_ops() -> Seq<OpView> {
    seq![
        col("\n╔════════════════════════════════════╗\n"@, Color::Cyan),
        col("║      Vibra OS — System Test       ║\n"@, Color::Cyan),
        col("╠════════════════════════════════════╣\n"@, Color::Cyan),
        col("║  1. CPU info                      ║\n"@, Color::White),
        col("║  2. Memory map                    ║\n"@, Color::White),
        col("║  3. PCI devices                   ║\n"@, Color::White),
        col("║  4. Disk info                     ║\n"@, Color::White),
        col("║  5. Network info                  ║\n"@, Color::White),
        col("║  6. Ping test                     ║\n"@, Color::White),
        col("║  7. USB devices                   ║\n"@, Color::White),
        col("║  8. APIC status                   ║\n"@, Color::White),
        col("║  9. Kernel stats                  ║\n"@, Color::White),
        col("║  0. Quit                          ║\n"@, Color::White),
        col("╚════════════════════════════════════╝\n"@, Color::Cyan),
        col("Выберите пункт: "@, Color::Green),
    ]
}

/// Starts a menu round: nothing when the command was cancelled (the menu
/// is left), the menu otherwise; true when a choice is to be read.
pub fn run(args: &[&str], console: &mut Console, cancelled: bool) -> (r: bool)
    ensures
        r == !cancelled,
        final(console)@ == old(console)@ + (if cancelled { Seq::empty() } else { menu_ops() }),
{
    if cancelled {
        assert(console@ =~= old(console)@ + Seq::<OpView>::empty());
        return false;
    }
    console.print_colored("\n╔════════════════════════════════════╗\n", Color::Cyan);
    console.print_colored("║      Vibra OS — System Test       ║\n", Color::Cyan);
    console.print_colored("╠════════════════════════════════════╣\n", Color::Cyan);
    console.print_colored("║  1. CPU info                      ║\n", Color::White);
    console.print_colored("║  2. Memory map                    ║\n", Color::White);
    console.print_colored("║  3. PCI devices                   ║\n", Color::White);
    console.print_colored("║  4. Disk info                     ║\n", Color::White);
    console.print_colored("║  5. Network info                  ║\n", Color::White);
    console.print_colored("║  6. Ping test                     ║\n", Color::White);
    console.print_colored("║  7. USB devices                   ║\n", Color::White);
    console.print_colored("║  8. APIC status                   ║\n", Color::White);
    console.print_colored("║  9. Kernel stats                  ║\n", Color::White);
    console.print_colored("║  0. Quit                          ║\n", Color::White);
    console.print_colored("╚════════════════════════════════════╝\n", Color::Cyan);
    console.print_colored("Выберите пункт: ", Color::Green);
    assert(console@ =~= old(console)@ + menu_ops());
    true
}

pub open spec fn action_for(choice: u8) -> SystestAction {
    if choice == 1 { SystestAction::ShowCpu }
    else if choice == 2 { SystestAction::ShowMemoryMap }
    else if choice == 3 { SystestAction::ShowPci }
    else if choice == 4 { SystestAction::ShowDisks }
    else if choice == 5 { SystestAction::ShowNetwork }
    else if choice == 6 { SystestAction::PingTest }
    else if choice == 7 { SystestAction::ShowUsb }
    else if choice == 8 { SystestAction::ShowApic }
    else if choice == 9 { SystestAction::ShowKernelStats }
    else if choice == 0 { SystestAction::Quit }
    else { SystestAction::Again }
}

/// Acts on the digit read (none when the read was abandoned: the menu is
/// left without a word).
pub fn choose_action(console: &mut Console, choice: Option<u8>) -> (a: SystestAction)
    ensures
        a == (match choice { Some(c) => action_for(c), None => SystestAction::Quit }),
        final(console)@ == old(console)@ + (match choice {
            Some(c) => if c == 0 {
                seq![col("Выход из systest.\n"@, Color::Yellow)]
            } else if c > 9 {
                seq![col("Неизвестный пункт: "@, Color::Red), txt(dec(c as nat)), txt("\n"@)]
            } else {
                Seq::empty()
            },
            None => Seq::empty(),
        }),
{
    match choice {
        None => {
            assert(console@ =~= old(console)@ + Seq::<OpView>::empty());
            SystestAction::Quit
        }
        Some(c) => {
            if c == 0 {
                console.print_colored("Выход из systest.\n", Color::Yellow);
                assert(console@ =~= old(console)@ + seq![col("Выход из systest.\n"@, Color::Yellow)]);
                SystestAction::Quit
            } else if c > 9 {
                console.print_colored("Неизвестный пункт: ", Color::Red);
                print_dec(console, c as u64);
                console.print("\n");
                assert(console@ =~= old(console)@ + seq![col("Неизвестный пункт: "@, Color::Red), txt(dec(c as nat)), txt("\n"@)]);
                SystestAction::Again
            } else {
                assert(console@ =~= old(console)@ + Seq::<OpView>::empty());
                if c == 1 { SystestAction::ShowCpu }
                else if c == 2 { SystestAction::ShowMemoryMap }
                else if c == 3 { SystestAction::ShowPci }
                else if c == 4 { SystestAction::ShowDisks }
                else if c == 5 { SystestAction::ShowNetwork }
                else if c == 6 { SystestAction::PingTest }
                else if c == 7 { SystestAction::ShowUsb }
                else if c == 8 { SystestAction::ShowApic }
                else { SystestAction::ShowKernelStats }
            }
        }
    }
}

/// A label, a number and a line break.
pub open spec fn stat_line(label: Seq<char>, n: nat) -> Seq<OpView> {
    seq![txt(label), txt(dec(n)), txt("\n"@)]
}

fn print_stat_line(console: &mut Console, label: &str, n: u64)
    ensures
        final(console)@ == old(console)@ + stat_line(label@, n as nat),
{
    console.print(label);
    print_dec(console, n);
    console.print("\n");
    assert(console@ =~= old(console)@ + stat_line(label@, n as nat));
}

/// CPU feature flags.
pub struct CpuFeatures {
    pub sse: bool,
    pub sse2: bool,
    pub sse3: bool,
    pub ssse3: bool,
    pub sse4_1: bool,
    pub sse4_2: bool,
    pub avx: bool,
    pub avx2: bool,
    pub mmx: bool,
    pub fpu: bool,
    pub nx: bool,
    pub apic: bool,
    pub tsc: bool,
    pub smep: bool,
    pub smap: bool,
    pub lm: bool,
}

/// Identification beyond `CpuInfo`: vendor, family, model, stepping, the
/// highest extended leaf and the feature flags.
pub struct CpuDetails {
    pub vendor: String,
    pub family: u32,
    pub model: u32,
    pub stepping: u32,
    pub max_ext_leaf: u32,
    pub features: CpuFeatures,
}

pub open spec fn flag(on: bool, name: Seq<char>) -> Seq<OpView> {
    if on { seq![txt(name)] } else { Seq::empty() }
}

/// The feature flags in display order, each with its label.
pub open spec fn feature_list(f: CpuFeatures) -> Seq<(bool, Seq<char>)> {
    seq![
        (f.sse, "SSE "@), (f.sse2, "SSE2 "@), (f.sse3, "SSE3 "@), (f.ssse3, "SSSE3 "@),
        (f.sse4_1, "SSE4.1 "@), (f.sse4_2, "SSE4.2 "@), (f.avx, "AVX "@), (f.avx2, "AVX2 "@),
        (f.mmx, "MMX "@), (f.fpu, "FPU "@), (f.nx, "NX "@), (f.apic, "APIC "@),
        (f.tsc, "TSC "@), (f.smep, "SMEP "@), (f.smap, "SMAP "@), (f.lm, "LM(64) "@),
    ]
}

/// The labels of the flags that are set, in order.
pub open spec fn flags_ops(l: Seq<(bool, Seq<char>)>) -> Seq<OpView>
    decreases l.len(),
{
    if l.len() == 0 { Seq::empty() } else { flags_ops(l.drop_last()) + flag(l.last().0, l.last().1) }
}

pub open spec fn feature_ops(f: CpuFeatures) -> Seq<OpView> {
    flags_ops(feature_list(f))
}

pub open spec fn cpu_head_ops(info: CpuInfo, d: CpuDetails) -> Seq<OpView> {
    seq![
        col("\n--- CPU Info ---\n"@, Color::Yellow),
        txt("  CPU:    "@), txt(utf8_brand(info)), txt("\n"@),
        txt("  Vendor: "@), txt(d.vendor@), txt("\n"@),
        txt("  Cores:  "@), txt(dec(info.cores as nat)), txt(" logical\n"@),
        txt("  Freq:   "@), txt(freq_text(info.tsc_freq_mhz as nat)), txt("\n"@),
    ]
}

pub open spec fn cpu_id_ops(info: CpuInfo, d: CpuDetails) -> Seq<OpView> {
    seq![
        txt("  Family: "@), txt(dec(d.family as nat)), txt("  Model: "@), txt(dec(d.model as nat)),
        txt("  Step: "@), txt(dec(d.stepping as nat)), txt("\n"@),
        txt("  Max CPUID leaf:      "@), txt(dec(info.max_leaf as nat)), txt("\n"@),
        txt("  Max CPUID ext leaf:  "@), txt(dec(d.max_ext_leaf as nat)), txt("\n"@),
        col("  Features: "@, Color::Green),
    ]
}

pub open spec fn cpu_ops(info: CpuInfo, d: CpuDetails) -> Seq<OpView> {
    cpu_head_ops(info, d) + cpu_id_ops(info, d) + feature_ops(d.features) + seq![txt("\n"@)]
}

fn print_flag(console: &mut Console, on: bool, name: &str)
    ensures
        final(console)@ == old(console)@ + flag(on, name@),
{
    if on {
        console.print(name);
    }
    assert(console@ =~= old(console)@ + flag(on, name@));
}

fn print_cpu_head(console: &mut Console, info: &CpuInfo, d: &CpuDetails)
    requires
        info.brand_len <= 48,
    ensures
        final(console)@ == old(console)@ + cpu_head_ops(*info, *d),
{
    console.print_colored("\n--- CPU Info ---\n", Color::Yellow);
    let brand = brand_str(info);
    console.print("  CPU:    ");
    console.print(brand.as_str());
    console.print("\n");
    console.print("  Vendor: ");
    console.print(d.vendor.as_str());
    console.print("\n");
    console.print("  Cores:  ");
    print_dec(console, info.cores as u64);
    console.print(" logical\n");
    console.print("  Freq:   ");
    let f = freq_str(info);
    console.print(f.as_str());
    console.print("\n");
    assert(console@ =~= old(console)@ + cpu_head_ops(*info, *d));
}

fn print_cpu_ids(console: &mut Console, info: &CpuInfo, d: &CpuDetails)
    ensures
        final(console)@ == old(console)@ + cpu_id_ops(*info, *d),
{
    console.print("  Family: ");
    print_dec(console, d.family as u64);
    console.print("  Model: ");
    print_dec(console, d.model as u64);
    console.print("  Step: ");
    print_dec(console, d.stepping as u64);
    console.print("\n");
    console.print("  Max CPUID leaf:      ");
    print_dec(console, info.max_leaf as u64);
    console.print("\n");
    console.print("  Max CPUID ext leaf:  ");
    print_dec(console, d.max_ext_leaf as u64);
    console.print("\n");
    console.print_colored("  Features: ", Color::Green);
    assert(console@ =~= old(console)@ + cpu_id_ops(*info, *d));
}

fn print_features(console: &mut Console, fl: &CpuFeatures)
    ensures
        final(console)@ == old(console)@ + feature_ops(*fl),
{
    let list: Vec<(bool, &str)> = vec![
        (fl.sse, "SSE "), (fl.sse2, "SSE2 "), (fl.sse3, "SSE3 "), (fl.ssse3, "SSSE3 "),
        (fl.sse4_1, "SSE4.1 "), (fl.sse4_2, "SSE4.2 "), (fl.avx, "AVX "), (fl.avx2, "AVX2 "),
        (fl.mmx, "MMX "), (fl.fpu, "FPU "), (fl.nx, "NX "), (fl.apic, "APIC "),
        (fl.tsc, "TSC "), (fl.smep, "SMEP "), (fl.smap, "SMAP "), (fl.lm, "LM(64) "),
    ];
    let ghost fs = feature_list(*fl);
    assert(list@.map_values(|e: (bool, &str)| (e.0, e.1@)) =~= fs);
    let mut i: usize = 0;
    while i < list.len()
        invariant
            i <= list@.len(),
            list@.map_values(|e: (bool, &str)| (e.0, e.1@)) == fs,
            console@ == old(console)@ + flags_ops(fs.take(i as int)),
        decreases list.len() - i,
    {
        let ghost before = console@;
        print_flag(console, list[i].0, list[i].1);
        proof {
            let t = fs.take(i + 1);
            assert(t.drop_last() =~= fs.take(i as int));
            assert(t.last() == fs[i as int]);
            assert(fs[i as int] == (list@[i as int].0, list@[i as int].1@));
        }
        i = i + 1;
    }
    assert(fs.take(fs.len() as int) =~= fs);
}

pub fn show_cpu_info(console: &mut Console, info: &CpuInfo, d: &CpuDetails)
    requires
        info.brand_len <= 48,
    ensures
        final(console)@ == old(console)@ + cpu_ops(*info, *d),
{
    print_cpu_head(console, info, d);
    let ghost a = console@;
    print_cpu_ids(console, info, d);
    let ghost b = console@;
    print_features(console, &d.features);
    let ghost c = console@;
    console.print("\n");
    proof {
        let h = cpu_head_ops(*info, *d);
        let ids = cpu_id_ops(*info, *d);
        let f = feature_ops(d.features);
        assert(c == old(console)@ + h + ids + f);
        assert(console@ =~= old(console)@ + (h + ids + f + seq![txt("\n"@)]));
    }
}

/// A memory map entry: base, length and Limine type code.
pub struct MemmapEntry {
    pub base: u64,
    pub length: u64,
    pub type_code: u64,
}

/// Name of a Limine memory map type.
pub open spec fn mem_type_name(t: u64) -> Seq<char> {
    if t == 0 { "USABLE"@ }
    else if t == 1 { "RESERVED"@ }
    else if t == 2 { "ACPI_RECLAIM"@ }
    else if t == 3 { "ACPI_NVS"@ }
    else if t == 4 { "BAD"@ }
    else if t == 5 { "BOOT_RECLAIM"@ }
    else if t == 6 { "KERNEL"@ }
    else if t == 7 { "FRAMEBUFFER"@ }
    else { "UNKNOWN"@ }
}

fn mem_type_str(t: u64) -> (s: &'static str)
    ensures
        s@ == mem_type_name(t),
{
    if t == 0 { "USABLE" }
    else if t == 1 { "RESERVED" }
    else if t == 2 { "ACPI_RECLAIM" }
    else if t == 3 { "ACPI_NVS" }
    else if t == 4 { "BAD" }
    else if t == 5 { "BOOT_RECLAIM" }
    else if t == 6 { "KERNEL" }
    else if t == 7 { "FRAMEBUFFER" }
    else { "UNKNOWN" }
}

pub open spec fn mem_line(i: nat, e: MemmapEntry) -> Seq<OpView> {
    seq![txt("  ["@)] + (if i < 10 { seq![txt(" "@)] } else { Seq::empty() }) + seq![
        txt(dec(i)), txt("] 0x"@), txt(hex_min(e.base as nat)), txt(" - 0x"@), txt(hex_min((e.base + e.length) as nat)),
        txt("  "@), txt(dec(e.length as nat / 0x10_0000)), txt("MB  "@), txt(mem_type_name(e.type_code)), txt("\n"@),
    ]
}

pub open spec fn mem_lines(es: Seq<MemmapEntry>) -> Seq<OpView>
    decreases es.len(),
{
    if es.len() == 0 { Seq::empty() } else { mem_lines(es.drop_last()) + mem_line((es.len() - 1) as nat, es.last()) }
}

/// Total length of the usable entries.
pub open spec fn usable_total(es: Seq<MemmapEntry>) -> nat
    decreases es.len(),
{
    if es.len() == 0 {
        0
    } else {
        usable_total(es.drop_last()) + (if es.last().type_code == 0 { es.last().length as nat } else { 0 })
    }
}

pub open spec fn memmap_ops(entries: Option<Seq<MemmapEntry>>) -> Seq<OpView> {
    seq![col("\n--- Memory Map ---\n"@, Color::Yellow)] + match entries {
        None => seq![col("  Memory map недоступен\n"@, Color::Red)],
        Some(es) => seq![txt("  Entries: "@), txt(dec(es.len())), txt("\n\n"@)] + mem_lines(es)
            + seq![txt("\n  Total usable: "@), txt(dec(usable_total(es) / 0x10_0000)), txt(" MB\n"@)],
    }
}

fn print_hex64(console: &mut Console, v: u64)
    ensures
        final(console)@ == old(console)@.push(txt(hex_min(v as nat))),
{
    let mut s = String::new();
    push_hex_min(&mut s, v);
    console.print_string(s);
}

/// The boot loader's memory map (none when it gave none); the entries must
/// not reach past 2^64 and their usable total must fit in 64 bits.
#[verifier::rlimit(40)]
pub fn show_memory_map(console: &mut Console, entries: &Option<Vec<MemmapEntry>>)
    requires
        entries matches Some(es) ==> (forall|i: int| 0 <= i < es@.len() ==> (#[trigger] es@[i]).base + es@[i].length <= u64::MAX)
            && usable_total(es@) <= u64::MAX,
    ensures
        final(console)@ == old(console)@ + memmap_ops(match entries { Some(es) => Some(es@), None => None }),
{
    console.print_colored("\n--- Memory Map ---\n", Color::Yellow);
    match entries {
        None => {
            console.print_colored("  Memory map недоступен\n", Color::Red);
        }
        Some(es) => {
            console.print("  Entries: ");
            print_dec(console, es.len() as u64);
            console.print("\n\n");
            let ghost start = console@;
            let mut total: u64 = 0;
            let mut i: usize = 0;
            while i < es.len()
                invariant
                    i <= es@.len(),
                    forall|k: int| 0 <= k < es@.len() ==> (#[trigger] es@[k]).base + es@[k].length <= u64::MAX,
                    usable_total(es@) <= u64::MAX,
                    total == usable_total(es@.take(i as int)),
                    console@ == start + mem_lines(es@.take(i as int)),
                decreases es.len() - i,
            {
                let e = &es[i];
                proof {
                    let t = es@.take(i + 1);
                    assert(t.drop_last() =~= es@.take(i as int));
                    assert(t.last() == es@[i as int]);
                    lemma_usable_prefix(es@, i + 1);
                }
                let end = e.base + e.length;
                let size_mb = e.length / 0x10_0000;
                let ghost before = console@;
                console.print("  [");
                if i < 10 {
                    console.print(" ");
                }
                print_dec(console, i as u64);
                console.print("] 0x");
                print_hex64(console, e.base);
                console.print(" - 0x");
                print_hex64(console, end);
                console.print("  ");
                print_dec(console, size_mb);
                console.print("MB  ");
                console.print(mem_type_str(e.type_code));
                console.print("\n");
                assert(console@ =~= before + mem_line(i as nat, es@[i as int]));
                if e.type_code == 0 {
                    total = total + e.length;
                }
                i = i + 1;
            }
            assert(es@.take(es@.len() as int) =~= es@);
            console.print("\n  Total usable: ");
            print_dec(console, total / 0x10_0000);
            console.print(" MB\n");
        }
    }
    assert(console@ =~= old(console)@ + memmap_ops(match entries { Some(es) => Some(es@), None => None }));
}

proof fn lemma_usable_prefix(es: Seq<MemmapEntry>, n: int)
    requires
        0 <= n <= es.len(),
    ensures
        usable_total(es.take(n)) <= usable_total(es),
    decreases es.len() - n,
{
    if n < es.len() {
        lemma_usable_prefix(es, n + 1);
        assert(es.take(n + 1).drop_last() =~= es.take(n));
    } else {
        assert(es.take(n) =~= es);
    }
}

/// Two hexadecimal digits (uppercase) of a byte, printed as two characters.
pub open spec fn hex2_ops(v: u8) -> Seq<OpView> {
    seq![OpView::Char(crate::console::hex_char((v / 16) as nat, true)), OpView::Char(crate::console::hex_char((v % 16) as nat, true))]
}

pub open spec fn hex4_ops(v: u16) -> Seq<OpView> {
    hex2_ops((v / 256) as u8) + hex2_ops((v % 256) as u8)
}

fn hex_digit(d: u8) -> (c: char)
    requires
        d < 16,
    ensures
        c == crate::console::hex_char(d as nat, true),
{
    if d == 0 { '0' } else if d == 1 { '1' } else if d == 2 { '2' } else if d == 3 { '3' }
    else if d == 4 { '4' } else if d == 5 { '5' } else if d == 6 { '6' } else if d == 7 { '7' }
    else if d == 8 { '8' } else if d == 9 { '9' } else if d == 10 { 'A' } else if d == 11 { 'B' }
    else if d == 12 { 'C' } else if d == 13 { 'D' } else if d == 14 { 'E' } else { 'F' }
}

fn print_hex2(console: &mut Console, v: u8)
    ensures
        final(console)@ == old(console)@ + hex2_ops(v),
{
    console.put_char(hex_digit(v / 16));
    console.put_char(hex_digit(v % 16));
    assert(console@ =~= old(console)@ + hex2_ops(v));
}

fn print_hex4(console: &mut Console, v: u16)
    ensures
        final(console)@ == old(console)@ + hex4_ops(v),
{
    print_hex2(console, (v / 256) as u8);
    print_hex2(console, (v % 256) as u8);
    assert(console@ =~= old(console)@ + hex4_ops(v));
}

/// A PCI function found by the scan: bus, device, function, vendor and
/// device ids, class and subclass.
pub struct PciSlot {
    pub bus: u8,
    pub dev: u8,
    pub func: u8,
    pub vendor: u16,
    pub device: u16,
    pub class: u8,
    pub subclass: u8,
}

/// Short label of a device class.
pub open spec fn pci_label(class: u8, sub: u8) -> Seq<char> {
    if class == 0x01 && sub == 0x06 { "AHCI/SATA"@ }
    else if class == 0x01 && sub == 0x08 { "NVMe"@ }
    else if class == 0x01 { "Storage"@ }
    else if class == 0x02 && sub == 0x00 { "Ethernet"@ }
    else if class == 0x02 { "Network"@ }
    else if class == 0x03 && sub == 0x00 { "VGA"@ }
    else if class == 0x06 && sub == 0x00 { "Host Bridge"@ }
    else if class == 0x06 && sub == 0x01 { "ISA Bridge"@ }
    else if class == 0x06 && sub == 0x04 { "PCI Bridge"@ }
    else if class == 0x0C && sub == 0x03 { "USB"@ }
    else { "Other"@ }
}

pub fn pci_label_str(class: u8, sub: u8) -> (s: &'static str)
    ensures
        s@ == pci_label(class, sub),
{
    if class == 0x01 && sub == 0x06 { "AHCI/SATA" }
    else if class == 0x01 && sub == 0x08 { "NVMe" }
    else if class == 0x01 { "Storage" }
    else if class == 0x02 && sub == 0x00 { "Ethernet" }
    else if class == 0x02 { "Network" }
    else if class == 0x03 && sub == 0x00 { "VGA" }
    else if class == 0x06 && sub == 0x00 { "Host Bridge" }
    else if class == 0x06 && sub == 0x01 { "ISA Bridge" }
    else if class == 0x06 && sub == 0x04 { "PCI Bridge" }
    else if class == 0x0C && sub == 0x03 { "USB" }
    else { "Other" }
}

pub open spec fn pci_line(s: PciSlot) -> Seq<OpView> {
    seq![txt("  "@)] + hex2_ops(s.bus) + seq![txt(":"@)] + hex2_ops(s.dev) + seq![txt("."@), txt(dec(s.func as nat)), txt("  "@)]
        + hex4_ops(s.vendor) + seq![txt(" "@)] + hex4_ops(s.device) + seq![txt("  "@), txt(pci_label(s.class, s.subclass)), txt("\n"@)]
}

pub open spec fn pci_lines(ss: Seq<PciSlot>) -> Seq<OpView>
    decreases ss.len(),
{
    if ss.len() == 0 { Seq::empty() } else { pci_lines(ss.drop_last()) + pci_line(ss.last()) }
}

/// `count` is the number of devices the PCI driver registered; `slots` the
/// functions the bus scan found, in scan order.
pub fn show_pci_devices(console: &mut Console, count: usize, slots: &Vec<PciSlot>)
    ensures
        final(console)@ == old(console)@ + seq![col("\n--- PCI Devices ---\n"@, Color::Yellow), txt("  Found: "@),
            txt(dec(count as nat)), txt("\n\n"@)] + pci_lines(slots@),
{
    console.print_colored("\n--- PCI Devices ---\n", Color::Yellow);
    console.print("  Found: ");
    print_dec(console, count as u64);
    console.print("\n\n");
    let ghost start = console@;
    let mut i: usize = 0;
    while i < slots.len()
        invariant
            i <= slots@.len(),
            console@ == start + pci_lines(slots@.take(i as int)),
        decreases slots.len() - i,
    {
        let s = &slots[i];
        let ghost before = console@;
        console.print("  ");
        print_hex2(console, s.bus);
        console.print(":");
        print_hex2(console, s.dev);
        console.print(".");
        print_dec(console, s.func as u64);
        console.print("  ");
        print_hex4(console, s.vendor);
        console.print(" ");
        print_hex4(console, s.device);
        console.print("  ");
        console.print(pci_label_str(s.class, s.subclass));
        console.print("\n");
        proof {
            let t = slots@.take(i + 1);
            assert(t.drop_last() =~= slots@.take(i as int));
            assert(t.last() == slots@[i as int]);
            assert(console@ =~= before + pci_line(slots@[i as int]));
        }
        i = i + 1;
    }
    assert(slots@.take(slots@.len() as int) =~= slots@);
}

pub open spec fn disk_info_ops(heap_used: nat, heap_total: nat, used_frames: nat, total_frames: nat) -> Seq<OpView> {
    seq![
        col("\n--- Disk Info ---\n"@, Color::Yellow),
        txt("  RAM disk (ramfs):\n"@),
        txt("    Heap:  "@), txt(dec(heap_used / 1024)), txt(" / "@), txt(dec(heap_total / 1024)), txt(" KB\n"@),
        txt("    RAM:   "@), txt(dec(used_frames * 4096 / 0x10_0000)), txt(" / "@), txt(dec(total_frames * 4096 / 0x10_0000)), txt(" MB\n"@),
        txt("  Filesystems:\n"@),
        txt("    ramfs   /\n"@),
        txt("    procfs  /proc\n"@),
        txt("    sysfs   /sys\n"@),
        txt("    devtmpfs /dev\n"@),
    ]
}

pub fn show_disk_info(console: &mut Console, heap_used: usize, heap_total: usize, used_frames: usize, total_frames: usize)
    requires
        used_frames * 4096 <= usize::MAX,
        total_frames * 4096 <= usize::MAX,
    ensures
        final(console)@ == old(console)@ + disk_info_ops(heap_used as nat, heap_total as nat, used_frames as nat, total_frames as nat),
{
    console.print_colored("\n--- Disk Info ---\n", Color::Yellow);
    console.print("  RAM disk (ramfs):\n");
    console.print("    Heap:  ");
    print_dec(console, (heap_used / 1024) as u64);
    console.print(" / ");
    print_dec(console, (heap_total / 1024) as u64);
    console.print(" KB\n");
    let total_mb = (total_frames * 4096) / 0x10_0000;
    let used_mb = (used_frames * 4096) / 0x10_0000;
    console.print("    RAM:   ");
    print_dec(console, used_mb as u64);
    console.print(" / ");
    print_dec(console, total_mb as u64);
    console.print(" MB\n");
    console.print("  Filesystems:\n");
    console.print("    ramfs   /\n");
    console.print("    procfs  /proc\n");
    console.print("    sysfs   /sys\n");
    console.print("    devtmpfs /dev\n");
    assert(console@ =~= old(console)@ + disk_info_ops(heap_used as nat, heap_total as nat, used_frames as nat, total_frames as nat));
}

pub open spec fn dotted_ops(a: Seq<u8>) -> Seq<OpView> {
    seq![txt(dec(a[0] as nat)), txt("."@), txt(dec(a[1] as nat)), txt("."@), txt(dec(a[2] as nat)), txt("."@), txt(dec(a[3] as nat))]
}

fn print_dotted(console: &mut Console, a: &[u8; 4])
    ensures
        final(console)@ == old(console)@ + dotted_ops(a@),
{
    print_dec(console, a[0] as u64);
    console.print(".");
    print_dec(console, a[1] as u64);
    console.print(".");
    print_dec(console, a[2] as u64);
    console.print(".");
    print_dec(console, a[3] as u64);
    assert(console@ =~= old(console)@ + dotted_ops(a@));
}

/// A MAC address as six two-digit groups separated by colons.
pub open spec fn mac_ops(m: Seq<u8>) -> Seq<OpView> {
    hex2_ops(m[0]) + seq![txt(":"@)] + hex2_ops(m[1]) + seq![txt(":"@)] + hex2_ops(m[2])
        + seq![txt(":"@)] + hex2_ops(m[3]) + seq![txt(":"@)] + hex2_ops(m[4]) + seq![txt(":"@)] + hex2_ops(m[5])
}

fn print_mac(console: &mut Console, m: &[u8; 6])
    ensures
        final(console)@ == old(console)@ + mac_ops(m@),
{
    let ghost s0 = console@;
    print_hex2(console, m[0]);
    console.print(":");
    print_hex2(console, m[1]);
    console.print(":");
    print_hex2(console, m[2]);
    assert(console@ =~= s0 + hex2_ops(m@[0]) + seq![txt(":"@)] + hex2_ops(m@[1]) + seq![txt(":"@)] + hex2_ops(m@[2]));
    let ghost s1 = console@;
    console.print(":");
    print_hex2(console, m[3]);
    console.print(":");
    print_hex2(console, m[4]);
    console.print(":");
    print_hex2(console, m[5]);
    assert(console@ =~= s1 + seq![txt(":"@)] + hex2_ops(m@[3]) + seq![txt(":"@)] + hex2_ops(m@[4]) + seq![txt(":"@)] + hex2_ops(m@[5]));
    assert(console@ =~= old(console)@ + mac_ops(m@));
}

/// A labelled dotted address and a line break.
pub open spec fn dotted_line(label: Seq<char>, a: Seq<u8>) -> Seq<OpView> {
    seq![txt(label)] + dotted_ops(a) + seq![txt("\n"@)]
}

fn print_dotted_line(console: &mut Console, label: &str, a: &[u8; 4])
    ensures
        final(console)@ == old(console)@ + dotted_line(label@, a@),
{
    console.print(label);
    print_dotted(console, a);
    console.print("\n");
    assert(console@ =~= old(console)@ + dotted_line(label@, a@));
}

pub open spec fn network_info_ops(net: Option<NetInfo>) -> Seq<OpView> {
    seq![col("\n--- Network Info ---\n"@, Color::Yellow)] + match net {
        None => seq![col("  Сеть не инициализирована\n"@, Color::Red)],
        Some(n) => seq![txt("  Interface: eth0\n"@), txt("  MAC: "@)] + mac_ops(n.mac@) + seq![txt("\n"@)]
            + dotted_line("  IP:    "@, n.ip@) + dotted_line("  Глюз:  "@, n.gateway@) + dotted_line("  Маска: "@, n.mask@),
    }
}

pub fn show_network_info(console: &mut Console, net: &Option<NetInfo>)
    ensures
        final(console)@ == old(console)@ + network_info_ops(*net),
{
    console.print_colored("\n--- Network Info ---\n", Color::Yellow);
    match net {
        None => {
            console.print_colored("  Сеть не инициализирована\n", Color::Red);
        }
        Some(n) => {
            console.print("  Interface: eth0\n");
            console.print("  MAC: ");
            print_mac(console, &n.mac);
            console.print("\n");
            print_dotted_line(console, "  IP:    ", &n.ip);
            print_dotted_line(console, "  Глюз:  ", &n.gateway);
            print_dotted_line(console, "  Маска: ", &n.mask);
        }
    }
    assert(console@ =~= old(console)@ + network_info_ops(*net));
}

/// The gateway ping: the address to ping three times, none when the
/// network is not up (`gateway` is none then).
pub fn run_ping_test(console: &mut Console, gateway: Option<[u8; 4]>) -> (r: Option<[u8; 4]>)
    ensures
        r == gateway,
        final(console)@ == old(console)@ + seq![col("\n--- Ping Test ---\n"@, Color::Yellow)] + match gateway {
            None => seq![col("  Сеть не инициализирована\n"@, Color::Red)],
            Some(gw) => seq![txt("  Пинг шлюза ("@)] + dotted_ops(gw@) + seq![txt(") ...\n"@)],
        },
{
    console.print_colored("\n--- Ping Test ---\n", Color::Yellow);
    match gateway {
        None => {
            console.print_colored("  Сеть не инициализирована\n", Color::Red);
        }
        Some(gw) => {
            console.print("  Пинг шлюза (");
            print_dotted(console, &gw);
            console.print(") ...\n");
        }
    }
    assert(console@ =~= old(console)@ + seq![col("\n--- Ping Test ---\n"@, Color::Yellow)] + match gateway {
        None => seq![col("  Сеть не инициализирована\n"@, Color::Red)],
        Some(gw) => seq![txt("  Пинг шлюза ("@)] + dotted_ops(gw@) + seq![txt(") ...\n"@)],
    });
    gateway
}

pub open spec fn usb_line(i: nat, c: UsbController) -> Seq<OpView> {
    seq![txt("  ["@), txt(dec(i)), txt("] USB Controller\n"@), txt("      Vendor:Device = "@)] + hex4_ops(c.vendor)
        + seq![txt(":"@)] + hex4_ops(c.device) + seq![txt("\n"@), txt("      Ports: "@), txt(dec(c.port_count as nat)), txt("\n"@)]
}

pub open spec fn usb_lines(cs: Seq<UsbController>) -> Seq<OpView>
    decreases cs.len(),
{
    if cs.len() == 0 { Seq::empty() } else { usb_lines(cs.drop_last()) + usb_line((cs.len() - 1) as nat, cs.last()) }
}

pub open spec fn usb_ops(cs: Seq<UsbController>) -> Seq<OpView> {
    seq![col("\n--- USB Devices ---\n"@, Color::Yellow)] + if cs.len() == 0 {
        seq![txt("  USB контроллеры не найдены\n"@)]
    } else {
        seq![txt("  Найдено контроллеров: "@), txt(dec(cs.len())), txt("\n\n"@)] + usb_lines(cs)
    }
}

pub fn show_usb_devices(console: &mut Console, controllers: &Vec<UsbController>)
    ensures
        final(console)@ == old(console)@ + usb_ops(controllers@),
{
    console.print_colored("\n--- USB Devices ---\n", Color::Yellow);
    if controllers.len() == 0 {
        console.print("  USB контроллеры не найдены\n");
        assert(console@ =~= old(console)@ + usb_ops(controllers@));
        return;
    }
    console.print("  Найдено контроллеров: ");
    print_dec(console, controllers.len() as u64);
    console.print("\n\n");
    let ghost start = console@;
    let mut i: usize = 0;
    while i < controllers.len()
        invariant
            i <= controllers@.len(),
            console@ == start + usb_lines(controllers@.take(i as int)),
        decreases controllers.len() - i,
    {
        let c = &controllers[i];
        let ghost before = console@;
        console.print("  [");
        print_dec(console, i as u64);
        console.print("] USB Controller\n");
        console.print("      Vendor:Device = ");
        print_hex4(console, c.vendor);
        console.print(":");
        print_hex4(console, c.device);
        console.print("\n");
        console.print("      Ports: ");
        print_dec(console, c.port_count as u64);
        console.print("\n");
        proof {
            let t = controllers@.take(i + 1);
            assert(t.drop_last() =~= controllers@.take(i as int));
            assert(t.last() == controllers@[i as int]);
            assert(console@ =~= before + usb_line(i as nat, controllers@[i as int]));
        }
        i = i + 1;
    }
    assert(controllers@.take(controllers@.len() as int) =~= controllers@);
    assert(console@ =~= old(console)@ + usb_ops(controllers@));
}

pub open spec fn apic_status_ops(has_apic: bool, active: bool) -> Seq<OpView> {
    seq![
        col("\n--- APIC Status ---\n"@, Color::Yellow),
        txt("  Обнаружен: "@), txt(if has_apic { "да"@ } else { "нет"@ }), txt("\n"@),
        txt("  Активен:   "@), txt(if active { "да (полный APIC, PIC off)"@ } else { "нет (PIC основной)"@ }), txt("\n"@),
    ] + if active {
        seq![
            txt("  Таймер:    LAPIC periodic 100Hz, vector 32\n"@),
            txt("  Клавиатура: IO APIC GSI1 -> vector 33\n"@),
            txt("  Serial:    polling (без IO APIC)\n"@),
        ]
    } else {
        Seq::empty()
    }
}

pub fn show_apic_status(console: &mut Console, has_apic: bool, active: bool)
    ensures
        final(console)@ == old(console)@ + apic_status_ops(has_apic, active),
{
    console.print_colored("\n--- APIC Status ---\n", Color::Yellow);
    console.print("  Обнаружен: ");
    console.print(if has_apic { "да" } else { "нет" });
    console.print("\n");
    console.print("  Активен:   ");
    console.print(if active { "да (полный APIC, PIC off)" } else { "нет (PIC основной)" });
    console.print("\n");
    if active {
        console.print("  Таймер:    LAPIC periodic 100Hz, vector 32\n");
        console.print("  Клавиатура: IO APIC GSI1 -> vector 33\n");
        console.print("  Serial:    polling (без IO APIC)\n");
    }
    assert(console@ =~= old(console)@ + apic_status_ops(has_apic, active));
}

/// Kernel counters: timer ticks (100 Hz), keyboard interrupts, scheduler
/// ticks and context switches, frames used and total, heap bytes used and
/// total, and the task count.
pub struct KernelStats {
    pub ticks: u64,
    pub kb_irq: u64,
    pub sched_ticks: u64,
    pub ctx_switches: u64,
    pub used_frames: usize,
    pub total_frames: usize,
    pub heap_used: usize,
    pub heap_total: usize,
    pub task_count: usize,
}

pub open spec fn kernel_time_ops(s: KernelStats) -> Seq<OpView> {
    let seconds = s.ticks / 100;
    seq![col("\n--- Kernel Stats ---\n"@, Color::Yellow)] + stat_line("  Timer ticks:   "@, s.ticks as nat) + seq![
        txt("  Uptime:        "@), txt(dec((seconds / 3600) as nat)), txt("h "@), txt(dec(((seconds / 60) % 60) as nat)),
        txt("m "@), txt(dec((seconds % 60) as nat)), txt("s\n"@),
    ]
}

pub open spec fn kernel_count_ops(s: KernelStats) -> Seq<OpView> {
    stat_line("  KB IRQ count:  "@, s.kb_irq as nat) + stat_line("  Sched ticks:   "@, s.sched_ticks as nat)
        + stat_line("  Ctx switches:  "@, s.ctx_switches as nat)
        + seq![txt("  PMM frames:    "@), txt(dec(s.used_frames as nat)), txt(" / "@), txt(dec(s.total_frames as nat)), txt("\n"@)]
        + seq![txt("  Heap:          "@), txt(dec((s.heap_used / 1024) as nat)), txt(" / "@), txt(dec((s.heap_total / 1024) as nat)), txt(" KB\n"@)]
        + stat_line("  Tasks:         "@, s.task_count as nat)
}

pub open spec fn kernel_stats_ops(s: KernelStats) -> Seq<OpView> {
    kernel_time_ops(s) + kernel_count_ops(s)
}

fn print_uptime(console: &mut Console, ticks: u64)
    ensures
        final(console)@ == old(console)@ + seq![
            txt("  Uptime:        "@), txt(dec(((ticks / 100) / 3600) as nat)), txt("h "@), txt(dec((((ticks / 100) / 60) % 60) as nat)),
            txt("m "@), txt(dec(((ticks / 100) % 60) as nat)), txt("s\n"@),
        ],
{
    let seconds = ticks / 100;
    console.print("  Uptime:        ");
    print_dec(console, seconds / 3600);
    console.print("h ");
    print_dec(console, (seconds / 60) % 60);
    console.print("m ");
    print_dec(console, seconds % 60);
    console.print("s\n");
    assert(console@ =~= old(console)@ + seq![
        txt("  Uptime:        "@), txt(dec(((ticks / 100) / 3600) as nat)), txt("h "@), txt(dec((((ticks / 100) / 60) % 60) as nat)),
        txt("m "@), txt(dec(((ticks / 100) % 60) as nat)), txt("s\n"@),
    ]);
}

pub fn show_kernel_stats(console: &mut Console, s: &KernelStats)
    ensures
        final(console)@ == old(console)@ + kernel_stats_ops(*s),
{
    console.print_colored("\n--- Kernel Stats ---\n", Color::Yellow);
    print_stat_line(console, "  Timer ticks:   ", s.ticks);
    print_uptime(console, s.ticks);
    assert(console@ =~= old(console)@ + kernel_time_ops(*s));
    let ghost mid = console@;
    print_stat_line(console, "  KB IRQ count:  ", s.kb_irq);
    print_stat_line(console, "  Sched ticks:   ", s.sched_ticks);
    print_stat_line(console, "  Ctx switches:  ", s.ctx_switches);
    console.print("  PMM frames:    ");
    print_dec(console, s.used_frames as u64);
    console.print(" / ");
    print_dec(console, s.total_frames as u64);
    console.print("\n");
    console.print("  Heap:          ");
    print_dec(console, (s.heap_used / 1024) as u64);
    console.print(" / ");
    print_dec(console, (s.heap_total / 1024) as u64);
    console.print(" KB\n");
    print_stat_line(console, "  Tasks:         ", s.task_count as u64);
    assert(console@ =~= mid + kernel_count_ops(*s));
}

} // verus!
