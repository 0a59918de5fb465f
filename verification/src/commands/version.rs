//! `version`: the OS or kernel version.
use vstd::prelude::*;
use crate::console::{Console, OpView, Color, txt, col};
use crate::text::str_eq;
use super::{CmdResult, arg_texts};

verus! {

/// Version strings of the system.
pub struct VersionInfo {
    pub kernel_version: String,
    pub kernel_codename: String,
    pub architecture: String,
    pub os_version: String,
    pub os_codename: String,
}

pub open spec fn kernel_ops(v: VersionInfo) -> Seq<OpView> {
    seq![
        col("Vibra Kernel v"@, Color::Cyan),
        col(v.kernel_version@, Color::Cyan),
        txt(" \""@),
        col(v.kernel_codename@, Color::Cyan),
        txt("\"\n"@),
        txt("  Architecture : "@),
        txt(v.architecture@),
        txt("\n"@),
        txt("  Type         : Modular Monolithic\n"@),
        txt("  Bootloader   : Limine (UEFI)\n"@),
    ]
}

pub open spec fn os_ops(v: VersionInfo) -> Seq<OpView> {
    seq![
        col("Vibra OS v"@, Color::Cyan),
        col(v.os_version@, Color::Cyan),
        txt(" \""@),
        col(v.os_codename@, Color::Cyan),
        txt("\"\n"@),
        txt("  Kernel: v"@),
        txt(v.kernel_version@),
        txt(" \""@),
        txt(v.kernel_codename@),
        txt("\"\n"@),
        txt("  Tip: try 'version kernel' for details\n"@),
    ]
}

/// Prints the kernel's details when the first argument is `kernel`, the
/// OS version otherwise.
pub fn run(args: &[&str], console: &mut Console, v: &VersionInfo) -> (r: CmdResult)
    ensures
        r == CmdResult::Done,
        final(console)@ == old(console)@ + (if args@.len() > 0 && args@[0]@ == "kernel"@ { kernel_ops(*v) } else { os_ops(*v) }),
{
    let show_kernel = args.len() > 0 && str_eq(args[0], "kernel");
    if show_kernel {
        console.print_colored("Vibra Kernel v", Color::Cyan);
        console.print_colored(v.kernel_version.as_str(), Color::Cyan);
        console.print(" \"");
        console.print_colored(v.kernel_codename.as_str(), Color::Cyan);
        console.print("\"\n");
        console.print("  Architecture : ");
        console.print(v.architecture.as_str());
        console.print("\n");
        console.print("  Type         : Modular Monolithic\n");
        console.print("  Bootloader   : Limine (UEFI)\n");
        assert(console@ =~= old(console)@ + kernel_ops(*v));
    } else {
        console.print_colored("Vibra OS v", Color::Cyan);
        console.print_colored(v.os_version.as_str(), Color::Cyan);
        console.print(" \"");
        console.print_colored(v.os_codename.as_str(), Color::Cyan);
        console.print("\"\n");
        console.print("  Kernel: v");
        console.print(v.kernel_version.as_str());
        console.print(" \"");
        console.print(v.kernel_codename.as_str());
        console.print("\"\n");
        console.print("  Tip: try 'version kernel' for details\n");
        assert(console@ =~= old(console)@ + os_ops(*v));
    }
    CmdResult::Done
}

} // verus!
