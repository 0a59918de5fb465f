//! `uname`: system identification.
use vstd::prelude::*;
use crate::console::{Console, OpView, txt};
use crate::text::str_eq;
use super::CmdResult;
use super::version::VersionInfo;

verus! {

/// What `uname` prints for its arguments.
pub open spec fn uname_ops(args: Seq<&str>, v: VersionInfo) -> Seq<OpView> {
    if args.len() == 0 {
        seq![txt("Vibra "@), txt(v.kernel_version@), txt(" "@), txt(v.kernel_codename@), txt(" "@),
            txt(v.architecture@), txt("\n"@)]
    } else if args[0]@ == "-a"@ {
        seq![txt("Vibra "@), txt(v.kernel_version@), txt(" "@), txt(v.kernel_codename@), txt(" vibra "@),
            txt(v.architecture@), txt(" "@), txt(v.os_version@), txt(" \""@), txt(v.os_codename@), txt("\"\n"@)]
    } else if args[0]@ == "-r"@ {
        seq![txt(v.kernel_version@), txt("\n"@)]
    } else if args[0]@ == "-s"@ {
        seq![txt("Vibra\n"@)]
    } else if args[0]@ == "-m"@ {
        seq![txt(v.architecture@), txt("\n"@)]
    } else if args[0]@ == "-o"@ {
        seq![txt("Vibra\n"@)]
    } else {
        seq![txt("Usage: uname [-a|-r|-s|-m|-o]\n"@)]
    }
}

pub fn run(args: &[&str], console: &mut Console, v: &VersionInfo) -> (r: CmdResult)
    ensures
        r == CmdResult::Done,
        final(console)@ == old(console)@ + uname_ops(args@, *v),
{
    if args.len() == 0 {
        console.print("Vibra ");
        console.print(v.kernel_version.as_str());
        console.print(" ");
        console.print(v.kernel_codename.as_str());
        console.print(" ");
        console.print(v.architecture.as_str());
        console.print("\n");
    } else if str_eq(args[0], "-a") {
        console.print("Vibra ");
        console.print(v.kernel_version.as_str());
        console.print(" ");
        console.print(v.kernel_codename.as_str());
        console.print(" vibra ");
        console.print(v.architecture.as_str());
        console.print(" ");
        console.print(v.os_version.as_str());
        console.print(" \"");
        console.print(v.os_codename.as_str());
        console.print("\"\n");
    } else if str_eq(args[0], "-r") {
        console.print(v.kernel_version.as_str());
        console.print("\n");
    } else if str_eq(args[0], "-s") {
        console.print("Vibra\n");
    } else if str_eq(args[0], "-m") {
        console.print(v.architecture.as_str());
        console.print("\n");
    } else if str_eq(args[0], "-o") {
        console.print("Vibra\n");
    } else {
        console.print("Usage: uname [-a|-r|-s|-m|-o]\n");
    }
    assert(console@ =~= old(console)@ + uname_ops(args@, *v));
    CmdResult::Done
}

} // verus!
