//! `hostname`: shows or sets the host name kept in `/cfg/hostname`.
use vstd::prelude::*;
use crate::console::{Console, OpView, Color, txt, col};
use crate::text::{utf8_text, decode_utf8, trim_end, trim_end_spec};
use super::CmdResult;

verus! {

/// The file-system work `hostname` needed: reading `/cfg/hostname` (its
/// contents, none when it could not be read), or writing the new name to
/// it (the error as its message).
pub enum HostnameIo {
    Read(Option<Vec<u8>>),
    Written(Result<(), String>),
}

pub open spec fn hostname_ops(args: Seq<&str>, io: HostnameIo) -> Seq<OpView> {
    match io {
        HostnameIo::Read(None) => seq![txt("vibra\n"@)],
        HostnameIo::Read(Some(data)) => match utf8_text(data@) {
            Some(t) => seq![txt(trim_end_spec(t)), OpView::Char('\n')],
            None => Seq::empty(),
        },
        HostnameIo::Written(Ok(_)) => seq![col("Hostname set to: "@, Color::Green), txt(args[0]@), OpView::Char('\n')],
        HostnameIo::Written(Err(e)) => seq![col("hostname: error setting hostname: "@, Color::Red), txt(e@), OpView::Char('\n')],
    }
}

/// Without arguments the stored host name (trailing white space removed;
/// `vibra` when the file cannot be read); with one, the report on setting it.
pub fn run(args: &[&str], console: &mut Console, io: HostnameIo) -> (r: CmdResult)
    requires
        io is Read <==> args@.len() == 0,
    ensures
        r == CmdResult::Done,
        final(console)@ == old(console)@ + hostname_ops(args@, io),
{
    match io {
        HostnameIo::Read(None) => {
            console.print("vibra\n");
        }
        HostnameIo::Read(Some(data)) => {
            match decode_utf8(data.as_slice()) {
                Some(s) => {
                    let t = trim_end(s.as_str());
                    console.print(t.as_str());
                    console.put_char('\n');
                }
                None => {}
            }
        }
        HostnameIo::Written(Ok(())) => {
            console.print_colored("Hostname set to: ", Color::Green);
            console.print(args[0]);
            console.put_char('\n');
        }
        HostnameIo::Written(Err(e)) => {
            console.print_colored("hostname: error setting hostname: ", Color::Red);
            console.print(e.as_str());
            console.put_char('\n');
        }
    }
    assert(console@ =~= old(console)@ + hostname_ops(args@, io));
    CmdResult::Done
}

} // verus!
