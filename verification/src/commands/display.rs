//! `display`: the active pixel format, the registered back-ends and the
//! console framebuffer.
use vstd::prelude::*;
use crate::console::{Console, OpView, Color, txt, col, dec};
use crate::display::{DisplayManager, BackendView, format_name_spec, get_active_format, backend_count, get_backend_info};
use super::{CmdResult, print_dec};

verus! {

pub open spec fn backends_of(mgr: Option<DisplayManager>) -> Seq<BackendView> {
    match mgr {
        Some(m) => m@,
        None => Seq::empty(),
    }
}

pub open spec fn active_format_of(mgr: Option<DisplayManager>) -> crate::display::PixelFormat {
    match mgr {
        Some(m) => if m.spec_active() < m@.len() { m@[m.spec_active() as int].4 } else { crate::display::PixelFormat::Bgr888 },
        None => crate::display::PixelFormat::Bgr888,
    }
}

pub open spec fn backend_line(i: nat, e: BackendView) -> Seq<OpView> {
    seq![
        txt("    ["@), txt(dec(i)), txt("] "@), col(e.0, Color::Yellow), txt("  "@), txt(dec(e.1 as nat)), txt("x"@),
        txt(dec(e.2 as nat)), txt("  "@), txt(dec(e.3 as nat)), txt("bpp  "@), txt(format_name_spec(e.4)), txt("\n"@),
    ]
}

pub open spec fn backend_lines(es: Seq<BackendView>) -> Seq<OpView>
    decreases es.len(),
{
    if es.len() == 0 {
        Seq::empty()
    } else {
        backend_lines(es.drop_last()) + backend_line((es.len() - 1) as nat, es.last())
    }
}

pub open spec fn display_ops(mgr: Option<DisplayManager>, w: usize, h: usize, pitch: usize) -> Seq<OpView> {
    let es = backends_of(mgr);
    seq![
        col("=== Дисплей ===\n"@, Color::Cyan),
        txt("  Текущий формат: "@),
        col(format_name_spec(active_format_of(mgr)), Color::Green),
        txt("\n"@),
        txt("  Бэкендов: "@),
        txt(dec(es.len())),
        txt("\n\n"@),
    ] + (if es.len() > 0 {
        seq![col("  Доступные бэкенды:\n"@, Color::Cyan)] + backend_lines(es)
    } else {
        seq![col("  Нет зарегистрированных бэкендов\n"@, Color::Yellow)]
    }) + seq![
        txt("\n"@),
        col("  Консоль:\n"@, Color::Cyan),
        txt("    Экран: "@),
        txt(dec(w as nat)),
        txt("x"@),
        txt(dec(h as nat)),
        txt("\n"@),
        txt("    Питч: "@),
        txt(dec(pitch as nat)),
        txt(" слов\n"@),
    ]
}

pub fn run(args: &[&str], console: &mut Console, mgr: &Option<DisplayManager>) -> (r: CmdResult)
    ensures
        r == CmdResult::Done,
        final(console)@ == old(console)@ + display_ops(*mgr, old(console).spec_fb_width(), old(console).spec_fb_height(), old(console).spec_fb_pitch()),
{
    let format = get_active_format(mgr);
    let count = backend_count(mgr);
    let ghost es = backends_of(*mgr);
    console.print_colored("=== Дисплей ===\n", Color::Cyan);
    console.print("  Текущий формат: ");
    console.print_colored(format.name(), Color::Green);
    console.print("\n");
    console.print("  Бэкендов: ");
    print_dec(console, count as u64);
    console.print("\n\n");
    let ghost head = console@;
    if count > 0 {
        console.print_colored("  Доступные бэкенды:\n", Color::Cyan);
        let ghost start = console@;
        let mut i: usize = 0;
        while i < count
            invariant
                i <= count,
                count == es.len(),
                es == backends_of(*mgr),
                console@ == start + backend_lines(es.take(i as int)),
                console.spec_fb_width() == old(console).spec_fb_width(),
                console.spec_fb_height() == old(console).spec_fb_height(),
                console.spec_fb_pitch() == old(console).spec_fb_pitch(),
            decreases count - i,
        {
            let ghost before = console@;
            match get_backend_info(mgr, i) {
                Some((name, w, h, bpp, fmt)) => {
                    console.print("    [");
                    print_dec(console, i as u64);
                    console.print("] ");
                    console.print_colored(name.as_str(), Color::Yellow);
                    console.print("  ");
                    print_dec(console, w as u64);
                    console.print("x");
                    print_dec(console, h as u64);
                    console.print("  ");
                    print_dec(console, bpp as u64);
                    console.print("bpp  ");
                    console.print(fmt.name());
                    console.print("\n");
                    proof {
                        let t = es.take(i + 1);
                        assert(t.drop_last() =~= es.take(i as int));
                        assert(t.last() == es[i as int]);
                        assert(console@ =~= before + backend_line(i as nat, es[i as int]));
                    }
                }
                None => {}
            }
            i = i + 1;
        }
        assert(es.take(es.len() as int) =~= es);
    } else {
        console.print_colored("  Нет зарегистрированных бэкендов\n", Color::Yellow);
    }
    console.print("\n");
    console.print_colored("  Консоль:\n", Color::Cyan);
    console.print("    Экран: ");
    print_dec(console, console.fb_width() as u64);
    console.print("x");
    print_dec(console, console.fb_height() as u64);
    console.print("\n");
    console.print("    Питч: ");
    print_dec(console, console.fb_pitch() as u64);
    console.print(" слов\n");
    assert(console@ =~= old(console)@ + display_ops(*mgr, old(console).spec_fb_width(), old(console).spec_fb_height(), old(console).spec_fb_pitch()));
    CmdResult::Done
}

} // verus!
