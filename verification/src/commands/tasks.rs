//! `tasks`: the task list with scheduler statistics.
use vstd::prelude::*;
use crate::console::{Console, OpView, Color, txt, col, dec};
use super::{CmdResult, print_dec};

verus! {

/// Colour of a task state: green when running, yellow when ready, white otherwise.
pub open spec fn state_color(state: Seq<char>) -> Color {
    if state == "Running"@ { Color::Green } else if state == "Ready"@ { Color::Yellow } else { Color::White }
}

/// The line for a task: its id right-aligned in three columns, its state
/// coloured and padded to eight bytes, its name.
pub open spec fn task_line(id: u32, name: Seq<char>, state: &str) -> Seq<OpView> {
    (if id < 10 { seq![txt("  "@)] } else if id < 100 { seq![txt(" "@)] } else { Seq::empty() })
        + seq![txt(dec(id as nat)), txt("  "@), col(state@, state_color(state@))]
        + Seq::new((8 - state.len()) as nat, |i: int| OpView::Char(' '))
        + seq![txt(name), OpView::Char('\n')]
}

pub open spec fn task_lines(tasks: Seq<(u32, String, &str)>) -> Seq<OpView>
    decreases tasks.len(),
{
    if tasks.len() == 0 {
        Seq::empty()
    } else {
        task_lines(tasks.drop_last()) + task_line(tasks.last().0, tasks.last().1@, tasks.last().2)
    }
}

pub open spec fn tasks_ops(tasks: Seq<(u32, String, &str)>, ticks: u64, ctx_sw: u64, count: usize) -> Seq<OpView> {
    seq![
        col("Task Manager\n"@, Color::Cyan),
        col("═══════════════════════════════════════\n"@, Color::Cyan),
        col("  PID  STATE     TIME    NAME\n"@, Color::Yellow),
        col("────── ───────── ─────── ──────────────\n"@, Color::Cyan),
    ] + task_lines(tasks) + seq![
        OpView::Char('\n'),
        txt("  Tasks: "@),
        txt(dec(count as nat)),
        txt("  Ticks: "@),
        txt(dec(ticks as nat)),
        txt("  Switches: "@),
        txt(dec(ctx_sw as nat)),
        OpView::Char('\n'),
    ]
}

/// `tasks` lists (id, name, state); `ticks`, `ctx_sw` and `count` are the
/// scheduler's tick count, context switches and number of tasks.
pub fn run(args: &[&str], console: &mut Console, tasks: &Vec<(u32, String, &str)>, ticks: u64, ctx_sw: u64, count: usize) -> (r: CmdResult)
    requires
        forall|i: int| 0 <= i < tasks@.len() ==> (#[trigger] tasks@[i]).2.len() <= 8,
    ensures
        r == CmdResult::Done,
        final(console)@ == old(console)@ + tasks_ops(tasks@, ticks, ctx_sw, count),
{
    console.print_colored("Task Manager\n", Color::Cyan);
    console.print_colored("═══════════════════════════════════════\n", Color::Cyan);
    console.print_colored("  PID  STATE     TIME    NAME\n", Color::Yellow);
    console.print_colored("────── ───────── ─────── ──────────────\n", Color::Cyan);
    let ghost head = console@;
    let mut i: usize = 0;
    while i < tasks.len()
        invariant
            i <= tasks@.len(),
            forall|k: int| 0 <= k < tasks@.len() ==> (#[trigger] tasks@[k]).2.len() <= 8,
            console@ == head + task_lines(tasks@.take(i as int)),
        decreases tasks.len() - i,
    {
        let ghost before = console@;
        let id = tasks[i].0;
        let state = tasks[i].2;
        if id < 10 {
            console.print("  ");
        } else if id < 100 {
            console.print(" ");
        }
        print_dec(console, id as u64);
        console.print("  ");
        let c = if crate::text::str_eq(state, "Running") {
            Color::Green
        } else if crate::text::str_eq(state, "Ready") {
            Color::Yellow
        } else {
            Color::White
        };
        console.print_colored(state, c);
        let ghost mid = console@;
        let padding = 8 - state.len();
        let mut k: usize = 0;
        while k < padding
            invariant
                k <= padding,
                console@ == mid + Seq::new(k as nat, |j: int| OpView::Char(' ')),
            decreases padding - k,
        {
            console.put_char(' ');
            k = k + 1;
            assert(console@ =~= mid + Seq::new(k as nat, |j: int| OpView::Char(' ')));
        }
        console.print(tasks[i].1.as_str());
        console.put_char('\n');
        proof {
            let t = tasks@.take(i + 1);
            assert(t.drop_last() =~= tasks@.take(i as int));
            assert(t.last() == tasks@[i as int]);
            assert(console@ =~= before + task_line(id, tasks@[i as int].1@, state));
        }
        i = i + 1;
    }
    assert(tasks@.take(tasks@.len() as int) =~= tasks@);
    console.put_char('\n');
    console.print("  Tasks: ");
    print_dec(console, count as u64);
    console.print("  Ticks: ");
    print_dec(console, ticks);
    console.print("  Switches: ");
    print_dec(console, ctx_sw);
    console.put_char('\n');
    assert(console@ =~= old(console)@ + tasks_ops(tasks@, ticks, ctx_sw, count));
    CmdResult::Done
}

} // verus!
