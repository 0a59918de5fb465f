//! Shell commands.  Each command prints to the console; what it needs from
//! the rest of the kernel (clock ticks, memory statistics, file-system
//! results, ...) is handed in, and what it asks the kernel to do is handed
//! back.
use vstd::prelude::*;
use crate::console::{Console, OpView, txt, dec, dec_string};

pub mod apic;
pub mod cp;
pub mod date;
pub mod desktop;
pub mod df;
pub mod diag;
pub mod display;
pub mod echo;
pub mod edit;
pub mod heap;
pub mod help;
pub mod history;
pub mod hostname;
pub mod id;
pub mod kill;
pub mod memmap;
pub mod mount;
pub mod net;
pub mod pwd;
pub mod quit;
pub mod reboot;
pub mod rm;
pub mod su;
pub mod systest;
pub mod tasks;
pub mod test_disk;
pub mod touch;
pub mod uname;
pub mod uptime;
pub mod version;

verus! {

/// What the shell does after a command.
#[derive(PartialEq, Eq, Structural, Clone, Copy, Debug)]
pub enum CmdResult {
    Done,
    Continue,
}

/// The arguments of a command as texts.
pub open spec fn arg_texts(args: Seq<&str>) -> Seq<Seq<char>> {
    args.map_values(|a: &str| a@)
}

/// Value of a string of decimal digits.
pub open spec fn digits_value(s: Seq<char>) -> int
    decreases s.len(),
{
    if s.len() == 0 {
        0
    } else {
        digits_value(s.drop_last()) * 10 + (s.last() as int - '0' as int)
    }
}

pub open spec fn all_digits(s: Seq<char>) -> bool {
    forall|i: int| 0 <= i < s.len() ==> '0' <= #[trigger] s[i] <= '9'
}

/// An unsigned decimal number as `str::parse` reads it: an optional `+`,
/// then one digit or more and nothing else, of value at most `max`.
pub open spec fn parse_unsigned(s: Seq<char>, max: int) -> Option<int> {
    let d = if s.len() > 0 && s[0] == '+' { s.drop_first() } else { s };
    if d.len() > 0 && all_digits(d) && digits_value(d) <= max {
        Some(digits_value(d))
    } else {
        None
    }
}

proof fn lemma_digits_grow(s: Seq<char>, i: int)
    requires
        0 <= i < s.len(),
        all_digits(s),
    ensures
        digits_value(s.take(i + 1)) == digits_value(s.take(i)) * 10 + (s[i] as int - '0' as int),
        digits_value(s.take(i + 1)) >= digits_value(s.take(i)),
        digits_value(s.take(i)) >= 0,
{
    assert(s.take(i + 1).drop_last() =~= s.take(i));
    lemma_digits_nonneg(s.take(i));
}

proof fn lemma_digits_nonneg(s: Seq<char>)
    requires
        all_digits(s),
    ensures
        digits_value(s) >= 0,
    decreases s.len(),
{
    if s.len() > 0 {
        assert(all_digits(s.drop_last())) by {
            assert forall|i: int| 0 <= i < s.drop_last().len() implies '0' <= #[trigger] s.drop_last()[i] <= '9' by {
                assert(s.drop_last()[i] == s[i]);
            }
        }
        lemma_digits_nonneg(s.drop_last());
    }
}

proof fn lemma_digits_mono(s: Seq<char>, i: int, j: int)
    requires
        0 <= i <= j <= s.len(),
        all_digits(s),
    ensures
        digits_value(s.take(i)) <= digits_value(s.take(j)),
    decreases j - i,
{
    if i < j {
        lemma_digits_mono(s, i, j - 1);
        lemma_digits_grow(s, j - 1);
    }
}

/// Parses an unsigned decimal number of value at most `max`.
pub fn parse_bounded(s: &str, max: u64) -> (r: Option<u64>)
    ensures
        r is Some <==> parse_unsigned(s@, max as int) is Some,
        r matches Some(v) ==> v <= max && parse_unsigned(s@, max as int) == Some(v as int),
{
    let n = s.unicode_len();
    let start: usize = if n > 0 && s.get_char(0) == '+' { 1 } else { 0 };
    let ghost d = if s@.len() > 0 && s@[0] == '+' { s@.drop_first() } else { s@ };
    assert(d =~= s@.subrange(start as int, n as int));
    if start >= n {
        return None;
    }
    let mut v: u64 = 0;
    let mut i: usize = start;
    while i < n
        invariant
            start <= i <= n,
            n == s@.len(),
            start < n,
            d == s@.subrange(start as int, n as int),
            d == (if s@.len() > 0 && s@[0] == '+' { s@.drop_first() } else { s@ }),
            forall|k: int| 0 <= k < i - start ==> '0' <= #[trigger] d[k] <= '9',
            v == digits_value(d.take(i - start)),
            v <= max,
        decreases n - i,
    {
        let c = s.get_char(i);
        if !('0' <= c && c <= '9') {
            assert(d[i - start] == c);
            assert(!all_digits(d));
            assert(parse_unsigned(s@, max as int) is None);
            return None;
        }
        let digit = (c as u32 - '0' as u32) as u64;
        proof {
            assert(d[i - start] == c);
            let dd = d.take(i - start + 1);
            assert(dd.drop_last() =~= d.take(i - start));
            assert(dd.last() == c);
            assert(digits_value(dd) == v * 10 + digit);
        }
        if digit > max || v > (max - digit) / 10 {
            proof {
                if digit <= max {
                    assert(v * 10 + digit > max) by (nonlinear_arith)
                        requires
                            v > (max - digit) / 10,
                            digit <= max,
                    ;
                }
                assert forall|k: int| 0 <= k < i - start + 1 implies '0' <= #[trigger] d[k] <= '9' by {}
                if all_digits(d) {
                    lemma_digits_mono(d, i - start + 1, d.len() as int);
                    assert(d.take(d.len() as int) =~= d);
                    assert(digits_value(d) > max);
                }
                assert(parse_unsigned(s@, max as int) is None);
            }
            return None;
        }
        proof {
            assert(v * 10 + digit <= max) by (nonlinear_arith)
                requires
                    v <= (max - digit) / 10,
                    digit <= max,
            ;
        }
        v = v * 10 + digit;
        i = i + 1;
    }
    assert(d.take(d.len() as int) =~= d);
    Some(v)
}

/// Prints `n` in decimal.
pub fn print_dec(console: &mut Console, n: u64)
    ensures
        final(console)@ == old(console)@.push(txt(dec(n as nat))),
        final(console).spec_fb_width() == old(console).spec_fb_width(),
        final(console).spec_fb_height() == old(console).spec_fb_height(),
        final(console).spec_fb_pitch() == old(console).spec_fb_pitch(),
{
    console.print_string(dec_string(n));
}

/// `n` copies of one operation.
pub open spec fn repeat_op(op: OpView, n: nat) -> Seq<OpView> {
    Seq::new(n, |i: int| op)
}

/// Prints character `c` `n` times.
pub fn put_char_n(console: &mut Console, c: char, n: usize)
    ensures
        final(console)@ == old(console)@ + repeat_op(OpView::Char(c), n as nat),
        final(console).spec_fb_width() == old(console).spec_fb_width(),
        final(console).spec_fb_height() == old(console).spec_fb_height(),
        final(console).spec_fb_pitch() == old(console).spec_fb_pitch(),
{
    let mut k: usize = 0;
    while k < n
        invariant
            k <= n,
            console@ == old(console)@ + repeat_op(OpView::Char(c), k as nat),
            console.spec_fb_width() == old(console).spec_fb_width(),
            console.spec_fb_height() == old(console).spec_fb_height(),
            console.spec_fb_pitch() == old(console).spec_fb_pitch(),
        decreases n - k,
    {
        console.put_char(c);
        k = k + 1;
        assert(console@ =~= old(console)@ + repeat_op(OpView::Char(c), k as nat));
    }
}

/// Prints text `s` `n` times, one operation each.
pub fn print_n(console: &mut Console, s: &str, n: usize)
    ensures
        final(console)@ == old(console)@ + repeat_op(txt(s@), n as nat),
        final(console).spec_fb_width() == old(console).spec_fb_width(),
        final(console).spec_fb_height() == old(console).spec_fb_height(),
        final(console).spec_fb_pitch() == old(console).spec_fb_pitch(),
{
    let mut k: usize = 0;
    while k < n
        invariant
            k <= n,
            console@ == old(console)@ + repeat_op(txt(s@), k as nat),
            console.spec_fb_width() == old(console).spec_fb_width(),
            console.spec_fb_height() == old(console).spec_fb_height(),
            console.spec_fb_pitch() == old(console).spec_fb_pitch(),
        decreases n - k,
    {
        console.print(s);
        k = k + 1;
        assert(console@ =~= old(console)@ + repeat_op(txt(s@), k as nat));
    }
}

} // verus!
