//! The text console as the kernel's shell sees it: an append-only record of
//! what was printed (text with its colour, single characters, pixels and
//! filled rectangles), together with the framebuffer geometry.  The record is
//! handed to the display driver, which renders it.
use vstd::prelude::*;

verus! {

/// Colours used by the shell.
#[derive(PartialEq, Eq, Structural, Clone, Copy, Debug)]
pub enum Color {
    Default,
    Red,
    Green,
    Yellow,
    Cyan,
    White,
    Prompt,
    Foreground,
}

/// One recorded console operation.
pub enum ConsoleOp {
    Text(String, Color),
    Char(char),
    Pixel(usize, usize, u32),
    Rect(usize, usize, usize, usize, u32),
    TextAt(usize, usize, String, u32, u32),
}

/// Abstract value of a console operation.
pub enum OpView {
    Text(Seq<char>, Color),
    Char(char),
    Pixel(usize, usize, u32),
    Rect(usize, usize, usize, usize, u32),
    TextAt(usize, usize, Seq<char>, u32, u32),
}

impl ConsoleOp {
    pub open spec fn view(&self) -> OpView {
        match self {
            ConsoleOp::Text(s, c) => OpView::Text(s@, *c),
            ConsoleOp::Char(c) => OpView::Char(*c),
            ConsoleOp::Pixel(x, y, c) => OpView::Pixel(*x, *y, *c),
            ConsoleOp::Rect(x, y, w, h, c) => OpView::Rect(*x, *y, *w, *h, *c),
            ConsoleOp::TextAt(x, y, s, fg, bg) => OpView::TextAt(*x, *y, s@, *fg, *bg),
        }
    }
}

pub struct Console {
    ops: Vec<ConsoleOp>,
    fb_width: usize,
    fb_height: usize,
    fb_pitch: usize,
}

/// Plain text in the default colour.
pub open spec fn txt(s: Seq<char>) -> OpView {
    OpView::Text(s, Color::Default)
}

/// Text in colour `c`.
pub open spec fn col(s: Seq<char>, c: Color) -> OpView {
    OpView::Text(s, c)
}

/// Decimal digit character for `d < 10`.
pub open spec fn digit_char(d: nat) -> char {
    if d == 0 { '0' }
    else if d == 1 { '1' }
    else if d == 2 { '2' }
    else if d == 3 { '3' }
    else if d == 4 { '4' }
    else if d == 5 { '5' }
    else if d == 6 { '6' }
    else if d == 7 { '7' }
    else if d == 8 { '8' }
    else { '9' }
}

/// Decimal representation of `n`, without leading zeros.
pub open spec fn dec(n: nat) -> Seq<char>
    decreases n,
{
    if n < 10 {
        seq![digit_char(n)]
    } else {
        dec(n / 10).push(digit_char(n % 10))
    }
}

/// Hexadecimal digit character for `d < 16`; `upper` selects `A`-`F` over `a`-`f`.
pub open spec fn hex_char(d: nat, upper: bool) -> char {
    if d < 10 {
        digit_char(d)
    } else if d == 10 {
        if upper { 'A' } else { 'a' }
    } else if d == 11 {
        if upper { 'B' } else { 'b' }
    } else if d == 12 {
        if upper { 'C' } else { 'c' }
    } else if d == 13 {
        if upper { 'D' } else { 'd' }
    } else if d == 14 {
        if upper { 'E' } else { 'e' }
    } else {
        if upper { 'F' } else { 'f' }
    }
}

/// The `width` lowest hexadecimal digits of `v`, most significant first.
pub open spec fn hex_fixed(v: nat, width: nat, upper: bool) -> Seq<char>
    decreases width,
{
    if width == 0 {
        Seq::empty()
    } else {
        hex_fixed(v / 16, (width - 1) as nat, upper).push(hex_char(v % 16, upper))
    }
}

/// Hexadecimal representation of `v` without leading zeros (uppercase).
pub open spec fn hex_min(v: nat) -> Seq<char>
    decreases v,
{
    if v < 16 {
        seq![hex_char(v, true)]
    } else {
        hex_min(v / 16).push(hex_char(v % 16, true))
    }
}

fn digit_str(d: u64) -> (s: &'static str)
    requires
        d < 10,
    ensures
        s@ == seq![digit_char(d as nat)],
{
    if d == 0 {
        proof { reveal_strlit("0"); }
        "0"
    } else if d == 1 {
        proof { reveal_strlit("1"); }
        "1"
    } else if d == 2 {
        proof { reveal_strlit("2"); }
        "2"
    } else if d == 3 {
        proof { reveal_strlit("3"); }
        "3"
    } else if d == 4 {
        proof { reveal_strlit("4"); }
        "4"
    } else if d == 5 {
        proof { reveal_strlit("5"); }
        "5"
    } else if d == 6 {
        proof { reveal_strlit("6"); }
        "6"
    } else if d == 7 {
        proof { reveal_strlit("7"); }
        "7"
    } else if d == 8 {
        proof { reveal_strlit("8"); }
        "8"
    } else {
        proof { reveal_strlit("9"); }
        "9"
    }
}

fn hex_str(d: u64, upper: bool) -> (s: &'static str)
    requires
        d < 16,
    ensures
        s@ == seq![hex_char(d as nat, upper)],
{
    if d < 10 {
        digit_str(d)
    } else if d == 10 {
        if upper { proof { reveal_strlit("A"); } "A" } else { proof { reveal_strlit("a"); } "a" }
    } else if d == 11 {
        if upper { proof { reveal_strlit("B"); } "B" } else { proof { reveal_strlit("b"); } "b" }
    } else if d == 12 {
        if upper { proof { reveal_strlit("C"); } "C" } else { proof { reveal_strlit("c"); } "c" }
    } else if d == 13 {
        if upper { proof { reveal_strlit("D"); } "D" } else { proof { reveal_strlit("d"); } "d" }
    } else if d == 14 {
        if upper { proof { reveal_strlit("E"); } "E" } else { proof { reveal_strlit("e"); } "e" }
    } else {
        if upper { proof { reveal_strlit("F"); } "F" } else { proof { reveal_strlit("f"); } "f" }
    }
}

/// Appends the decimal representation of `n` to `s`.
pub fn push_dec(s: &mut String, n: u64)
    ensures
        final(s)@ == old(s)@ + dec(n as nat),
    decreases n,
{
    if n >= 10 {
        push_dec(s, n / 10);
    }
    s.append(digit_str(n % 10));
}

/// Decimal representation of `n` as a string.
pub fn dec_string(n: u64) -> (s: String)
    ensures
        s@ == dec(n as nat),
{
    let mut s = String::new();
    push_dec(&mut s, n);
    assert(s@ =~= dec(n as nat));
    s
}

/// Appends the `width` lowest hexadecimal digits of `v` to `s`.
pub fn push_hex_fixed(s: &mut String, v: u64, width: u64, upper: bool)
    ensures
        final(s)@ == old(s)@ + hex_fixed(v as nat, width as nat, upper),
    decreases width,
{
    if width > 0 {
        push_hex_fixed(s, v / 16, width - 1, upper);
        s.append(hex_str(v % 16, upper));
    } else {
        assert(hex_fixed(v as nat, 0, upper) =~= Seq::<char>::empty());
    }
}

/// Decimal representation of `n` padded with a leading zero to at least two digits.
pub open spec fn pad2(n: nat) -> Seq<char> {
    if n < 10 { seq!['0'] + dec(n) } else { dec(n) }
}

/// Appends `n` in decimal, padded with a leading zero to at least two digits.
pub fn push_dec_pad2(s: &mut String, n: u64)
    ensures
        final(s)@ == old(s)@ + pad2(n as nat),
{
    if n < 10 {
        s.append(digit_str(0));
        assert(seq![digit_char(0)] =~= seq!['0']);
    }
    push_dec(s, n);
    assert(final(s)@ =~= old(s)@ + pad2(n as nat));
}

/// Fixed-width hexadecimal representation of `v`.
pub fn hex_fixed_string(v: u64, width: u64, upper: bool) -> (s: String)
    ensures
        s@ == hex_fixed(v as nat, width as nat, upper),
{
    let mut s = String::new();
    push_hex_fixed(&mut s, v, width, upper);
    assert(s@ =~= hex_fixed(v as nat, width as nat, upper));
    s
}

/// Appends the uppercase hexadecimal representation of `v`, without leading zeros.
pub fn push_hex_min(s: &mut String, v: u64)
    ensures
        final(s)@ == old(s)@ + hex_min(v as nat),
    decreases v,
{
    if v >= 16 {
        push_hex_min(s, v / 16);
    }
    s.append(hex_str(v % 16, true));
}

/// The characters a sequence of operations writes to the text console:
/// printed text and single characters, in order (drawing operations write none).
pub open spec fn transcript_spec(ops: Seq<OpView>) -> Seq<char>
    decreases ops.len(),
{
    if ops.len() == 0 {
        Seq::empty()
    } else {
        transcript_spec(ops.drop_last()) + match ops.last() {
            OpView::Text(s, _) => s,
            OpView::Char(c) => seq![c],
            _ => Seq::empty(),
        }
    }
}

impl Console {
    pub closed spec fn view(&self) -> Seq<OpView> {
        self.ops@.map_values(|o: ConsoleOp| o.view())
    }

    pub closed spec fn spec_fb_width(&self) -> usize {
        self.fb_width
    }

    pub closed spec fn spec_fb_height(&self) -> usize {
        self.fb_height
    }

    pub closed spec fn spec_fb_pitch(&self) -> usize {
        self.fb_pitch
    }

    /// An empty console over a framebuffer of the given geometry.
    pub fn new(fb_width: usize, fb_height: usize, fb_pitch: usize) -> (c: Console)
        ensures
            c@ == Seq::<OpView>::empty(),
            c.spec_fb_width() == fb_width,
            c.spec_fb_height() == fb_height,
            c.spec_fb_pitch() == fb_pitch,
    {
        let c = Console { ops: Vec::new(), fb_width, fb_height, fb_pitch };
        assert(c@ =~= Seq::<OpView>::empty());
        c
    }

    fn push_op(&mut self, op: ConsoleOp)
        ensures
            final(self)@ == old(self)@.push(op.view()),
            final(self).spec_fb_width() == old(self).spec_fb_width(),
            final(self).spec_fb_height() == old(self).spec_fb_height(),
            final(self).spec_fb_pitch() == old(self).spec_fb_pitch(),
    {
        let ghost v = op.view();
        self.ops.push(op);
        assert(self@ =~= old(self)@.push(v));
    }

    /// Prints `s` in the default colour.
    pub fn print(&mut self, s: &str)
        ensures
            final(self)@ == old(self)@.push(txt(s@)),
            final(self).spec_fb_width() == old(self).spec_fb_width(),
            final(self).spec_fb_height() == old(self).spec_fb_height(),
            final(self).spec_fb_pitch() == old(self).spec_fb_pitch(),
    {
        self.push_op(ConsoleOp::Text(String::from_str(s), Color::Default));
    }

    /// Prints `s` in colour `c`.
    pub fn print_colored(&mut self, s: &str, c: Color)
        ensures
            final(self)@ == old(self)@.push(col(s@, c)),
            final(self).spec_fb_width() == old(self).spec_fb_width(),
            final(self).spec_fb_height() == old(self).spec_fb_height(),
            final(self).spec_fb_pitch() == old(self).spec_fb_pitch(),
    {
        self.push_op(ConsoleOp::Text(String::from_str(s), c));
    }

    /// Prints an owned string in the default colour.
    pub fn print_string(&mut self, s: String)
        ensures
            final(self)@ == old(self)@.push(txt(s@)),
            final(self).spec_fb_width() == old(self).spec_fb_width(),
            final(self).spec_fb_height() == old(self).spec_fb_height(),
            final(self).spec_fb_pitch() == old(self).spec_fb_pitch(),
    {
        self.push_op(ConsoleOp::Text(s, Color::Default));
    }

    /// Prints an owned string in colour `c`.
    pub fn print_string_colored(&mut self, s: String, c: Color)
        ensures
            final(self)@ == old(self)@.push(col(s@, c)),
            final(self).spec_fb_width() == old(self).spec_fb_width(),
            final(self).spec_fb_height() == old(self).spec_fb_height(),
            final(self).spec_fb_pitch() == old(self).spec_fb_pitch(),
    {
        self.push_op(ConsoleOp::Text(s, c));
    }

    /// Prints one character.
    pub fn put_char(&mut self, ch: char)
        ensures
            final(self)@ == old(self)@.push(OpView::Char(ch)),
            final(self).spec_fb_width() == old(self).spec_fb_width(),
            final(self).spec_fb_height() == old(self).spec_fb_height(),
            final(self).spec_fb_pitch() == old(self).spec_fb_pitch(),
    {
        self.push_op(ConsoleOp::Char(ch));
    }

    /// Prints `n` in decimal.
    pub fn print_num(&mut self, n: usize)
        ensures
            final(self)@ == old(self)@.push(txt(dec(n as nat))),
            final(self).spec_fb_width() == old(self).spec_fb_width(),
            final(self).spec_fb_height() == old(self).spec_fb_height(),
            final(self).spec_fb_pitch() == old(self).spec_fb_pitch(),
    {
        let s = dec_string(n as u64);
        self.print_string(s);
    }

    /// Plots one pixel.
    pub fn put_pixel(&mut self, x: usize, y: usize, color: u32)
        ensures
            final(self)@ == old(self)@.push(OpView::Pixel(x, y, color)),
            final(self).spec_fb_width() == old(self).spec_fb_width(),
            final(self).spec_fb_height() == old(self).spec_fb_height(),
            final(self).spec_fb_pitch() == old(self).spec_fb_pitch(),
    {
        self.push_op(ConsoleOp::Pixel(x, y, color));
    }

    /// Fills a rectangle.
    pub fn fill_rect(&mut self, x: usize, y: usize, w: usize, h: usize, color: u32)
        ensures
            final(self)@ == old(self)@.push(OpView::Rect(x, y, w, h, color)),
            final(self).spec_fb_width() == old(self).spec_fb_width(),
            final(self).spec_fb_height() == old(self).spec_fb_height(),
            final(self).spec_fb_pitch() == old(self).spec_fb_pitch(),
    {
        self.push_op(ConsoleOp::Rect(x, y, w, h, color));
    }

    /// Draws text at a pixel position with the given foreground and background.
    pub fn draw_text_at(&mut self, x: usize, y: usize, s: String, fg: u32, bg: u32)
        ensures
            final(self)@ == old(self)@.push(OpView::TextAt(x, y, s@, fg, bg)),
            final(self).spec_fb_width() == old(self).spec_fb_width(),
            final(self).spec_fb_height() == old(self).spec_fb_height(),
            final(self).spec_fb_pitch() == old(self).spec_fb_pitch(),
    {
        self.push_op(ConsoleOp::TextAt(x, y, s, fg, bg));
    }

    pub fn fb_width(&self) -> (r: usize)
        ensures
            r == self.spec_fb_width(),
    {
        self.fb_width
    }

    pub fn fb_height(&self) -> (r: usize)
        ensures
            r == self.spec_fb_height(),
    {
        self.fb_height
    }

    pub fn fb_pitch(&self) -> (r: usize)
        ensures
            r == self.spec_fb_pitch(),
    {
        self.fb_pitch
    }

    /// The recorded operation at index `i`.
    pub fn op_at(&self, i: usize) -> (r: &ConsoleOp)
        requires
            i < self@.len(),
        ensures
            r.view() == self@[i as int],
    {
        &self.ops[i]
    }

    /// Everything written to the text console so far, character by character.
    pub fn transcript(&self) -> (s: Vec<char>)
        ensures
            s@ == transcript_spec(self@),
    {
        let mut out: Vec<char> = Vec::new();
        let mut i: usize = 0;
        while i < self.ops.len()
            invariant
                i <= self.ops@.len(),
                out@ == transcript_spec(self@.take(i as int)),
            decreases self.ops.len() - i,
        {
            proof {
                assert(self@.take(i + 1).drop_last() =~= self@.take(i as int));
                assert(self@.take(i + 1).last() == self.ops@[i as int].view());
            }
            let ghost before = out@;
            match &self.ops[i] {
                ConsoleOp::Text(t, _) => {
                    let ts = t.as_str();
                    let n = ts.unicode_len();
                    let mut k: usize = 0;
                    while k < n
                        invariant
                            k <= n,
                            n == ts@.len(),
                            out@ == before + ts@.take(k as int),
                        decreases n - k,
                    {
                        out.push(ts.get_char(k));
                        k = k + 1;
                        assert(out@ =~= before + ts@.take(k as int));
                    }
                    assert(ts@.take(n as int) =~= ts@);
                }
                ConsoleOp::Char(c) => {
                    out.push(*c);
                    assert(out@ =~= before + seq![*c]);
                }
                _ => {
                    assert(out@ =~= before + Seq::<char>::empty());
                }
            }
            i = i + 1;
        }
        assert(self@.take(self@.len() as int) =~= self@);
        out
    }

    /// Number of recorded operations.
    pub fn len(&self) -> (r: usize)
        ensures
            r == self@.len(),
    {
        self.ops.len()
    }
}

} // verus!
