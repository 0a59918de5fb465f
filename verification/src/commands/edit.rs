//! `edit`: a line editor over a 2 KiB buffer.  The command opens (creating
//! the file if missing) and loads the file, then feeds keys to the editor
//! until ESC, and saves the buffer.
use vstd::prelude::*;
use crate::console::{Console, OpView, Color, txt, col, dec};
use crate::text::{utf8_text, decode_utf8};
use super::{CmdResult, repeat_op, put_char_n, print_dec};

verus! {

/// Capacity of the edit buffer.
pub const EDIT_CAPACITY: usize = 2048;

/// A key as the editor sees it.
#[derive(PartialEq, Eq, Structural, Clone, Copy, Debug)]
pub enum EditKey {
    Char(char),
    Enter,
    Backspace,
    Other,
}

pub struct Editor {
    buf: Vec<u8>,
    cursor: usize,
}

/// Number of bytes of the UTF-8 encoding of `c`.
pub open spec fn utf8_width(c: char) -> nat {
    let v = c as u32;
    if v < 0x80 { 1 } else if v < 0x800 { 2 } else if v < 0x1_0000 { 3 } else { 4 }
}

/// Number of bytes of the UTF-8 encoding of `s`.
pub open spec fn utf8_len(s: Seq<char>) -> nat
    decreases s.len(),
{
    if s.len() == 0 { 0 } else { utf8_len(s.drop_last()) + utf8_width(s.last()) }
}

/// The text after the last line break of `t` (all of `t` without one).
pub open spec fn last_line(t: Seq<char>) -> Seq<char>
    decreases t.len(),
{
    if t.len() == 0 {
        t
    } else if t.last() == '\n' {
        Seq::empty()
    } else {
        last_line(t.drop_last()).push(t.last())
    }
}

/// Redrawing the current line: back over it, blank it, back again, and
/// print it anew; nothing to redraw when the buffer is not valid UTF-8.
pub open spec fn redraw_ops(content: Seq<u8>) -> Seq<OpView> {
    let line = match utf8_text(content) {
        Some(t) => last_line(t),
        None => Seq::empty(),
    };
    let n = utf8_len(line);
    repeat_op(OpView::Char('\u{8}'), n) + repeat_op(OpView::Char(' '), n) + repeat_op(OpView::Char('\u{8}'), n)
        + seq![txt(line)]
}

/// The low byte of a character's code.
pub open spec fn char_byte(c: char) -> u8 {
    ((c as u32) % 256) as u8
}

impl Editor {
    pub closed spec fn content(&self) -> Seq<u8> {
        self.buf@
    }

    pub closed spec fn spec_cursor(&self) -> usize {
        self.cursor
    }

    pub open spec fn wf(&self) -> bool {
        &&& self.content().len() <= EDIT_CAPACITY
        &&& self.spec_cursor() <= self.content().len()
    }

    /// Prints the editing header and the file's current text (when it is
    /// valid UTF-8), then the prompt; the editor holds the first 2048 bytes
    /// of `data` (none when the file could not be read), the cursor at the end.
    pub fn open(console: &mut Console, name: &str, data: Option<Vec<u8>>) -> (e: Editor)
        ensures
            e.wf(),
            e.content() == (match data {
                Some(d) => if d@.len() <= EDIT_CAPACITY { d@ } else { d@.take(EDIT_CAPACITY as int) },
                None => Seq::<u8>::empty(),
            }),
            e.spec_cursor() == e.content().len(),
            final(console)@ == old(console)@ + seq![
                col("Editing: "@, Color::Yellow),
                txt(name@),
                col(" (ESC to save & exit)\n"@, Color::Yellow),
                col("---\n"@, Color::Cyan),
            ] + (if e.content().len() > 0 {
                match utf8_text(e.content()) {
                    Some(t) => seq![txt(t), OpView::Char('\n')],
                    None => Seq::empty(),
                }
            } else {
                Seq::empty()
            }) + seq![txt("> "@)],
    {
        let mut buf: Vec<u8> = Vec::new();
        match data {
            Some(d) => {
                let n = if d.len() < EDIT_CAPACITY { d.len() } else { EDIT_CAPACITY };
                let mut i: usize = 0;
                while i < n
                    invariant
                        i <= n,
                        n <= d@.len(),
                        n == (if d@.len() < EDIT_CAPACITY { d@.len() as int } else { EDIT_CAPACITY as int }),
                        buf@ == d@.take(i as int),
                    decreases n - i,
                {
                    buf.push(d[i]);
                    i = i + 1;
                    assert(buf@ =~= d@.take(i as int));
                }
                assert(d@.len() <= EDIT_CAPACITY ==> d@.take(n as int) =~= d@);
            }
            None => {}
        }
        console.print_colored("Editing: ", Color::Yellow);
        console.print(name);
        console.print_colored(" (ESC to save & exit)\n", Color::Yellow);
        console.print_colored("---\n", Color::Cyan);
        let ghost head = console@;
        if buf.len() > 0 {
            match decode_utf8(buf.as_slice()) {
                Some(text) => {
                    console.print(text.as_str());
                    console.put_char('\n');
                }
                None => {}
            }
        }
        console.print("> ");
        let cursor = buf.len();
        let e = Editor { buf, cursor };
        assert(console@ =~= old(console)@ + seq![
                col("Editing: "@, Color::Yellow),
                txt(name@),
                col(" (ESC to save & exit)\n"@, Color::Yellow),
                col("---\n"@, Color::Cyan),
            ] + (if e.content().len() > 0 {
                match utf8_text(e.content()) {
                    Some(t) => seq![txt(t), OpView::Char('\n')],
                    None => Seq::empty(),
                }
            } else {
                Seq::empty()
            }) + seq![txt("> "@)]);
        e
    }

    /// Handles one key (ESC ends editing and is not handed here): Enter
    /// appends a line break and prompts anew, Backspace removes the byte
    /// before the cursor, a character inserts its low byte at the cursor;
    /// both redraw the line.  Nothing happens when the buffer is full (for
    /// insertions) or the cursor is at the start (for Backspace).
    pub fn handle_key(&mut self, console: &mut Console, key: EditKey)
        requires
            old(self).wf(),
        ensures
            final(self).wf(),
            ({
                let c = old(self).content();
                let k = old(self).spec_cursor();
                match key {
                    EditKey::Enter => if c.len() < EDIT_CAPACITY {
                        &&& final(self).content() == c.push(10u8)
                        &&& final(self).spec_cursor() == c.len() + 1
                        &&& final(console)@ == old(console)@ + seq![OpView::Char('\n'), txt("> "@)]
                    } else {
                        &&& final(self).content() == c
                        &&& final(self).spec_cursor() == k
                        &&& final(console)@ == old(console)@
                    },
                    EditKey::Backspace => if k > 0 {
                        &&& final(self).content() == c.remove(k - 1)
                        &&& final(self).spec_cursor() == k - 1
                        &&& final(console)@ == old(console)@ + redraw_ops(c.remove(k - 1))
                    } else {
                        &&& final(self).content() == c
                        &&& final(self).spec_cursor() == k
                        &&& final(console)@ == old(console)@
                    },
                    EditKey::Char(ch) => if c.len() < EDIT_CAPACITY {
                        &&& final(self).content() == c.insert(k as int, char_byte(ch))
                        &&& final(self).spec_cursor() == k + 1
                        &&& final(console)@ == old(console)@ + redraw_ops(c.insert(k as int, char_byte(ch)))
                    } else {
                        &&& final(self).content() == c
                        &&& final(self).spec_cursor() == k
                        &&& final(console)@ == old(console)@
                    },
                    EditKey::Other => {
                        &&& final(self).content() == c
                        &&& final(self).spec_cursor() == k
                        &&& final(console)@ == old(console)@
                    },
                }
            }),
    {
        match key {
            EditKey::Enter => {
                if self.buf.len() < EDIT_CAPACITY {
                    self.buf.push(10u8);
                    self.cursor = self.buf.len();
                    console.put_char('\n');
                    console.print("> ");
                    assert(console@ =~= old(console)@ + seq![OpView::Char('\n'), txt("> "@)]);
                }
            }
            EditKey::Backspace => {
                if self.cursor > 0 {
                    self.buf.remove(self.cursor - 1);
                    self.cursor = self.cursor - 1;
                    redraw_editor(console, self.buf.as_slice());
                }
            }
            EditKey::Char(ch) => {
                if self.buf.len() < EDIT_CAPACITY {
                    let b = ((ch as u32) % 256) as u8;
                    self.buf.insert(self.cursor, b);
                    self.cursor = self.cursor + 1;
                    redraw_editor(console, self.buf.as_slice());
                }
            }
            EditKey::Other => {}
        }
    }

    /// The buffer to save.
    pub fn contents(&self) -> (r: &[u8])
        ensures
            r@ == self.content(),
    {
        self.buf.as_slice()
    }
}

/// Backspace right after typing a character gives back the buffer as it
/// was before: the inserted byte is the one removed.
pub proof fn lemma_backspace_undoes_insert(c: Seq<u8>, k: int, b: u8)
    requires
        0 <= k <= c.len(),
    ensures
        c.insert(k, b).remove(k) == c,
{
    assert(c.insert(k, b).remove(k) =~= c);
}

fn char_width(c: char) -> (n: usize)
    ensures
        n == utf8_width(c),
{
    let v = c as u32;
    if v < 0x80 { 1 } else if v < 0x800 { 2 } else if v < 0x1_0000 { 3 } else { 4 }
}

fn redraw_editor(console: &mut Console, data: &[u8])
    requires
        data@.len() <= EDIT_CAPACITY,
    ensures
        final(console)@ == old(console)@ + redraw_ops(data@),
{
    let line: String = match decode_utf8(data) {
        Some(text) => {
            proof { crate::text::lemma_decoded_len(data@); }
            let t = text.as_str();
            let n = t.unicode_len();
            let mut start: usize = n;
            proof {
                assert(t@.take(n as int) =~= t@);
                assert(t@.subrange(n as int, n as int) =~= Seq::<char>::empty());
                assert(last_line(t@) =~= last_line(t@.take(n as int)) + t@.subrange(n as int, n as int));
            }
            while start > 0 && t.get_char(start - 1) != '\n'
                invariant
                    start <= n,
                    n == t@.len(),
                    last_line(t@) == last_line(t@.take(start as int)) + t@.subrange(start as int, n as int),
                decreases start,
            {
                proof {
                    let p = t@.take(start as int);
                    assert(p.drop_last() =~= t@.take(start - 1));
                    assert(last_line(p) == last_line(p.drop_last()).push(p.last()));
                    assert(t@.subrange(start - 1, n as int) =~= seq![p.last()] + t@.subrange(start as int, n as int));
                    assert(last_line(p.drop_last()).push(p.last()) + t@.subrange(start as int, n as int)
                        =~= last_line(p.drop_last()) + t@.subrange(start - 1, n as int));
                }
                start = start - 1;
            }
            proof {
                if start > 0 {
                    assert(t@.take(start as int).last() == t@[start - 1]);
                }
                assert(last_line(t@.take(start as int)) =~= Seq::<char>::empty());
                assert(t@.take(n as int) =~= t@);
            }
            let l = String::from_str(t.substring_char(start, n));
            assert(l@ =~= last_line(t@));
            l
        }
        None => String::new(),
    };
    let s = line.as_str();
    let cnt = s.unicode_len();
    assert(cnt <= EDIT_CAPACITY);
    let mut width: usize = 0;
    let mut i: usize = 0;
    while i < cnt
        invariant
            i <= cnt,
            cnt == s@.len(),
            width == utf8_len(s@.take(i as int)),
            width <= 4 * i,
            cnt <= EDIT_CAPACITY,
        decreases cnt - i,
    {
        proof {
            assert(s@.take(i + 1).drop_last() =~= s@.take(i as int));
        }
        width = width + char_width(s.get_char(i));
        i = i + 1;
    }
    assert(s@.take(cnt as int) =~= s@);
    put_char_n(console, '\u{8}', width);
    put_char_n(console, ' ', width);
    put_char_n(console, '\u{8}', width);
    console.print(s);
    assert(console@ =~= old(console)@ + redraw_ops(data@));
}

/// The file to edit: the first argument, or the usage.
pub fn run(args: &[&str], console: &mut Console) -> (r: (CmdResult, Option<String>))
    ensures
        r.0 == CmdResult::Done,
        args@.len() == 0 ==> r.1 is None && final(console)@ == old(console)@.push(col("Usage: edit <filename>\n"@, Color::Red)),
        args@.len() > 0 ==> (r.1 matches Some(n) && n@ == args@[0]@) && final(console)@ == old(console)@,
{
    if args.len() == 0 {
        console.print_colored("Usage: edit <filename>\n", Color::Red);
        return (CmdResult::Done, None);
    }
    (CmdResult::Done, Some(String::from_str(args[0])))
}

/// Reports that the missing file could not be created.
pub fn report_create_error(console: &mut Console, err: &str)
    ensures
        final(console)@ == old(console)@ + seq![col("Error creating file: "@, Color::Red), txt(err@), OpView::Char('\n')],
{
    console.print_colored("Error creating file: ", Color::Red);
    console.print(err);
    console.put_char('\n');
    assert(console@ =~= old(console)@ + seq![col("Error creating file: "@, Color::Red), txt(err@), OpView::Char('\n')]);
}

/// Reports the save of `len` bytes to `name` (an error as its message).
pub fn report_save(console: &mut Console, name: &str, len: usize, saved: Result<(), String>)
    ensures
        final(console)@ == old(console)@ + (match saved {
            Ok(_) => seq![col("\nSaved: "@, Color::Green), txt(name@), txt(" ("@), txt(dec(len as nat)), txt(" bytes)\n"@)],
            Err(e) => seq![col("\nError saving: "@, Color::Red), txt(e@), OpView::Char('\n')],
        }),
{
    match saved {
        Ok(()) => {
            console.print_colored("\nSaved: ", Color::Green);
            console.print(name);
            console.print(" (");
            print_dec(console, len as u64);
            console.print(" bytes)\n");
        }
        Err(e) => {
            console.print_colored("\nError saving: ", Color::Red);
            console.print(e.as_str());
            console.put_char('\n');
        }
    }
    assert(console@ =~= old(console)@ + (match saved {
        Ok(_) => seq![col("\nSaved: "@, Color::Green), txt(name@), txt(" ("@), txt(dec(len as nat)), txt(" bytes)\n"@)],
        Err(e) => seq![col("\nError saving: "@, Color::Red), txt(e@), OpView::Char('\n')],
    }));
}

} // verus!
