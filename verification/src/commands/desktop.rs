//! `desktop`: the graphical desktop.  Two demonstration windows (system
//! information and a terminal banner) are handed to the compositor, then each
//! round of the main loop turns the mouse state, the cursor position and the
//! key pressed into compositor actions; ESC leaves the desktop.
use vstd::prelude::*;
use crate::console::{dec, dec_string};
use crate::devices::ps2_mouse::MouseState;
use vstd::string::*;
use vstd::utf8::*;

verus! {

pub const LABEL_COLOR: u32 = 0x0000_CC88;
pub const VALUE_COLOR: u32 = 0x00FF_FFFF;
pub const CONTENT_COLOR: u32 = 0x00E0_E0E0;
pub const BANNER_COLOR: u32 = 0x0000_FF88;
pub const HINT_COLOR: u32 = 0x0088_8888;
/// Characters of the processor name per line in the information window.
pub const BRAND_LINE: usize = 34;

/// Text drawn into a window's surface at (`x`, `y`) in `color`.
pub struct TextItem {
    pub x: usize,
    pub y: usize,
    pub text: String,
    pub color: u32,
}

/// Abstract value of a text item: (x, y, text, colour).
pub type ItemView = (usize, usize, Seq<char>, u32);

pub open spec fn item_view(t: TextItem) -> ItemView {
    (t.x, t.y, t.text@, t.color)
}

/// A window to open: title, position, size and the text drawn into it.
pub struct DemoWindow {
    pub title: String,
    pub x: usize,
    pub y: usize,
    pub width: usize,
    pub height: usize,
    pub items: Vec<TextItem>,
}

impl DemoWindow {
    pub open spec fn items_view(&self) -> Seq<ItemView> {
        self.items@.map_values(|t: TextItem| item_view(t))
    }
}

/// Number of lines a processor name of `len` characters takes.
pub open spec fn brand_line_count(len: nat) -> nat {
    ((len + 33) / 34) as nat
}

/// Whether the bytes of a processor name can be cut every 34 bytes: each
/// cut falls on a character boundary (the window cannot be drawn otherwise).
pub open spec fn cuttable(b: Seq<u8>) -> bool
    decreases b.len(),
{
    b.len() <= 34 || (is_char_boundary(b, 34) && cuttable(b.subrange(34, b.len() as int)))
}

/// The bytes of line `k` of a processor name: from byte 34·k, at most 34.
pub open spec fn brand_chunk(b: Seq<u8>, k: int) -> Seq<u8> {
    let end = if 34 * k + 34 < b.len() { 34 * k + 34 } else { b.len() as int };
    b.subrange(34 * k, end)
}

/// Item `it` is line `k` of the processor name with bytes `b`: indented to
/// x 16, 16 pixels below the previous line starting at y 50, its text the
/// characters whose UTF-8 bytes are the line's bytes.
pub open spec fn brand_line_ok(it: ItemView, b: Seq<u8>, k: int) -> bool {
    &&& it.0 == 16
    &&& it.1 == 50 + 16 * k
    &&& it.3 == VALUE_COLOR
    &&& encode_utf8(it.2) == brand_chunk(b, k)
}

/// What the information window shows after `n` lines of processor name: the
/// frequency, and the heap in use and in total.
pub open spec fn info_tail(n: nat, freq: Seq<char>, heap_used: nat, heap_total: nat) -> Seq<ItemView> {
    let y = 50 + 16 * n + 4;
    seq![
        (8usize, y as usize, "Freq: "@, LABEL_COLOR),
        (56usize, y as usize, freq, VALUE_COLOR),
        (8usize, (y + 18) as usize, "Heap:"@, LABEL_COLOR),
        (16usize, (y + 36) as usize, "Used: "@, CONTENT_COLOR),
        (64usize, (y + 36) as usize, dec(heap_used), VALUE_COLOR),
        (16usize, (y + 52) as usize, "Total: "@, CONTENT_COLOR),
        (64usize, (y + 52) as usize, dec(heap_total), VALUE_COLOR),
    ]
}

fn text_item(x: usize, y: usize, text: &str, color: u32) -> (t: TextItem)
    ensures
        item_view(t) == (x, y, text@, color),
{
    TextItem { x, y, text: String::from_str(text), color }
}

proof fn lemma_line_count_step(n: int, k: int)
    requires
        0 <= k < brand_line_count(n as nat),
        n >= 0,
    ensures
        34 * k < n,
        k + 1 < brand_line_count(n as nat) ==> 34 * k + 34 < n,
        k + 1 == brand_line_count(n as nat) ==> 34 * k + 34 >= n,
{
}

/// The "System Info" window at (80, 60), 300 by 200, for the processor name
/// `brand`, the frequency text `freq` and the heap figures in bytes.  The
/// name is cut every 34 bytes, one line each.
pub fn info_window(brand: &str, freq: &str, heap_used: usize, heap_total: usize) -> (w: DemoWindow)
    requires
        brand.spec_bytes().len() + 300 <= usize::MAX,
        cuttable(brand.spec_bytes()),
    ensures
        w.title@ == "System Info"@,
        w.x == 80 && w.y == 60 && w.width == 300 && w.height == 200,
        ({
            let b = brand.spec_bytes();
            let n = brand_line_count(b.len());
            &&& w.items_view().len() == n + 8
            &&& w.items_view()[0] == (8usize, 32usize, "CPU:"@, LABEL_COLOR)
            &&& forall|k: int| 0 <= k < n ==> brand_line_ok(#[trigger] w.items_view()[1 + k], b, k)
            &&& w.items_view().subrange(n as int + 1, n as int + 8) == info_tail(n, freq@, heap_used as nat, heap_total as nat)
        }),
{
    let ghost b = brand.spec_bytes();
    let ghost n: nat = brand_line_count(b.len());
    let mut items: Vec<TextItem> = Vec::new();
    items.push(text_item(8, 32, "CPU:", LABEL_COLOR));
    let mut rest: &str = brand;
    let mut more: bool = brand.len() > 0;
    let mut y: usize = 50;
    let ghost mut k: int = 0;
    while more
        invariant
            b == brand.spec_bytes(),
            n == brand_line_count(b.len()),
            b.len() + 300 <= usize::MAX,
            0 <= k <= n,
            more ==> k < n && 34 * k < b.len() && rest.spec_bytes() == b.subrange(34 * k, b.len() as int),
            !more ==> k == n,
            cuttable(rest.spec_bytes()),
            y == 50 + 16 * k,
            items@.len() == 1 + k,
            item_view(items@[0]) == (8usize, 32usize, "CPU:"@, LABEL_COLOR),
            forall|j: int| 0 <= j < k ==> brand_line_ok(#[trigger] item_view(items@[1 + j]), b, j),
        decreases n - k,
    {
        let ghost before = items@;
        proof { lemma_line_count_step(b.len() as int, k); }
        if rest.len() > BRAND_LINE {
            let (line, tail) = rest.split_at(BRAND_LINE);
            let t = text_item(16, y, line, VALUE_COLOR);
            proof {
                assert(line.spec_bytes() =~= brand_chunk(b, k));
                assert(tail.spec_bytes() =~= b.subrange(34 * (k + 1), b.len() as int));
            }
            items.push(t);
            rest = tail;
        } else {
            let t = text_item(16, y, rest, VALUE_COLOR);
            proof { assert(rest.spec_bytes() =~= brand_chunk(b, k)); }
            items.push(t);
            more = false;
        }
        proof {
            assert forall|j: int| 0 <= j < k + 1 implies brand_line_ok(#[trigger] item_view(items@[1 + j]), b, j) by {
                if j < k { assert(items@[1 + j] == before[1 + j]); }
            }
            assert(items@[0] == before[0]);
            k = k + 1;
        }
        y = y + 16;
    }
    y = y + 4;
    items.push(text_item(8, y, "Freq: ", LABEL_COLOR));
    items.push(text_item(56, y, freq, VALUE_COLOR));
    y = y + 18;
    items.push(text_item(8, y, "Heap:", LABEL_COLOR));
    y = y + 18;
    items.push(text_item(16, y, "Used: ", CONTENT_COLOR));
    items.push(TextItem { x: 64, y, text: dec_string(heap_used as u64), color: VALUE_COLOR });
    y = y + 16;
    items.push(text_item(16, y, "Total: ", CONTENT_COLOR));
    items.push(TextItem { x: 64, y, text: dec_string(heap_total as u64), color: VALUE_COLOR });
    let w = DemoWindow { title: String::from_str("System Info"), x: 80, y: 60, width: 300, height: 200, items };
    proof {
        let v = w.items_view();
        assert(v.subrange(n as int + 1, n as int + 8) =~= info_tail(n, freq@, heap_used as nat, heap_total as nat));
        assert forall|j: int| 0 <= j < n implies brand_line_ok(#[trigger] v[1 + j], b, j) by {
            assert(v[1 + j] == item_view(w.items@[1 + j]));
        }
    }
    w
}

/// The "Terminal" window at (200, 180), 400 by 250, with its banner and the hint.
pub fn terminal_window() -> (w: DemoWindow)
    ensures
        w.title@ == "Terminal"@,
        w.x == 200 && w.y == 180 && w.width == 400 && w.height == 250,
        w.items_view() == seq![
            (8usize, 36usize, "Vibra OS Terminal"@, BANNER_COLOR),
            (8usize, 56usize, "Type 'exit' to return"@, HINT_COLOR),
        ],
{
    let mut items: Vec<TextItem> = Vec::new();
    items.push(text_item(8, 36, "Vibra OS Terminal", BANNER_COLOR));
    items.push(text_item(8, 56, "Type 'exit' to return", HINT_COLOR));
    let w = DemoWindow { title: String::from_str("Terminal"), x: 200, y: 180, width: 400, height: 250, items };
    assert(w.items_view() =~= seq![
        (8usize, 36usize, "Vibra OS Terminal"@, BANNER_COLOR),
        (8usize, 56usize, "Type 'exit' to return"@, HINT_COLOR),
    ]);
    w
}

/// What the compositor is asked to do.
#[derive(PartialEq, Eq, Structural, Clone, Copy, Debug)]
pub enum DesktopAction {
    /// Move the mouse cursor by (dx, dy).
    MoveCursor(i32, i32),
    /// A click at the cursor position.
    Click(usize, usize),
    /// A key for the focused window.
    Key(u8),
    /// Draw the desktop.
    Render,
    /// Leave the desktop: the text cursor goes home, the console is cleared
    /// and the shell goes on.
    Leave,
}

/// The actions of one round of the main loop, for the mouse state read, the
/// cursor position and the character key pressed, if any.
pub open spec fn step_spec(mouse: MouseState, cursor: (i32, i32), key: Option<char>) -> Seq<DesktopAction> {
    let moved = if mouse.dx != 0 || mouse.dy != 0 {
        seq![DesktopAction::MoveCursor(mouse.dx as i32, mouse.dy as i32)]
    } else {
        Seq::empty()
    };
    let clicked = if mouse.left_button && cursor.0 >= 0 && cursor.1 >= 0 {
        seq![DesktopAction::Click(cursor.0 as usize, cursor.1 as usize)]
    } else {
        Seq::empty()
    };
    moved + clicked + match key {
        Some(c) => if c == '\x1B' {
            seq![DesktopAction::Leave]
        } else {
            seq![DesktopAction::Key(c as u8), DesktopAction::Render]
        },
        None => seq![DesktopAction::Render],
    }
}

/// One round of the main loop; the round ends the desktop when its last
/// action is `Leave`.
pub fn step(mouse: MouseState, cursor: (i32, i32), key: Option<char>) -> (r: Vec<DesktopAction>)
    ensures
        r@ == step_spec(mouse, cursor, key),
{
    let mut r: Vec<DesktopAction> = Vec::new();
    if mouse.dx != 0 || mouse.dy != 0 {
        r.push(DesktopAction::MoveCursor(mouse.dx as i32, mouse.dy as i32));
    }
    if mouse.left_button {
        let (cx, cy) = cursor;
        if cx >= 0 && cy >= 0 {
            r.push(DesktopAction::Click(cx as usize, cy as usize));
        }
    }
    match key {
        Some(c) => {
            if c == '\x1B' {
                r.push(DesktopAction::Leave);
                assert(r@ =~= step_spec(mouse, cursor, key));
                return r;
            }
            r.push(DesktopAction::Key(c as u8));
        },
        None => {},
    }
    r.push(DesktopAction::Render);
    assert(r@ =~= step_spec(mouse, cursor, key));
    r
}

} // verus!
