//! PS/2 mouse packet decoding.  A packet is three bytes: buttons and flags
//! (bit 3 always set), then the signed X and Y movement.  Movements add up
//! until the state is read; Y is inverted into screen coordinates.
use vstd::prelude::*;

verus! {

/// Mouse movement since the last read and current buttons.
#[derive(Clone, Copy, Debug)]
pub struct MouseState {
    pub dx: i16,
    pub dy: i16,
    pub left_button: bool,
    pub right_button: bool,
    pub middle_button: bool,
}

/// The packet decoder and the accumulated state it feeds.
pub struct Ps2Mouse {
    pub pkt_index: u8,
    pub pkt_byte0: u8,
    pub pkt_byte1: u8,
    pub dx: i16,
    pub dy: i16,
    pub left: bool,
    pub right: bool,
    pub middle: bool,
}

/// Two's-complement value of a movement byte.
pub open spec fn signed_byte(b: u8) -> int {
    if b < 128 { b as int } else { b as int - 256 }
}

/// 16-bit wrapping addition, as the atomic accumulators perform it.
pub open spec fn wrap_i16(x: int) -> i16 {
    (if x > 32767 { x - 65536 } else if x < -32768 { x + 65536 } else { x }) as i16
}

impl Ps2Mouse {
    pub fn new() -> (m: Ps2Mouse)
        ensures
            m.pkt_index == 0,
            m.dx == 0 && m.dy == 0,
            !m.left && !m.right && !m.middle,
    {
        Ps2Mouse { pkt_index: 0, pkt_byte0: 0, pkt_byte1: 0, dx: 0, dy: 0, left: false, right: false, middle: false }
    }

    /// Feeds one byte read from the data port on IRQ12.
    pub fn handle_byte(&mut self, byte: u8)
        ensures
            old(self).pkt_index == 0 && byte & 0x08 == 0 ==> *final(self) == *old(self),
            old(self).pkt_index == 0 && byte & 0x08 != 0 ==> final(self).pkt_index == 1
                && final(self).pkt_byte0 == byte
                && final(self).pkt_byte1 == old(self).pkt_byte1
                && final(self).dx == old(self).dx && final(self).dy == old(self).dy
                && final(self).left == old(self).left && final(self).right == old(self).right
                && final(self).middle == old(self).middle,
            old(self).pkt_index == 1 ==> final(self).pkt_index == 2
                && final(self).pkt_byte0 == old(self).pkt_byte0
                && final(self).pkt_byte1 == byte
                && final(self).dx == old(self).dx && final(self).dy == old(self).dy
                && final(self).left == old(self).left && final(self).right == old(self).right
                && final(self).middle == old(self).middle,
            old(self).pkt_index == 2 ==> final(self).pkt_index == 0
                && final(self).pkt_byte0 == old(self).pkt_byte0
                && final(self).pkt_byte1 == old(self).pkt_byte1
                && final(self).left == (old(self).pkt_byte0 & 0x01 != 0)
                && final(self).right == (old(self).pkt_byte0 & 0x02 != 0)
                && final(self).middle == (old(self).pkt_byte0 & 0x04 != 0)
                && final(self).dx == wrap_i16(old(self).dx + signed_byte(old(self).pkt_byte1))
                && final(self).dy == wrap_i16(old(self).dy - signed_byte(byte)),
            old(self).pkt_index > 2 ==> final(self).pkt_index == 0
                && final(self).pkt_byte0 == old(self).pkt_byte0
                && final(self).pkt_byte1 == old(self).pkt_byte1
                && final(self).dx == old(self).dx && final(self).dy == old(self).dy
                && final(self).left == old(self).left && final(self).right == old(self).right
                && final(self).middle == old(self).middle,
    {
        let idx = self.pkt_index;
        if idx == 0 {
            if byte & 0x08 == 0 {
                return;
            }
            self.pkt_byte0 = byte;
            self.pkt_index = 1;
        } else if idx == 1 {
            self.pkt_byte1 = byte;
            self.pkt_index = 2;
        } else if idx == 2 {
            let b0 = self.pkt_byte0;
            let dx_raw = self.pkt_byte1;
            self.left = b0 & 0x01 != 0;
            self.right = b0 & 0x02 != 0;
            self.middle = b0 & 0x04 != 0;
            let dx_val: i16 = if dx_raw < 128 { dx_raw as i16 } else { dx_raw as i16 - 256 };
            let dy_signed: i16 = if byte < 128 { byte as i16 } else { byte as i16 - 256 };
            let dy_val: i16 = -dy_signed;
            self.dx = wrapping_add_i16(self.dx, dx_val);
            self.dy = wrapping_add_i16(self.dy, dy_val);
            self.pkt_index = 0;
        } else {
            self.pkt_index = 0;
        }
    }

    /// Current state; the accumulated movement is returned and reset to zero.
    pub fn get_state(&mut self) -> (s: MouseState)
        ensures
            s.dx == old(self).dx && s.dy == old(self).dy,
            s.left_button == old(self).left && s.right_button == old(self).right
                && s.middle_button == old(self).middle,
            final(self).dx == 0 && final(self).dy == 0,
            final(self).pkt_index == old(self).pkt_index,
            final(self).pkt_byte0 == old(self).pkt_byte0,
            final(self).pkt_byte1 == old(self).pkt_byte1,
            final(self).left == old(self).left && final(self).right == old(self).right
                && final(self).middle == old(self).middle,
    {
        let dx = self.dx;
        let dy = self.dy;
        self.dx = 0;
        self.dy = 0;
        MouseState { dx, dy, left_button: self.left, right_button: self.right, middle_button: self.middle }
    }
}

fn wrapping_add_i16(a: i16, b: i16) -> (r: i16)
    ensures
        r == wrap_i16(a + b),
{
    let s: i32 = a as i32 + b as i32;
    if s > 32767 {
        (s - 65536) as i16
    } else if s < -32768 {
        (s + 65536) as i16
    } else {
        s as i16
    }
}

/// PS/2 controller command and data ports.
pub const PS2_CMD: u16 = 0x64;
pub const PS2_DATA: u16 = 0x60;
/// Data port of the secondary interrupt controller.
pub const PIC2_DATA: u16 = 0xA1;
/// The mouse's acknowledgement byte.
pub const MOUSE_ACK: u8 = 0xFA;

/// One step of bringing the mouse up.
#[derive(PartialEq, Eq, Structural, Clone, Copy, Debug)]
pub enum Ps2Op {
    /// Wait (bounded) until the controller's input buffer is empty.
    WaitInputEmpty,
    /// Wait (bounded) until the controller's output buffer is full.
    WaitOutputFull,
    /// Write a byte to a port.
    Write(u16, u8),
    /// Read a byte from a port; the value goes to the next stage.
    Read(u16),
}

/// First stage: enable the second PS/2 port and ask for the configuration
/// byte, which is then read.
pub open spec fn setup_ops() -> Seq<Ps2Op> {
    seq![
        Ps2Op::WaitInputEmpty, Ps2Op::Write(PS2_CMD, 0xA8),
        Ps2Op::WaitInputEmpty, Ps2Op::Write(PS2_CMD, 0x20),
        Ps2Op::WaitOutputFull, Ps2Op::Read(PS2_DATA),
    ]
}

/// Second stage, given the configuration byte read: write it back with both
/// port interrupts (bits 0 and 1) on, send Enable Data Reporting to the
/// mouse and read its acknowledgement.
pub open spec fn enable_ops(config: u8) -> Seq<Ps2Op> {
    seq![
        Ps2Op::WaitInputEmpty, Ps2Op::Write(PS2_CMD, 0x60),
        Ps2Op::WaitInputEmpty, Ps2Op::Write(PS2_DATA, config | 0x03),
        Ps2Op::WaitInputEmpty, Ps2Op::Write(PS2_CMD, 0xD4),
        Ps2Op::WaitInputEmpty, Ps2Op::Write(PS2_DATA, 0xF4),
        Ps2Op::WaitOutputFull, Ps2Op::Read(PS2_DATA),
    ]
}

pub fn setup_sequence() -> (r: Vec<Ps2Op>)
    ensures
        r@ == setup_ops(),
{
    let r = vec![
        Ps2Op::WaitInputEmpty, Ps2Op::Write(PS2_CMD, 0xA8),
        Ps2Op::WaitInputEmpty, Ps2Op::Write(PS2_CMD, 0x20),
        Ps2Op::WaitOutputFull, Ps2Op::Read(PS2_DATA),
    ];
    assert(r@ =~= setup_ops());
    r
}

pub fn enable_sequence(config: u8) -> (r: Vec<Ps2Op>)
    ensures
        r@ == enable_ops(config),
{
    let r = vec![
        Ps2Op::WaitInputEmpty, Ps2Op::Write(PS2_CMD, 0x60),
        Ps2Op::WaitInputEmpty, Ps2Op::Write(PS2_DATA, config | 0x03),
        Ps2Op::WaitInputEmpty, Ps2Op::Write(PS2_CMD, 0xD4),
        Ps2Op::WaitInputEmpty, Ps2Op::Write(PS2_DATA, 0xF4),
        Ps2Op::WaitOutputFull, Ps2Op::Read(PS2_DATA),
    ];
    assert(r@ =~= enable_ops(config));
    r
}

/// Whether the mouse acknowledged; otherwise a warning is printed and the
/// set-up goes on.
pub fn acknowledged(ack: u8) -> (r: bool)
    ensures
        r == (ack == MOUSE_ACK),
{
    ack == MOUSE_ACK
}

/// New mask of the secondary interrupt controller, written to its data port:
/// bit 2 cleared, the others kept.
pub fn unmask_mouse_irq(mask: u8) -> (r: u8)
    ensures
        r == mask & !0x04u8,
{
    mask & !0x04u8
}

/// A complete packet (valid header, then X, then Y) fed to an idle decoder
/// sets the buttons from the header and adds the decoded movement.
pub proof fn lemma_packet_roundtrip(m0: Ps2Mouse, m1: Ps2Mouse, m2: Ps2Mouse, m3: Ps2Mouse, b0: u8, bx: u8, by_: u8)
    requires
        m0.pkt_index == 0,
        b0 & 0x08 != 0,
        m1.pkt_index == 1 && m1.pkt_byte0 == b0 && m1.dx == m0.dx && m1.dy == m0.dy,
        m2.pkt_index == 2 && m2.pkt_byte0 == m1.pkt_byte0 && m2.pkt_byte1 == bx && m2.dx == m1.dx && m2.dy == m1.dy,
        m3.pkt_index == 0,
        m3.left == (m2.pkt_byte0 & 0x01 != 0),
        m3.right == (m2.pkt_byte0 & 0x02 != 0),
        m3.middle == (m2.pkt_byte0 & 0x04 != 0),
        m3.dx == wrap_i16(m2.dx + signed_byte(m2.pkt_byte1)),
        m3.dy == wrap_i16(m2.dy - signed_byte(by_)),
    ensures
        m3.pkt_index == 0,
        m3.left == (b0 & 0x01 != 0),
        m3.right == (b0 & 0x02 != 0),
        m3.middle == (b0 & 0x04 != 0),
        m3.dx == wrap_i16(m0.dx + signed_byte(bx)),
        m3.dy == wrap_i16(m0.dy - signed_byte(by_)),
{
}

} // verus!
