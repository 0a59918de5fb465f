//! Legacy PCI VGA back-end: mode selection and the register program that
//! switches between 640x480x16 planar (mode 12h) and 320x200x256 (mode 13h).
use vstd::prelude::*;
use crate::display::{DisplayBackend, PixelFormat};

verus! {

pub const VGA_MODE_12H: u16 = 0x0012;
pub const VGA_MODE_13H: u16 = 0x0013;
pub const VGA_MEM_BASE: u64 = 0xA0000;

/// One step of a VGA register program.
#[derive(PartialEq, Eq, Structural, Clone, Copy, Debug)]
pub enum VgaWrite {
    /// Sequencer register (index, value) through ports 0x3C4/0x3C5.
    Sequencer(u8, u8),
    /// CRT controller register through ports 0x3D4/0x3D5.
    Crtc(u8, u8),
    /// Graphics controller register through ports 0x3CE/0x3CF.
    Gc(u8, u8),
    /// Wait for the start of vertical retrace (port 0x3DA bit 3).
    WaitRetrace,
}

/// Register values of mode 12h (sequencer, CRTC 0x00-0x18, graphics controller).
pub open spec fn mode_12h_registers() -> Seq<VgaWrite> {
    seq![
        VgaWrite::Sequencer(0x00, 0x03),
        VgaWrite::Sequencer(0x01, 0x01),
        VgaWrite::Sequencer(0x02, 0x0F),
        VgaWrite::Sequencer(0x03, 0x00),
        VgaWrite::Sequencer(0x04, 0x0E),
        VgaWrite::Crtc(0x00, 0x57),
        VgaWrite::Crtc(0x01, 0x4F),
        VgaWrite::Crtc(0x02, 0x50),
        VgaWrite::Crtc(0x03, 0x82),
        VgaWrite::Crtc(0x04, 0x55),
        VgaWrite::Crtc(0x05, 0x81),
        VgaWrite::Crtc(0x06, 0x0B),
        VgaWrite::Crtc(0x07, 0x3E),
        VgaWrite::Crtc(0x08, 0x00),
        VgaWrite::Crtc(0x09, 0x40),
        VgaWrite::Crtc(0x0A, 0x00),
        VgaWrite::Crtc(0x0B, 0x00),
        VgaWrite::Crtc(0x0C, 0x00),
        VgaWrite::Crtc(0x0D, 0x00),
        VgaWrite::Crtc(0x0E, 0x00),
        VgaWrite::Crtc(0x0F, 0x00),
        VgaWrite::Crtc(0x10, 0xE9),
        VgaWrite::Crtc(0x11, 0x8B),
        VgaWrite::Crtc(0x12, 0xDF),
        VgaWrite::Crtc(0x13, 0x28),
        VgaWrite::Crtc(0x14, 0x00),
        VgaWrite::Crtc(0x15, 0xE7),
        VgaWrite::Crtc(0x16, 0x04),
        VgaWrite::Crtc(0x17, 0xE3),
        VgaWrite::Crtc(0x18, 0xFF),
        VgaWrite::Gc(0x00, 0x00),
        VgaWrite::Gc(0x01, 0x00),
        VgaWrite::Gc(0x02, 0x00),
        VgaWrite::Gc(0x03, 0x00),
        VgaWrite::Gc(0x04, 0x00),
        VgaWrite::Gc(0x05, 0x00),
        VgaWrite::Gc(0x06, 0x05),
        VgaWrite::Gc(0x07, 0x0F),
        VgaWrite::Gc(0x08, 0xFF),
    ]
}

/// Register values of mode 13h.
pub open spec fn mode_13h_registers() -> Seq<VgaWrite> {
    seq![
        VgaWrite::Sequencer(0x00, 0x03),
        VgaWrite::Sequencer(0x01, 0x01),
        VgaWrite::Sequencer(0x02, 0x0F),
        VgaWrite::Sequencer(0x03, 0x00),
        VgaWrite::Sequencer(0x04, 0x0E),
        VgaWrite::Crtc(0x00, 0x57),
        VgaWrite::Crtc(0x01, 0x4F),
        VgaWrite::Crtc(0x02, 0x50),
        VgaWrite::Crtc(0x03, 0x82),
        VgaWrite::Crtc(0x04, 0x54),
        VgaWrite::Crtc(0x05, 0x80),
        VgaWrite::Crtc(0x06, 0x0D),
        VgaWrite::Crtc(0x07, 0x3E),
        VgaWrite::Crtc(0x08, 0x00),
        VgaWrite::Crtc(0x09, 0x41),
        VgaWrite::Crtc(0x0A, 0x00),
        VgaWrite::Crtc(0x0B, 0x00),
        VgaWrite::Crtc(0x0C, 0x00),
        VgaWrite::Crtc(0x0D, 0x00),
        VgaWrite::Crtc(0x0E, 0x00),
        VgaWrite::Crtc(0x0F, 0x00),
        VgaWrite::Crtc(0x10, 0x9C),
        VgaWrite::Crtc(0x11, 0x8E),
        VgaWrite::Crtc(0x12, 0x8F),
        VgaWrite::Crtc(0x13, 0x28),
        VgaWrite::Crtc(0x14, 0x00),
        VgaWrite::Crtc(0x15, 0x96),
        VgaWrite::Crtc(0x16, 0xB9),
        VgaWrite::Crtc(0x17, 0xE3),
        VgaWrite::Crtc(0x18, 0xFF),
        VgaWrite::Gc(0x00, 0x00),
        VgaWrite::Gc(0x01, 0x00),
        VgaWrite::Gc(0x02, 0x00),
        VgaWrite::Gc(0x03, 0x00),
        VgaWrite::Gc(0x04, 0x00),
        VgaWrite::Gc(0x05, 0x40),
        VgaWrite::Gc(0x06, 0x05),
        VgaWrite::Gc(0x07, 0x0F),
        VgaWrite::Gc(0x08, 0xFF),
    ]
}

/// The full program for a mode switch: screen off, wait for retrace, the
/// mode's registers, screen on.  An unknown mode stops after the wait.
pub open spec fn vga_program(mode: u16) -> Seq<VgaWrite> {
    let prefix = seq![VgaWrite::Sequencer(0x01, 0x20), VgaWrite::WaitRetrace];
    if mode == VGA_MODE_12H {
        prefix + mode_12h_registers() + seq![VgaWrite::Sequencer(0x01, 0x01)]
    } else if mode == VGA_MODE_13H {
        prefix + mode_13h_registers() + seq![VgaWrite::Sequencer(0x01, 0x01)]
    } else {
        prefix
    }
}

fn push_mode_12h(w: &mut Vec<VgaWrite>)
    ensures
        final(w)@ == old(w)@ + mode_12h_registers(),
{
    w.push(VgaWrite::Sequencer(0x00, 0x03));
    w.push(VgaWrite::Sequencer(0x01, 0x01));
    w.push(VgaWrite::Sequencer(0x02, 0x0F));
    w.push(VgaWrite::Sequencer(0x03, 0x00));
    w.push(VgaWrite::Sequencer(0x04, 0x0E));
    w.push(VgaWrite::Crtc(0x00, 0x57));
    w.push(VgaWrite::Crtc(0x01, 0x4F));
    w.push(VgaWrite::Crtc(0x02, 0x50));
    w.push(VgaWrite::Crtc(0x03, 0x82));
    w.push(VgaWrite::Crtc(0x04, 0x55));
    w.push(VgaWrite::Crtc(0x05, 0x81));
    w.push(VgaWrite::Crtc(0x06, 0x0B));
    w.push(VgaWrite::Crtc(0x07, 0x3E));
    w.push(VgaWrite::Crtc(0x08, 0x00));
    w.push(VgaWrite::Crtc(0x09, 0x40));
    w.push(VgaWrite::Crtc(0x0A, 0x00));
    w.push(VgaWrite::Crtc(0x0B, 0x00));
    w.push(VgaWrite::Crtc(0x0C, 0x00));
    w.push(VgaWrite::Crtc(0x0D, 0x00));
    w.push(VgaWrite::Crtc(0x0E, 0x00));
    w.push(VgaWrite::Crtc(0x0F, 0x00));
    w.push(VgaWrite::Crtc(0x10, 0xE9));
    w.push(VgaWrite::Crtc(0x11, 0x8B));
    w.push(VgaWrite::Crtc(0x12, 0xDF));
    w.push(VgaWrite::Crtc(0x13, 0x28));
    w.push(VgaWrite::Crtc(0x14, 0x00));
    w.push(VgaWrite::Crtc(0x15, 0xE7));
    w.push(VgaWrite::Crtc(0x16, 0x04));
    w.push(VgaWrite::Crtc(0x17, 0xE3));
    w.push(VgaWrite::Crtc(0x18, 0xFF));
    w.push(VgaWrite::Gc(0x00, 0x00));
    w.push(VgaWrite::Gc(0x01, 0x00));
    w.push(VgaWrite::Gc(0x02, 0x00));
    w.push(VgaWrite::Gc(0x03, 0x00));
    w.push(VgaWrite::Gc(0x04, 0x00));
    w.push(VgaWrite::Gc(0x05, 0x00));
    w.push(VgaWrite::Gc(0x06, 0x05));
    w.push(VgaWrite::Gc(0x07, 0x0F));
    w.push(VgaWrite::Gc(0x08, 0xFF));
    assert(w@ =~= old(w)@ + mode_12h_registers());
}

fn push_mode_13h(w: &mut Vec<VgaWrite>)
    ensures
        final(w)@ == old(w)@ + mode_13h_registers(),
{
    w.push(VgaWrite::Sequencer(0x00, 0x03));
    w.push(VgaWrite::Sequencer(0x01, 0x01));
    w.push(VgaWrite::Sequencer(0x02, 0x0F));
    w.push(VgaWrite::Sequencer(0x03, 0x00));
    w.push(VgaWrite::Sequencer(0x04, 0x0E));
    w.push(VgaWrite::Crtc(0x00, 0x57));
    w.push(VgaWrite::Crtc(0x01, 0x4F));
    w.push(VgaWrite::Crtc(0x02, 0x50));
    w.push(VgaWrite::Crtc(0x03, 0x82));
    w.push(VgaWrite::Crtc(0x04, 0x54));
    w.push(VgaWrite::Crtc(0x05, 0x80));
    w.push(VgaWrite::Crtc(0x06, 0x0D));
    w.push(VgaWrite::Crtc(0x07, 0x3E));
    w.push(VgaWrite::Crtc(0x08, 0x00));
    w.push(VgaWrite::Crtc(0x09, 0x41));
    w.push(VgaWrite::Crtc(0x0A, 0x00));
    w.push(VgaWrite::Crtc(0x0B, 0x00));
    w.push(VgaWrite::Crtc(0x0C, 0x00));
    w.push(VgaWrite::Crtc(0x0D, 0x00));
    w.push(VgaWrite::Crtc(0x0E, 0x00));
    w.push(VgaWrite::Crtc(0x0F, 0x00));
    w.push(VgaWrite::Crtc(0x10, 0x9C));
    w.push(VgaWrite::Crtc(0x11, 0x8E));
    w.push(VgaWrite::Crtc(0x12, 0x8F));
    w.push(VgaWrite::Crtc(0x13, 0x28));
    w.push(VgaWrite::Crtc(0x14, 0x00));
    w.push(VgaWrite::Crtc(0x15, 0x96));
    w.push(VgaWrite::Crtc(0x16, 0xB9));
    w.push(VgaWrite::Crtc(0x17, 0xE3));
    w.push(VgaWrite::Crtc(0x18, 0xFF));
    w.push(VgaWrite::Gc(0x00, 0x00));
    w.push(VgaWrite::Gc(0x01, 0x00));
    w.push(VgaWrite::Gc(0x02, 0x00));
    w.push(VgaWrite::Gc(0x03, 0x00));
    w.push(VgaWrite::Gc(0x04, 0x00));
    w.push(VgaWrite::Gc(0x05, 0x40));
    w.push(VgaWrite::Gc(0x06, 0x05));
    w.push(VgaWrite::Gc(0x07, 0x0F));
    w.push(VgaWrite::Gc(0x08, 0xFF));
    assert(w@ =~= old(w)@ + mode_13h_registers());
}

pub struct PciVgaBackend {
    pub fb_addr: u64,
    pub io_base: u16,
    pub width: u32,
    pub height: u32,
    pub pitch: u32,
    pub current_mode: u16,
    pub has_vesa: bool,
    /// Register writes of the last mode switch, still to be performed.
    pub program: Vec<VgaWrite>,
}

/// Bits per pixel of a mode: 4 for 12h, 8 otherwise.
pub open spec fn mode_bpp(mode: u16) -> u8 {
    if mode == VGA_MODE_12H { 4 } else { 8 }
}

/// Pixel format of a mode: palette-indexed for 12h and 13h, text otherwise.
pub open spec fn mode_format(mode: u16) -> PixelFormat {
    if mode == VGA_MODE_12H || mode == VGA_MODE_13H { PixelFormat::Indexed8 } else { PixelFormat::Text }
}

/// Mode chosen for a requested resolution: 12h from 640x480, 13h from 320x200.
pub open spec fn choose_mode(width: u32, height: u32) -> Option<u16> {
    if width >= 640 && height >= 480 {
        Some(VGA_MODE_12H)
    } else if width >= 320 && height >= 200 {
        Some(VGA_MODE_13H)
    } else {
        None
    }
}

/// Mode selection for a requested resolution: a request of at least 640x480
/// gets mode 12h (640x480, 4 bits per pixel); one below that but of at least
/// 320x200 gets mode 13h (320x200, 8 bits per pixel); a smaller one gets
/// none.  The mode chosen never exceeds the request, and 12h, the larger
/// mode, is taken whenever it fits.
pub proof fn lemma_mode_choice(width: u32, height: u32)
    ensures
        width >= 640 && height >= 480 ==> choose_mode(width, height) == Some(VGA_MODE_12H)
            && mode_bpp(VGA_MODE_12H) == 4,
        !(width >= 640 && height >= 480) && width >= 320 && height >= 200 ==> choose_mode(width, height) == Some(VGA_MODE_13H)
            && mode_bpp(VGA_MODE_13H) == 8,
        !(width >= 320 && height >= 200) ==> choose_mode(width, height) is None,
        choose_mode(width, height) == Some(VGA_MODE_12H) ==> width >= 640 && height >= 480,
        choose_mode(width, height) == Some(VGA_MODE_13H) ==> width >= 320 && height >= 200
            && !(width >= 640 && height >= 480),
{
}

impl PciVgaBackend {
    /// The VGA framebuffer at 0xA0000 seen through the higher-half mapping, in mode 12h.
    pub fn new(hhdm: u64) -> (r: PciVgaBackend)
        requires
            hhdm + VGA_MEM_BASE <= u64::MAX,
        ensures
            r.fb_addr == hhdm + VGA_MEM_BASE,
            r.io_base == 0x3D0,
            r.width == 640 && r.height == 480 && r.pitch == 80,
            r.current_mode == VGA_MODE_12H,
            !r.has_vesa,
            r.program@ == Seq::<VgaWrite>::empty(),
    {
        PciVgaBackend {
            fb_addr: hhdm + VGA_MEM_BASE,
            io_base: 0x3D0,
            width: 640,
            height: 480,
            pitch: 80,
            current_mode: VGA_MODE_12H,
            has_vesa: false,
            program: Vec::new(),
        }
    }

    /// Hands out the register writes still to be performed and forgets them.
    pub fn take_program(&mut self) -> (r: Vec<VgaWrite>)
        ensures
            r@ == old(self).program@,
            final(self).program@ == Seq::<VgaWrite>::empty(),
            final(self).fb_addr == old(self).fb_addr,
            final(self).io_base == old(self).io_base,
            final(self).width == old(self).width,
            final(self).height == old(self).height,
            final(self).pitch == old(self).pitch,
            final(self).current_mode == old(self).current_mode,
            final(self).has_vesa == old(self).has_vesa,
    {
        let mut out: Vec<VgaWrite> = Vec::new();
        std::mem::swap(&mut out, &mut self.program);
        out
    }

    /// Switches to `mode`: returns whether the mode is known, and the register
    /// writes to perform in order.  Geometry and current mode follow the mode.
    pub fn set_vga_mode(&mut self, mode: u16) -> (r: (bool, Vec<VgaWrite>))
        ensures
            r.1@ == vga_program(mode),
            r.0 == (mode == VGA_MODE_12H || mode == VGA_MODE_13H),
            final(self).fb_addr == old(self).fb_addr,
            final(self).io_base == old(self).io_base,
            final(self).has_vesa == old(self).has_vesa,
            final(self).program == old(self).program,
            mode == VGA_MODE_12H ==> final(self).width == 640 && final(self).height == 480
                && final(self).pitch == 80 && final(self).current_mode == mode,
            mode == VGA_MODE_13H ==> final(self).width == 320 && final(self).height == 200
                && final(self).pitch == 320 && final(self).current_mode == mode,
            !r.0 ==> *final(self) == *old(self),
    {
        let mut w: Vec<VgaWrite> = Vec::new();
        w.push(VgaWrite::Sequencer(0x01, 0x20));
        w.push(VgaWrite::WaitRetrace);
        let ghost prefix = w@;
        if mode == VGA_MODE_12H {
            self.width = 640;
            self.height = 480;
            self.pitch = 80;
            push_mode_12h(&mut w);
            self.current_mode = mode;
        } else if mode == VGA_MODE_13H {
            self.width = 320;
            self.height = 200;
            self.pitch = 320;
            push_mode_13h(&mut w);
            self.current_mode = mode;
        } else {
            assert(w@ =~= vga_program(mode));
            return (false, w);
        }
        w.push(VgaWrite::Sequencer(0x01, 0x01));
        assert(w@ =~= vga_program(mode));
        (true, w)
    }

    /// Number of framebuffer bytes to clear: pitch times height.
    pub fn clear_len(&self) -> (r: u64)
        ensures
            r == self.pitch as int * self.height as int,
    {
        proof {
            assert(self.pitch as int * self.height as int <= 0xFFFF_FFFF * 0xFFFF_FFFF) by (nonlinear_arith)
                requires
                    self.pitch <= 0xFFFF_FFFF,
                    self.height <= 0xFFFF_FFFF,
            ;
        }
        (self.pitch as u64) * (self.height as u64)
    }
}

impl DisplayBackend for PciVgaBackend {
    fn name(&self) -> (r: &str)
        ensures
            r@ == "PCI VGA"@,
    {
        "PCI VGA"
    }

    fn width(&self) -> (r: u32)
        ensures
            r == self.width,
    {
        self.width
    }

    fn height(&self) -> (r: u32)
        ensures
            r == self.height,
    {
        self.height
    }

    fn pitch(&self) -> (r: u32)
        ensures
            r == self.pitch,
    {
        self.pitch
    }

    fn bpp(&self) -> (r: u8)
        ensures
            r == mode_bpp(self.current_mode),
    {
        if self.current_mode == VGA_MODE_13H {
            8
        } else if self.current_mode == VGA_MODE_12H {
            4
        } else {
            8
        }
    }

    fn fb_ptr(&self) -> (r: u64)
        ensures
            r == self.fb_addr,
    {
        self.fb_addr
    }

    fn fb_size(&self) -> (r: usize)
        ensures
            r == (self.pitch as int * self.height as int) as usize,
    {
        self.clear_len() as usize
    }

    fn pixel_format(&self) -> (r: PixelFormat)
        ensures
            r == mode_format(self.current_mode),
    {
        if self.current_mode == VGA_MODE_13H || self.current_mode == VGA_MODE_12H {
            PixelFormat::Indexed8
        } else {
            PixelFormat::Text
        }
    }

    /// Picks the mode for the requested resolution; fails below 320x200.  The
    /// register program of the switch is kept in `program` until the caller
    /// takes it (`take_program`) and performs it.
    fn set_mode(&mut self, width: u32, height: u32, _bpp: u8) -> (r: bool)
        ensures
            r == choose_mode(width, height) is Some,
            choose_mode(width, height) is None ==> *final(self) == *old(self),
            choose_mode(width, height) matches Some(m) ==> final(self).current_mode == m
                && final(self).program@ == vga_program(m)
                && final(self).fb_addr == old(self).fb_addr
                && (m == VGA_MODE_12H ==> final(self).width == 640 && final(self).height == 480 && final(self).pitch == 80)
                && (m == VGA_MODE_13H ==> final(self).width == 320 && final(self).height == 200 && final(self).pitch == 320),
    {
        let mode = if width >= 640 && height >= 480 {
            VGA_MODE_12H
        } else if width >= 320 && height >= 200 {
            VGA_MODE_13H
        } else {
            return false;
        };
        let (ok, writes) = self.set_vga_mode(mode);
        self.program = writes;
        ok
    }
}

} // verus!
