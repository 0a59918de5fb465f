//! UEFI GOP framebuffer back-end.
use vstd::prelude::*;
use crate::display::{DisplayBackend, DisplayManager, PixelFormat};

verus! {

pub struct GopBackend {
    pub fb_addr: u64,
    pub width: u32,
    pub height: u32,
    pub pitch: u32,
    pub bpp: u8,
    pub format: PixelFormat,
}

impl GopBackend {
    pub fn new(fb_addr: u64, width: u32, height: u32, pitch: u32, bpp: u8, format: PixelFormat) -> (r: GopBackend)
        ensures
            r == (GopBackend { fb_addr, width, height, pitch, bpp, format }),
    {
        GopBackend { fb_addr, width, height, pitch, bpp, format }
    }

    /// Framebuffer size in bytes: pitch times height.
    pub fn size_bytes(&self) -> (r: u64)
        ensures
            r == self.pitch as int * self.height as int,
    {
        proof {
            assert(self.pitch as int * self.height as int <= 0xFFFF_FFFF * 0xFFFF_FFFF) by (nonlinear_arith)
                requires
                    self.pitch <= 0xFFFF_FFFF,
                    self.height <= 0xFFFF_FFFF,
            ;
        }
        (self.pitch as u64) * (self.height as u64)
    }
}

/// Registers the boot loader's framebuffer (address, width, height, pitch
/// and bits per pixel as reported) as the "GOP (UEFI)" back-end, in the
/// BGR888 layout the boot loader sets up, when the display manager is up;
/// the values are taken to the back-end's widths by truncation.  The
/// back-end for the framebuffer is returned.
pub fn register_from_framebuffer(mgr: &mut Option<DisplayManager>, addr: u64, width: u64, height: u64, pitch: u64, bpp: u16) -> (g: GopBackend)
    ensures
        g == (GopBackend {
            fb_addr: addr,
            width: width as u32,
            height: height as u32,
            pitch: pitch as u32,
            bpp: bpp as u8,
            format: PixelFormat::Bgr888,
        }),
        *old(mgr) is None ==> *final(mgr) is None,
        *old(mgr) matches Some(m0) ==> (*final(mgr) matches Some(m1)
            && m1@ == m0@.push(("GOP (UEFI)"@, width as u32, height as u32, bpp as u8, PixelFormat::Bgr888))
            && m1.spec_active() == m0.spec_active()),
{
    let w = width as u32;
    let h = height as u32;
    let p = pitch as u32;
    let b = bpp as u8;
    let format = PixelFormat::Bgr888;
    match mgr {
        Some(m) => m.register_backend("GOP (UEFI)", w, h, b, format),
        None => {}
    }
    GopBackend::new(addr, w, h, p, b, format)
}

impl DisplayBackend for GopBackend {
    fn name(&self) -> (r: &str)
        ensures
            r@ == "GOP (UEFI)"@,
    {
        "GOP (UEFI)"
    }

    fn width(&self) -> (r: u32)
        ensures
            r == self.width,
    {
        self.width
    }

    fn height(&self) -> (r: u32)
        ensures
            r == self.height,
    {
        self.height
    }

    fn pitch(&self) -> (r: u32)
        ensures
            r == self.pitch,
    {
        self.pitch
    }

    fn bpp(&self) -> (r: u8)
        ensures
            r == self.bpp,
    {
        self.bpp
    }

    fn fb_ptr(&self) -> (r: u64)
        ensures
            r == self.fb_addr,
    {
        self.fb_addr
    }

    fn fb_size(&self) -> (r: usize)
        ensures
            r == (self.pitch as int * self.height as int) as usize,
    {
        self.size_bytes() as usize
    }

    fn pixel_format(&self) -> (r: PixelFormat)
        ensures
            r == self.format,
    {
        self.format
    }

    /// The boot loader's framebuffer cannot change mode at run time.
    fn set_mode(&mut self, _w: u32, _h: u32, _bpp: u8) -> (r: bool)
        ensures
            !r,
            *final(self) == *old(self),
    {
        false
    }
}

} // verus!
