//! Display back-ends: pixel formats and colour conversion, the registry of
//! back-ends, the UEFI GOP framebuffer and legacy PCI VGA.
pub mod gop;
pub mod pcivga;

use vstd::prelude::*;

verus! {

/// Pixel layout of a framebuffer.
#[derive(PartialEq, Eq, Structural, Clone, Copy, Debug)]
pub enum PixelFormat {
    /// 0x00RRGGBB
    Rgb888,
    /// 0x00BBGGRR (the Limine default)
    Bgr888,
    /// 16 bits per pixel
    Rgb565,
    /// 8-bit palette index
    Indexed8,
    /// VGA text mode
    Text,
}

pub open spec fn bytes_per_pixel_spec(f: PixelFormat) -> usize {
    match f {
        PixelFormat::Rgb888 | PixelFormat::Bgr888 => 4,
        PixelFormat::Rgb565 => 2,
        PixelFormat::Indexed8 => 1,
        PixelFormat::Text => 0,
    }
}

pub open spec fn format_name_spec(f: PixelFormat) -> Seq<char> {
    match f {
        PixelFormat::Rgb888 => "RGB888"@,
        PixelFormat::Bgr888 => "BGR888"@,
        PixelFormat::Rgb565 => "RGB565"@,
        PixelFormat::Indexed8 => "Indexed8"@,
        PixelFormat::Text => "Text"@,
    }
}

impl PixelFormat {
    pub fn bytes_per_pixel(&self) -> (r: usize)
        ensures
            r == bytes_per_pixel_spec(*self),
    {
        match self {
            PixelFormat::Rgb888 | PixelFormat::Bgr888 => 4,
            PixelFormat::Rgb565 => 2,
            PixelFormat::Indexed8 => 1,
            PixelFormat::Text => 0,
        }
    }

    /// Display name of the format.
    pub fn name(&self) -> (r: &'static str)
        ensures
            r@ == format_name_spec(*self),
    {
        match self {
            PixelFormat::Rgb888 => "RGB888",
            PixelFormat::Bgr888 => "BGR888",
            PixelFormat::Rgb565 => "RGB565",
            PixelFormat::Indexed8 => "Indexed8",
            PixelFormat::Text => "Text",
        }
    }
}

/// An 0x00RRGGBB colour in the given native format.
pub open spec fn color_to_native_spec(color: u32, format: PixelFormat) -> u32 {
    match format {
        PixelFormat::Bgr888 => ((color & 0xFF) << 16u32) | (((color >> 8u32) & 0xFF) << 8u32) | ((color >> 16u32) & 0xFF),
        PixelFormat::Rgb565 => ((((color >> 16u32) & 0xFF) >> 3u32) << 11u32) | ((((color >> 8u32) & 0xFF) >> 2u32) << 5u32)
            | ((color & 0xFF) >> 3u32),
        _ => color,
    }
}

/// A native pixel value as an 0x00RRGGBB colour.
pub open spec fn native_to_color_spec(native: u32, format: PixelFormat) -> u32 {
    match format {
        PixelFormat::Bgr888 => ((native & 0xFF) << 16u32) | (((native >> 8u32) & 0xFF) << 8u32) | ((native >> 16u32) & 0xFF),
        PixelFormat::Rgb565 => {
            let v = native & 0xFFFF;
            ((((v >> 11u32) & 0x1F) << 3u32) << 16u32) | ((((v >> 5u32) & 0x3F) << 2u32) << 8u32) | ((v & 0x1F) << 3u32)
        },
        _ => native,
    }
}

/// Converts an 0x00RRGGBB colour to the native pixel value.
pub fn color_to_native(color: u32, format: PixelFormat) -> (r: u32)
    ensures
        r == color_to_native_spec(color, format),
{
    match format {
        PixelFormat::Rgb888 => color,
        PixelFormat::Bgr888 => {
            let r = (color >> 16u32) & 0xFF;
            let g = (color >> 8u32) & 0xFF;
            let b = color & 0xFF;
            (b << 16u32) | (g << 8u32) | r
        },
        PixelFormat::Rgb565 => {
            let r = (color >> 16u32) & 0xFF;
            let g = (color >> 8u32) & 0xFF;
            let b = color & 0xFF;
            assert(r <= 0xFF && g <= 0xFF) by (bit_vector)
                requires
                    r == (color >> 16u32) & 0xFF,
                    g == (color >> 8u32) & 0xFF,
            ;
            assert((r >> 3u32) << 11u32 <= 0xF800 && (g >> 2u32) << 5u32 <= 0x07E0) by (bit_vector)
                requires
                    r <= 0xFF && g <= 0xFF,
            ;
            ((r >> 3u32) << 11u32) | ((g >> 2u32) << 5u32) | (b >> 3u32)
        },
        _ => color,
    }
}

/// Converts a native pixel value to an 0x00RRGGBB colour.
pub fn native_to_color(native: u32, format: PixelFormat) -> (r: u32)
    ensures
        r == native_to_color_spec(native, format),
{
    match format {
        PixelFormat::Rgb888 => native,
        PixelFormat::Bgr888 => {
            let b = (native >> 16u32) & 0xFF;
            let g = (native >> 8u32) & 0xFF;
            let r = native & 0xFF;
            (r << 16u32) | (g << 8u32) | b
        },
        PixelFormat::Rgb565 => {
            let v = native & 0xFFFF;
            let r = (v >> 11u32) & 0x1F;
            let g = (v >> 5u32) & 0x3F;
            let b = v & 0x1F;
            ((r << 3u32) << 16u32) | ((g << 2u32) << 8u32) | (b << 3u32)
        },
        _ => native,
    }
}

/// Converting a colour to BGR888 and back gives the colour without its top byte.
pub proof fn lemma_bgr_roundtrip(c: u32)
    ensures
        native_to_color_spec(color_to_native_spec(c, PixelFormat::Bgr888), PixelFormat::Bgr888) == c & 0x00FF_FFFF,
{
    let n = ((c & 0xFF) << 16u32) | (((c >> 8u32) & 0xFF) << 8u32) | ((c >> 16u32) & 0xFF);
    assert((((n & 0xFF) << 16u32) | (((n >> 8u32) & 0xFF) << 8u32) | ((n >> 16u32) & 0xFF)) == c & 0x00FF_FFFF) by (bit_vector)
        requires
            n == ((c & 0xFF) << 16u32) | (((c >> 8u32) & 0xFF) << 8u32) | ((c >> 16u32) & 0xFF),
    ;
}

/// Converting a colour to RGB565 and back keeps the top 5, 6 and 5 bits of
/// red, green and blue.
pub proof fn lemma_rgb565_roundtrip(c: u32)
    ensures
        native_to_color_spec(color_to_native_spec(c, PixelFormat::Rgb565), PixelFormat::Rgb565) == c & 0x00F8_FCF8,
{
    let n = ((((c >> 16u32) & 0xFF) >> 3u32) << 11u32) | ((((c >> 8u32) & 0xFF) >> 2u32) << 5u32) | ((c & 0xFF) >> 3u32);
    let v = n & 0xFFFF;
    assert(((((v >> 11u32) & 0x1F) << 3u32) << 16u32) | ((((v >> 5u32) & 0x3F) << 2u32) << 8u32) | ((v & 0x1F) << 3u32)
        == c & 0x00F8_FCF8) by (bit_vector)
        requires
            n == ((((c >> 16u32) & 0xFF) >> 3u32) << 11u32) | ((((c >> 8u32) & 0xFF) >> 2u32) << 5u32) | ((c & 0xFF) >> 3u32),
            v == n & 0xFFFF,
    ;
}

/// Interface shared by the graphics back-ends.
pub trait DisplayBackend {
    fn name(&self) -> &str;
    fn width(&self) -> u32;
    fn height(&self) -> u32;
    /// Bytes per line.
    fn pitch(&self) -> u32;
    /// Bits per pixel.
    fn bpp(&self) -> u8;
    /// Address of the framebuffer.
    fn fb_ptr(&self) -> u64;
    fn fb_size(&self) -> usize;
    fn pixel_format(&self) -> PixelFormat;
    fn set_mode(&mut self, width: u32, height: u32, bpp: u8) -> bool;
    /// For double buffering; nothing to do by default.
    fn flush(&mut self) {
    }
}

/// A registered back-end: name, width, height, bits per pixel, format.
pub struct DisplayBackendEntry {
    pub name: String,
    pub width: u32,
    pub height: u32,
    pub bpp: u8,
    pub format: PixelFormat,
}

/// Abstract value of a registered back-end.
pub type BackendView = (Seq<char>, u32, u32, u8, PixelFormat);

/// The display manager: registered back-ends and the index of the active one.
pub struct DisplayManager {
    backends: Vec<DisplayBackendEntry>,
    active: usize,
}

impl DisplayManager {
    pub closed spec fn view(&self) -> Seq<BackendView> {
        self.backends@.map_values(|e: DisplayBackendEntry| (e.name@, e.width, e.height, e.bpp, e.format))
    }

    pub closed spec fn spec_active(&self) -> usize {
        self.active
    }

    /// No back-end yet; the first one registered becomes active.
    pub fn init() -> (m: DisplayManager)
        ensures
            m@ == Seq::<BackendView>::empty(),
            m.spec_active() == 0,
    {
        let m = DisplayManager { backends: Vec::new(), active: 0 };
        assert(m@ =~= Seq::<BackendView>::empty());
        m
    }

    pub fn register_backend(&mut self, name: &str, width: u32, height: u32, bpp: u8, format: PixelFormat)
        ensures
            final(self)@ == old(self)@.push((name@, width, height, bpp, format)),
            final(self).spec_active() == old(self).spec_active(),
    {
        let entry = DisplayBackendEntry { name: String::from_str(name), width, height, bpp, format };
        self.backends.push(entry);
        assert(self@ =~= old(self)@.push((name@, width, height, bpp, format)));
    }
}

/// Number of registered back-ends; none without a display manager.
pub fn backend_count(mgr: &Option<DisplayManager>) -> (r: usize)
    ensures
        r == (match mgr { Some(m) => m@.len(), None => 0 }),
{
    match mgr {
        Some(m) => m.backends.len(),
        None => 0,
    }
}

/// Description of back-end `index`: (name, width, height, bpp, format).
pub fn get_backend_info(mgr: &Option<DisplayManager>, index: usize) -> (r: Option<(String, u32, u32, u8, PixelFormat)>)
    ensures
        r is Some <==> (mgr matches Some(m) && index < m@.len()),
        r matches Some(t) ==> (mgr matches Some(m) && m@[index as int] == (t.0@, t.1, t.2, t.3, t.4)),
{
    match mgr {
        Some(m) => {
            if index < m.backends.len() {
                let e = &m.backends[index];
                Some((e.name.clone(), e.width, e.height, e.bpp, e.format))
            } else {
                None
            }
        },
        None => None,
    }
}

/// Format of the active back-end; BGR888 (the boot loader's) when there is none.
pub fn get_active_format(mgr: &Option<DisplayManager>) -> (r: PixelFormat)
    ensures
        r == (match mgr {
            Some(m) => if m.spec_active() < m@.len() { m@[m.spec_active() as int].4 } else { PixelFormat::Bgr888 },
            None => PixelFormat::Bgr888,
        }),
{
    match mgr {
        Some(m) => {
            if m.active < m.backends.len() {
                m.backends[m.active].format
            } else {
                PixelFormat::Bgr888
            }
        },
        None => PixelFormat::Bgr888,
    }
}

/// Registering back-ends one after the other on a fresh manager lists
/// exactly those back-ends, in order: after `k` registrations there are `k`
/// back-ends and the `j`-th is the `j`-th registered.  `ms[j]` is the
/// manager after `j` registrations.
pub proof fn lemma_registrations(ms: Seq<DisplayManager>, regs: Seq<BackendView>)
    requires
        ms.len() == regs.len() + 1,
        ms[0]@ == Seq::<BackendView>::empty(),
        forall|j: int| 0 <= j < regs.len() ==> #[trigger] ms[j + 1]@ == ms[j]@.push(regs[j]),
    ensures
        ms.last()@ == regs,
        ms.last()@.len() == regs.len(),
    decreases regs.len(),
{
    if regs.len() > 0 {
        let n = regs.len() - 1;
        lemma_registrations(ms.take(n + 1), regs.take(n));
        assert(ms.take(n + 1).last() == ms[n]);
        assert(ms[n + 1]@ == ms[n]@.push(regs[n]));
        assert(ms.last()@ =~= regs);
    } else {
        assert(ms.last()@ =~= regs);
    }
}

} // verus!
