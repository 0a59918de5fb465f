//! Colours in 0x00RRGGBB form.
use vstd::prelude::*;

verus! {

pub const RED: u32 = 0x00FF_0000;
pub const GREEN: u32 = 0x0000_FF00;
pub const BLUE: u32 = 0x0000_00FF;
pub const WHITE: u32 = 0x00FF_FFFF;
pub const BLACK: u32 = 0x0000_0000;
pub const CYAN: u32 = 0x0000_FFFF;
pub const YELLOW: u32 = 0x00FF_FF00;
pub const MAGENTA: u32 = 0x00FF_00FF;

/// The colour with the given components.
pub open spec fn rgb_spec(r: u8, g: u8, b: u8) -> u32 {
    (r as int * 0x1_0000 + g as int * 0x100 + b as int) as u32
}

pub fn rgb(r: u8, g: u8, b: u8) -> (c: u32)
    ensures
        c == rgb_spec(r, g, b),
{
    (r as u32) * 0x1_0000 + (g as u32) * 0x100 + (b as u32)
}

/// Component `shift` (16 red, 8 green, 0 blue) of a colour.
pub open spec fn component(c: u32, shift: int) -> int {
    (c as int / pow256(shift)) % 256
}

pub open spec fn pow256(shift: int) -> int {
    if shift == 16 { 0x1_0000 } else if shift == 8 { 0x100 } else { 1 }
}

/// Interpolated component: `a + (b - a) * t / 256`, the division truncating toward zero.
pub open spec fn lerp_component(a: int, b: int, t: int) -> int {
    let p = (b - a) * t;
    a + (if p >= 0 { p / 256 } else { -((-p) / 256) })
}

/// Linear interpolation between two colours with a fixed-point weight
/// `t_fixed` in 0..=256 (256 meaning `b`), component by component.
pub open spec fn lerp_fixed_spec(a: u32, b: u32, t: int) -> u32 {
    rgb_spec(
        lerp_component(component(a, 16), component(b, 16), t) as u8,
        lerp_component(component(a, 8), component(b, 8), t) as u8,
        lerp_component(component(a, 0), component(b, 0), t) as u8,
    )
}

fn lerp_comp(a: i32, b: i32, t: i32) -> (r: i32)
    requires
        0 <= a <= 255,
        0 <= b <= 255,
        0 <= t <= 256,
    ensures
        r == lerp_component(a as int, b as int, t as int),
        0 <= r <= 255,
{
    proof {
        assert(-255 * 256 <= (b - a) * t <= 255 * 256) by (nonlinear_arith)
            requires
                -255 <= b - a <= 255,
                0 <= t <= 256,
        ;
        let p = (b - a) * t;
        let d = b - a;
        if p >= 0 {
            if d >= 0 {
                assert(p <= d * 256) by (nonlinear_arith)
                    requires
                        p == d * t,
                        0 <= t <= 256,
                        d >= 0,
                ;
                assert(p / 256 <= d);
            } else {
                assert(p <= 0) by (nonlinear_arith)
                    requires
                        p == d * t,
                        0 <= t,
                        d < 0,
                ;
            }
        } else {
            assert(-p <= -d * 256) by (nonlinear_arith)
                requires
                    p == d * t,
                    0 <= t <= 256,
                    p < 0,
            ;
            assert((-p) / 256 <= -d);
        }
    }
    let p = (b - a) * t;
    let q = if p >= 0 { p / 256 } else { -((-p) / 256) };
    a + q
}

fn comp_of(c: u32, shift: u32) -> (r: i32)
    requires
        shift == 16 || shift == 8 || shift == 0,
    ensures
        r == component(c, shift as int),
        0 <= r <= 255,
{
    let d: u32 = if shift == 16 { 0x1_0000 } else if shift == 8 { 0x100 } else { 1 };
    ((c / d) % 256) as i32
}

/// Interpolates between two colours with weight `t_fixed` (0..=256), clamping
/// the weight into that range first.
pub fn lerp_fixed(a: u32, b: u32, t_fixed: i32) -> (c: u32)
    ensures
        c == lerp_fixed_spec(a, b, if t_fixed < 0 { 0 } else if t_fixed > 256 { 256 } else { t_fixed as int }),
{
    let t = if t_fixed < 0 { 0 } else if t_fixed > 256 { 256 } else { t_fixed };
    let rr = lerp_comp(comp_of(a, 16), comp_of(b, 16), t);
    let rg = lerp_comp(comp_of(a, 8), comp_of(b, 8), t);
    let rb = lerp_comp(comp_of(a, 0), comp_of(b, 0), t);
    rgb(rr as u8, rg as u8, rb as u8)
}

/// The red, green and blue channels of the colour with hue `h` (0..=1535,
/// six sectors of 256 steps), saturation `s` and value `v` (0..=255 each).
pub open spec fn hsv_channels(h: int, s: int, v: int) -> (int, int, int) {
    let sector = (h / 256) % 8;
    let f = h % 256;
    let p = v * (255 - s) / 255;
    let q = v * (255 - s * f / 255) / 255;
    let t = v * (255 - s * (255 - f) / 255) / 255;
    if sector == 0 {
        (v, t, p)
    } else if sector == 1 {
        (q, v, p)
    } else if sector == 2 {
        (p, v, t)
    } else if sector == 3 {
        (p, q, v)
    } else if sector == 4 {
        (t, p, v)
    } else {
        (v, p, q)
    }
}

proof fn lemma_scaled(v: int, a: int)
    requires
        0 <= v <= 16843009,
        0 <= a <= 255,
    ensures
        0 <= v * a <= 16843009 * 255,
        0 <= v * a / 255 <= v,
{
    assert(0 <= v * a <= v * 255) by (nonlinear_arith)
        requires
            0 <= v,
            0 <= a <= 255,
    ;
}

/// HSV to RGB on integer inputs: hue in 1536 steps, saturation and value
/// in 0..=255 (a larger value is accepted while the products fit in 32
/// bits; each channel keeps its low byte); a saturation of zero gives the
/// grey of the value, whatever the value.
pub fn hsv_to_rgb_fixed(h_i: u32, s_i: u32, v_i: u32) -> (c: u32)
    requires
        s_i == 0 || (s_i <= 255 && v_i <= 16843009),
    ensures
        c == (if s_i == 0 {
            rgb_spec(v_i as u8, v_i as u8, v_i as u8)
        } else {
            let ch = hsv_channels(h_i as int, s_i as int, v_i as int);
            rgb_spec(ch.0 as u8, ch.1 as u8, ch.2 as u8)
        }),
{
    if s_i == 0 {
        return rgb(v_i as u8, v_i as u8, v_i as u8);
    }
    let sector = (h_i / 256) % 8;
    let f = h_i % 256;
    proof {
        lemma_scaled(v_i as int, 255 - s_i);
        lemma_scaled(s_i as int, f as int);
        lemma_scaled(s_i as int, 255 - f);
        assert(s_i * f / 255 <= 255);
        assert(s_i * (255 - f) / 255 <= 255);
        lemma_scaled(v_i as int, 255 - s_i * f / 255);
        lemma_scaled(v_i as int, 255 - s_i * (255 - f) / 255);
    }
    let p = v_i * (255 - s_i) / 255;
    let q = v_i * (255 - s_i * f / 255) / 255;
    let t = v_i * (255 - s_i * (255 - f) / 255) / 255;
    let (r, g, b) = if sector == 0 {
        (v_i, t, p)
    } else if sector == 1 {
        (q, v_i, p)
    } else if sector == 2 {
        (p, v_i, t)
    } else if sector == 3 {
        (p, q, v_i)
    } else if sector == 4 {
        (t, p, v_i)
    } else {
        (v_i, p, q)
    };
    rgb(r as u8, g as u8, b as u8)
}

} // verus!
