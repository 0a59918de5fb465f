//! Frames-per-second counter driven by the 100 Hz timer tick.
use vstd::prelude::*;
use crate::console::{Console, OpView, dec, dec_string};

verus! {

pub struct FpsCounter {
    pub frame_count: u64,
    pub last_tick: u64,
    pub current_fps: u32,
}

/// FPS over an interval: frames times 100 ticks per second, divided by the elapsed ticks.
pub open spec fn fps_value(frames: int, elapsed: int) -> u32 {
    (frames * 100 / elapsed) as u32
}

/// The counter after a frame counted at timer tick `now`.
pub open spec fn tick_spec(c: FpsCounter, now: u64) -> FpsCounter {
    let frames = c.frame_count + 1;
    let elapsed = now.wrapping_sub(c.last_tick);
    if elapsed >= 100 {
        FpsCounter { frame_count: 0, last_tick: now, current_fps: fps_value(frames, elapsed as int) }
    } else {
        FpsCounter { frame_count: frames as u64, ..c }
    }
}

/// Over a window: `n` frames counted less than 100 ticks after the counter
/// started leave the rate at 0 with `n` frames counted; the next frame at
/// `e >= 100` ticks after the start sets the rate to `(n + 1) * 100 / e` and
/// starts a new window at that tick with no frame counted.  `cs[j]` is the
/// counter after `j` frames, `times[j]` the tick of frame `j`.
pub proof fn lemma_fps_window(cs: Seq<FpsCounter>, times: Seq<u64>, now: u64)
    requires
        cs.len() == times.len() + 1,
        times.len() < u64::MAX / 100,
        cs[0].frame_count == 0,
        cs[0].current_fps == 0,
        forall|j: int| 0 <= j < times.len() ==> #[trigger] cs[j + 1] == tick_spec(cs[j], times[j]),
        forall|j: int| 0 <= j < times.len() ==> (#[trigger] times[j]).wrapping_sub(cs[0].last_tick) < 100,
    ensures
        cs.last() == (FpsCounter { frame_count: times.len() as u64, last_tick: cs[0].last_tick, current_fps: 0 }),
        now.wrapping_sub(cs[0].last_tick) >= 100 ==> tick_spec(cs.last(), now) == (FpsCounter {
            frame_count: 0,
            last_tick: now,
            current_fps: fps_value(times.len() as int + 1, now.wrapping_sub(cs[0].last_tick) as int),
        }),
    decreases times.len(),
{
    if times.len() > 0 {
        let n = times.len() - 1;
        let cs2 = cs.take(n + 1);
        let t2 = times.take(n);
        assert forall|j: int| 0 <= j < t2.len() implies #[trigger] cs2[j + 1] == tick_spec(cs2[j], t2[j]) by {
            assert(cs2[j + 1] == cs[j + 1] && cs2[j] == cs[j] && t2[j] == times[j]);
        }
        assert forall|j: int| 0 <= j < t2.len() implies (#[trigger] t2[j]).wrapping_sub(cs2[0].last_tick) < 100 by {
            assert(t2[j] == times[j]);
        }
        lemma_fps_window(cs2, t2, now);
        assert(cs2.last() == cs[n]);
        assert(cs[n + 1] == tick_spec(cs[n], times[n]));
        assert(times[n].wrapping_sub(cs[0].last_tick) < 100);
    }
}

impl FpsCounter {
    /// A counter starting at timer tick `now`.
    pub fn new(now: u64) -> (c: FpsCounter)
        ensures
            c == (FpsCounter { frame_count: 0, last_tick: now, current_fps: 0 }),
    {
        FpsCounter { frame_count: 0, last_tick: now, current_fps: 0 }
    }

    /// Counts a frame at timer tick `now`; once a second (100 ticks, the tick
    /// counter wrapping) has passed, the rate is recomputed and counting restarts.
    pub fn tick(&mut self, now: u64)
        requires
            old(self).frame_count < u64::MAX / 100,
        ensures
            *final(self) == tick_spec(*old(self), now),
    {
        self.frame_count = self.frame_count + 1;
        let elapsed = now.wrapping_sub(self.last_tick);
        if elapsed >= 100 {
            self.current_fps = (self.frame_count * 100 / elapsed) as u32;
            self.frame_count = 0;
            self.last_tick = now;
        }
    }

    pub fn fps(&self) -> (r: u32)
        ensures
            r == self.current_fps,
    {
        self.current_fps
    }

    /// Draws "<fps> FPS" in the top-right corner: a dark box 8 pixels wider
    /// than the 8-pixel-per-character text, 4 pixels from the top and 8 from
    /// the right edge (at the left edge when the screen is too narrow).
    pub fn draw(&self, console: &mut Console)
        ensures
            ({
                let text = dec(self.current_fps as nat) + " FPS"@;
                let tw = text.len() * 8;
                let w = old(console).spec_fb_width();
                let x: int = if w > tw + 8 { w - tw - 8 } else { 0 };
                final(console)@ == old(console)@ + seq![
                    OpView::Rect((if x >= 4 { x - 4 } else { 0 }) as usize, 4, (tw + 8) as usize, 16, 0x0011_1111),
                    OpView::TextAt(x as usize, 4, text, 0x00FF_FFFF, 0x0011_1111),
                ]
            }),
            final(console).spec_fb_width() == old(console).spec_fb_width(),
            final(console).spec_fb_height() == old(console).spec_fb_height(),
            final(console).spec_fb_pitch() == old(console).spec_fb_pitch(),
    {
        let w = console.fb_width();
        let mut fps_text = dec_string(self.current_fps as u64);
        fps_text.append(" FPS");
        let n = fps_text.as_str().unicode_len();
        assert(n <= 14) by {
            reveal_strlit(" FPS");
            assert(pow10(10) == 10_000_000_000) by {
                reveal_with_fuel(pow10, 11);
            }
            lemma_dec_len(self.current_fps as nat, 10);
        }
        let text_width = n * 8;
        let bg_color: u32 = 0x0011_1111;
        let x = if w > text_width + 8 { w - text_width - 8 } else { 0 };
        let y: usize = 4;
        let rx = if x >= 4 { x - 4 } else { 0 };
        console.fill_rect(rx, y, text_width + 8, 16, bg_color);
        console.draw_text_at(x, y, fps_text, 0x00FF_FFFF, bg_color);
    }
}

/// Ten to the power `k`.
pub open spec fn pow10(k: nat) -> nat
    decreases k,
{
    if k == 0 { 1 } else { 10 * pow10((k - 1) as nat) }
}

/// A number below `10^k` (with `k >= 1`) has at most `k` decimal digits.
pub proof fn lemma_dec_len(n: nat, k: nat)
    requires
        k >= 1,
        n < pow10(k),
    ensures
        dec(n).len() <= k,
    decreases k,
{
    if n >= 10 {
        assert(pow10(0) == 1);
        assert(k >= 2);
        assert(n / 10 < pow10((k - 1) as nat));
        lemma_dec_len(n / 10, (k - 1) as nat);
    }
}

} // verus!
