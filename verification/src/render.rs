//! Pixel buffers for the overlay: the hand-drawn status surface and the
//! RGBA-to-BGRA swizzle applied to rendered frames.

use vstd::prelude::*;

use crate::voice_state::RoomState;

verus! {

/// Bytes per pixel of every buffer this module produces.
pub const BYTES_PER_PIXEL: u32 = 4;

/// A renderer that paints the room state as a solid status surface.
pub struct StubBackend {
    pub width: u32,
    pub height: u32,
}

/// The larger of `v` and one.
pub open spec fn at_least_one(v: u32) -> int {
    if v == 0 {
        1
    } else {
        v as int
    }
}

/// How many participant bars fit across a surface `w` pixels wide.
pub open spec fn max_bars(w: int) -> int {
    if w / 12 >= 1 {
        w / 12 - 1
    } else {
        0
    }
}

/// How many participant bars the surface shows: one per participant, up to
/// what fits.
pub open spec fn bar_count(state: RoomState, w: int) -> int {
    let count: u32 = match state.active_room {
        Some(room) => room.participants@.len() as u32,
        None => 0,
    };
    if (count as int) < max_bars(w) {
        count as int
    } else {
        max_bars(w)
    }
}

/// Pixel `(x, y)` lies in one of the first `bars` participant bars: eight
/// pixels wide, twelve apart, starting four pixels in, and `bar_h` rows high.
pub open spec fn in_bar(x: int, y: int, bars: int, bar_h: int) -> bool {
    &&& y < bar_h
    &&& x >= 4
    &&& (x - 4) % 12 < 8
    &&& (x - 4) / 12 < bars
}

/// Background channel `c` (blue, green, red, alpha) for the room state: red
/// when there is no active room, green when there is one; alpha 180.
pub open spec fn background_channel(state: RoomState, c: int) -> u8 {
    let (r, g, b): (u8, u8, u8) = match state.active_room {
        None => (200u8, 40u8, 40u8),
        Some(_) => (40u8, 180u8, 90u8),
    };
    if c == 0 {
        b
    } else if c == 1 {
        g
    } else if c == 2 {
        r
    } else {
        180u8
    }
}

/// The byte of channel `c` at pixel `(x, y)` of a `w`-wide surface of `h` rows.
pub open spec fn expected_byte(state: RoomState, w: int, h: int, x: int, y: int, c: int) -> u8 {
    let bar_h = if h < 6 {
        h
    } else {
        6
    };
    if in_bar(x, y, bar_count(state, w), bar_h) {
        255u8
    } else {
        background_channel(state, c)
    }
}

/// The byte of channel `c` of pixel `(x, y)` in a row-major buffer `w` pixels wide.
pub open spec fn pixel_byte(buf: Seq<u8>, w: int, x: int, y: int, c: int) -> u8 {
    buf[(y * w + x) * 4 + c]
}

proof fn lemma_pixel_bounds(w: int, h: int, x: int, y: int, c: int)
    requires
        0 <= x < w,
        0 <= y < h,
        0 <= c < 4,
    ensures
        0 <= (y * w + x) * 4 + c < w * h * 4,
        (y * w + x) * 4 + 4 <= w * h * 4,
{
    assert(y * w + x < w * h) by (nonlinear_arith)
        requires
            0 <= x < w,
            0 <= y < h,
    ;
    assert(0 <= y * w) by (nonlinear_arith)
        requires
            0 <= x < w,
            0 <= y < h,
    ;
}

proof fn lemma_pixel_distinct(w: int, x1: int, y1: int, x2: int, y2: int)
    requires
        0 <= x1 < w,
        0 <= x2 < w,
        0 <= y1,
        0 <= y2,
        y1 < y2 || (y1 == y2 && x1 < x2),
    ensures
        y1 * w + x1 < y2 * w + x2,
{
    if y1 < y2 {
        assert(y1 * w + x1 < y2 * w + x2) by (nonlinear_arith)
            requires
                0 <= x1 < w,
                0 <= x2 < w,
                0 <= y1 < y2,
        ;
    }
}

/// The number of participants of the active room, none without one.
pub open spec fn participant_count(state: RoomState) -> int {
    match state.active_room {
        Some(room) => room.participants@.len() as int,
        None => 0,
    }
}

/// Law: the surface shows one bar per participant, as many as fit and
/// never more. The top-left pixel of the `k`-th bar slot, four pixels in and
/// twelve apart, is white exactly when there are more than `k` participants
/// and the slot ends at least a full slot before the right edge; otherwise
/// it shows the background, which is never white. So the number of bars is
/// the lesser of the number of participants and the bars that fit, and is
/// never above the number of participants.
pub proof fn law_one_bar_per_participant(state: RoomState, w: int, h: int, k: int, c: int)
    requires
        state.active_room is Some,
        participant_count(state) <= u32::MAX,
        w >= 1,
        h >= 1,
        k >= 0,
        4 + 12 * k < w,
        0 <= c < 4,
    ensures
        k < participant_count(state) && 12 * (k + 2) <= w ==> expected_byte(state, w, h, 4 + 12 * k, 0, c) == 255u8,
        !(k < participant_count(state) && 12 * (k + 2) <= w) ==> expected_byte(state, w, h, 4 + 12 * k, 0, c)
            == background_channel(state, c),
        background_channel(state, c) != 255u8,
        0 <= bar_count(state, w) <= participant_count(state),
        12 * (bar_count(state, w) + 1) <= w || bar_count(state, w) == 0,
        bar_count(state, w) < participant_count(state) ==> w < 12 * (bar_count(state, w) + 2),
{
    let n = participant_count(state);
    assert(((n as u32) as int) == n);
    assert((12 * k) % 12 == 0);
    assert((12 * k) / 12 == k);
}

/// Law: without a room the whole surface is red and shows no bar; in a
/// room the background is green. Pixels are stored blue, green, red, alpha,
/// at alpha 180.
pub proof fn law_background_colours(state: RoomState, w: int, h: int, x: int, y: int)
    requires
        w >= 1,
        h >= 1,
    ensures
        state.active_room is None ==> expected_byte(state, w, h, x, y, 0) == 40u8 && expected_byte(
            state,
            w,
            h,
            x,
            y,
            1,
        ) == 40u8 && expected_byte(state, w, h, x, y, 2) == 200u8 && expected_byte(state, w, h, x, y, 3)
            == 180u8,
        state.active_room is Some && y >= 6 ==> expected_byte(state, w, h, x, y, 0) == 90u8
            && expected_byte(state, w, h, x, y, 1) == 180u8 && expected_byte(state, w, h, x, y, 2)
            == 40u8 && expected_byte(state, w, h, x, y, 3) == 180u8,
{
}

impl StubBackend {
    /// Takes the new size of the target window.
    pub fn resize(&mut self, width: u32, height: u32)
        ensures
            final(self).width == width,
            final(self).height == height,
    {
        self.width = width;
        self.height = height;
    }

    /// The width of the surface, in pixels.
    pub fn width(&self) -> (r: u32)
        ensures
            r == self.width,
    {
        self.width
    }
    /// Paints the state: a background that is red without a room and green
    /// with one, and one white bar per participant along the top edge.
    pub fn render(&self, state: &RoomState) -> (buf: Vec<u8>)
        requires
            at_least_one(self.width) * at_least_one(self.height) * 4 <= u32::MAX,
        ensures
            buf@.len() == at_least_one(self.width) * at_least_one(self.height) * 4,
            forall|x: int, y: int, c: int|
                0 <= x < at_least_one(self.width) && 0 <= y < at_least_one(self.height) && 0 <= c
                    < 4 ==> #[trigger] pixel_byte(buf@, at_least_one(self.width), x, y, c)
                    == expected_byte(
                    *state,
                    at_least_one(self.width),
                    at_least_one(self.height),
                    x,
                    y,
                    c,
                ),
    {
        let w: u32 = if self.width == 0 {
            1
        } else {
            self.width
        };
        let h: u32 = if self.height == 0 {
            1
        } else {
            self.height
        };
        let ghost wi = w as int;
        let ghost hi = h as int;
        let (r, g, b, count): (u8, u8, u8, u32) = match state.active_room.as_ref() {
            None => (200u8, 40u8, 40u8, 0u32),
            Some(room) => (40u8, 180u8, 90u8, #[verifier::truncate] (room.participants.len() as u32)),
        };
        let alpha: u8 = 180;
        assert(wi * hi * 4 <= u32::MAX);
        assert(0 <= wi * hi) by (nonlinear_arith)
            requires
                wi >= 1,
                hi >= 1,
        ;
        let total: u32 = w * h * BYTES_PER_PIXEL;
        let mut buf: Vec<u8> = vec![0u8; total as usize];
        let bar_h: u32 = if 6u32 < h {
            6
        } else {
            h
        };
        let max_bars: u32 = if w / 12 >= 1 {
            w / 12 - 1
        } else {
            0
        };
        let bars: u32 = if count < max_bars {
            count
        } else {
            max_bars
        };
        assert(bars as int == bar_count(*state, wi));
        let mut y: u32 = 0;
        while y < h
            invariant
                wi == w,
                hi == h,
                w >= 1,
                h >= 1,
                wi * hi * 4 <= u32::MAX,
                total == wi * hi * 4,
                buf@.len() == total,
                0 <= y <= h,
                bars as int == bar_count(*state, wi),
                bar_h == (if hi < 6 {
                    hi
                } else {
                    6
                }),
                b == background_channel(*state, 0),
                g == background_channel(*state, 1),
                r == background_channel(*state, 2),
                alpha == background_channel(*state, 3),
                forall|x: int, yy: int, c: int|
                    0 <= x < wi && 0 <= yy < y && 0 <= c < 4 ==> #[trigger] pixel_byte(
                        buf@,
                        wi,
                        x,
                        yy,
                        c,
                    ) == expected_byte(*state, wi, hi, x, yy, c),
            decreases h - y,
        {
            let mut x: u32 = 0;
            while x < w
                invariant
                    wi == w,
                    hi == h,
                    w >= 1,
                    h >= 1,
                    wi * hi * 4 <= u32::MAX,
                    total == wi * hi * 4,
                    buf@.len() == total,
                    0 <= y < h,
                    0 <= x <= w,
                    bars as int == bar_count(*state, wi),
                    bar_h == (if hi < 6 {
                        hi
                    } else {
                        6
                    }),
                    b == background_channel(*state, 0),
                    g == background_channel(*state, 1),
                    r == background_channel(*state, 2),
                    alpha == background_channel(*state, 3),
                    forall|xx: int, yy: int, c: int|
                        0 <= xx < wi && 0 <= yy < hi && (yy < y || (yy == y && xx < x)) && 0 <= c
                            < 4 ==> #[trigger] pixel_byte(buf@, wi, xx, yy, c) == expected_byte(
                            *state,
                            wi,
                            hi,
                            xx,
                            yy,
                            c,
                        ),
                decreases w - x,
            {
                proof {
                    lemma_pixel_bounds(wi, hi, x as int, y as int, 0);
                }
                let i: usize = ((y * w + x) * BYTES_PER_PIXEL) as usize;
                let painted: bool = y < bar_h && x >= 4 && (x - 4) % 12 < 8 && (x - 4) / 12 < bars;
                let ghost before = buf@;
                if painted {
                    buf.set(i, 255);
                    buf.set(i + 1, 255);
                    buf.set(i + 2, 255);
                    buf.set(i + 3, 255);
                } else {
                    buf.set(i, b);
                    buf.set(i + 1, g);
                    buf.set(i + 2, r);
                    buf.set(i + 3, alpha);
                }
                proof {
                    assert forall|xx: int, yy: int, c: int|
                        0 <= xx < wi && 0 <= yy < hi && (yy < y || (yy == y && xx < x + 1)) && 0
                            <= c < 4 implies #[trigger] pixel_byte(buf@, wi, xx, yy, c)
                        == expected_byte(*state, wi, hi, xx, yy, c) by {
                        lemma_pixel_bounds(wi, hi, xx, yy, c);
                        if yy == y && xx == x {
                        } else {
                            lemma_pixel_distinct(wi, xx, yy, x as int, y as int);
                            assert(pixel_byte(before, wi, xx, yy, c) == expected_byte(
                                *state,
                                wi,
                                hi,
                                xx,
                                yy,
                                c,
                            ));
                        }
                    }
                }
                x = x + 1;
            }
            y = y + 1;
        }
        buf
    }
}

/// Byte `i` of a buffer after the red and blue channels of every complete
/// four-byte pixel are exchanged; a trailing partial pixel is left as is.
pub open spec fn swizzled_byte(buf: Seq<u8>, i: int) -> u8 {
    if i < (buf.len() / 4) * 4 {
        if i % 4 == 0 {
            buf[i + 2]
        } else if i % 4 == 2 {
            buf[i - 2]
        } else {
            buf[i]
        }
    } else {
        buf[i]
    }
}

/// Turns tightly packed RGBA pixels into BGRA by exchanging the first and
/// third byte of every complete pixel.
pub fn rgba_to_bgra(buf: Vec<u8>) -> (out: Vec<u8>)
    ensures
        out@.len() == buf@.len(),
        forall|i: int| 0 <= i < buf@.len() ==> #[trigger] out@[i] == swizzled_byte(buf@, i),
        out@ == swizzled(buf@),
{
    let mut out = buf;
    let ghost orig = out@;
    let n: usize = out.len() / 4;
    assert(n * 4 <= out@.len());
    let mut k: usize = 0;
    while k < n
        invariant
            n == orig.len() / 4,
            n * 4 <= orig.len(),
            0 <= k <= n,
            out@.len() == orig.len(),
            forall|i: int| 0 <= i < k * 4 ==> #[trigger] out@[i] == swizzled_byte(orig, i),
            forall|i: int| k * 4 <= i < orig.len() ==> #[trigger] out@[i] == orig[i],
        decreases n - k,
    {
        assert(k * 4 + 4 <= n * 4);
        assert(out@.len() == out.len());
        let base: usize = k * 4;
        let first = out[base];
        let third = out[base + 2];
        out.set(base, third);
        out.set(base + 2, first);
        k = k + 1;
    }
    assert(out@ =~= swizzled(orig));
    out
}

/// The whole buffer after the exchange.
pub open spec fn swizzled(buf: Seq<u8>) -> Seq<u8> {
    Seq::new(buf.len(), |i: int| swizzled_byte(buf, i))
}

/// Law: exchanging red and blue twice gives the buffer back, so the same
/// function turns BGRA into RGBA.
pub proof fn law_swizzle_undoes_itself(buf: Seq<u8>)
    ensures
        swizzled(swizzled(buf)) == buf,
{
    let once = swizzled(buf);
    let twice = swizzled(once);
    assert forall|i: int| 0 <= i < buf.len() implies twice[i] == buf[i] by {
        if i < (buf.len() / 4) * 4 {
            if i % 4 == 0 {
                assert(i + 2 < (buf.len() / 4) * 4) by (nonlinear_arith)
                    requires
                        0 <= i < (buf.len() / 4) * 4,
                        i % 4 == 0,
                ;
                assert((i + 2) % 4 == 2);
            } else if i % 4 == 2 {
                assert(i - 2 >= 0);
                assert((i - 2) % 4 == 0);
            }
        }
    }
    assert(twice =~= buf);
}

} // verus!
