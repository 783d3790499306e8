//! The test frame: a pixel buffer filled with a striped test pattern.
//!
//! The pattern is drawn in `rows` rows of `PATTERN_STEPS` steps each, where
//! `rows` is `(width * height - 1) / PATTERN_STEPS`. Step `s` of row `i` writes
//! the value `PATTERN_BASE + s` at pixel `i * s`; later writes overwrite
//! earlier ones.

use vstd::prelude::*;
use crate::format::{bgra_chars, PixelFormat};
use crate::fourcc::code_of_chars;

verus! {

/// Number of steps in each row of the pattern.
pub const PATTERN_STEPS: usize = 10;

/// Colour written by step 0; step `s` writes `PATTERN_BASE + s`.
pub const PATTERN_BASE: u32 = 0xff00ff;

/// Width of the test frame, in pixels.
pub const TEST_FRAME_WIDTH: u32 = 1280;

/// Height of the test frame, in pixels.
pub const TEST_FRAME_HEIGHT: u32 = 720;

/// Number of rows the pattern draws on a `width` by `height` frame.
pub open spec fn pattern_rows(width: int, height: int) -> int {
    if width * height == 0 {
        0
    } else {
        (width * height - 1) / PATTERN_STEPS as int
    }
}

/// Whether step `s` of some row among the first `rows` writes pixel `k > 0`:
/// row `k / s` does, when `s` divides `k`.
pub open spec fn step_reaches(k: int, rows: int, s: int) -> bool {
    &&& 1 <= s < PATTERN_STEPS
    &&& k % s == 0
    &&& k / s < rows
}

/// The smallest step, from `s` on, that reaches pixel `k`.
pub open spec fn first_step_from(k: int, rows: int, s: int) -> Option<int>
    decreases PATTERN_STEPS - s,
{
    if s >= PATTERN_STEPS {
        None
    } else if step_reaches(k, rows, s) {
        Some(s)
    } else {
        first_step_from(k, rows, s + 1)
    }
}

/// The step of the last write at pixel `k` when `rows` rows are drawn, if any.
///
/// Pixel 0 is written by every row: last by step 9 of row 0 when that is the
/// only row, else by step 0 of the last row. A pixel `k > 0` is written last by
/// the largest row that reaches it, that is by the smallest step that reaches it.
pub open spec fn last_step_at(k: int, rows: int) -> Option<int> {
    if rows <= 0 || k < 0 {
        None
    } else if k == 0 {
        if rows == 1 {
            Some(PATTERN_STEPS - 1)
        } else {
            Some(0)
        }
    } else {
        first_step_from(k, rows, 1)
    }
}

/// Pixel `k` after `rows` rows of the pattern were drawn over the value `old`.
pub open spec fn pattern_pixel(old: u32, k: int, rows: int) -> u32 {
    match last_step_at(k, rows) {
        Some(s) => (PATTERN_BASE + s) as u32,
        None => old,
    }
}

/// Pixel `k` after steps `0..steps` of row `row` were drawn over the value `prev`.
spec fn after_row_steps(prev: u32, k: int, row: int, steps: int) -> u32 {
    if row == 0 {
        if k == 0 && steps > 0 {
            (PATTERN_BASE + steps - 1) as u32
        } else {
            prev
        }
    } else if k >= 0 && k % row == 0 && k / row < steps {
        (PATTERN_BASE + k / row) as u32
    } else {
        prev
    }
}

proof fn lemma_first_step_from(k: int, rows: int, s: int)
    requires
        1 <= s,
    ensures
        match first_step_from(k, rows, s) {
            Some(t) => s <= t < PATTERN_STEPS && step_reaches(k, rows, t) && forall|u: int|
                s <= u < t ==> !#[trigger] step_reaches(k, rows, u),
            None => forall|u: int| s <= u < PATTERN_STEPS ==> !#[trigger] step_reaches(k, rows, u),
        },
    decreases PATTERN_STEPS - s,
{
    if s < PATTERN_STEPS && !step_reaches(k, rows, s) {
        lemma_first_step_from(k, rows, s + 1);
    }
}

proof fn lemma_first_step_same(k: int, rows1: int, rows2: int, s: int)
    requires
        1 <= s,
        forall|u: int| s <= u < PATTERN_STEPS ==> #[trigger] step_reaches(k, rows1, u) == step_reaches(
            k,
            rows2,
            u,
        ),
    ensures
        first_step_from(k, rows1, s) == first_step_from(k, rows2, s),
    decreases PATTERN_STEPS - s,
{
    if s < PATTERN_STEPS {
        lemma_first_step_same(k, rows1, rows2, s + 1);
    }
}

proof fn lemma_quotient(k: int, d: int)
    requires
        k > 0,
        d > 0,
        k % d == 0,
    ensures
        k == d * (k / d),
        k / d >= 1,
        k % (k / d) == 0,
        k / (k / d) == d,
{
    vstd::arithmetic::div_mod::lemma_fundamental_div_mod(k, d);
    let q = k / d;
    assert(q >= 1) by (nonlinear_arith)
        requires
            k == d * q,
            k > 0,
            d > 0,
    ;
    assert(k == q * d) by (nonlinear_arith)
        requires
            k == d * q,
    ;
    vstd::arithmetic::div_mod::lemma_mod_multiples_basic(d, q);
    vstd::arithmetic::div_mod::lemma_div_multiples_vanish(d, q);
}

/// Drawing row `i` whole takes every pixel from `i` drawn rows to `i + 1`.
proof fn lemma_row_step(old: u32, k: int, i: int)
    requires
        0 <= k,
        0 <= i,
    ensures
        after_row_steps(pattern_pixel(old, k, i), k, i, PATTERN_STEPS as int) == pattern_pixel(
            old,
            k,
            i + 1,
        ),
{
    if k == 0 {
        if i > 0 {
            assert(0int % i == 0 && 0int / i == 0) by (nonlinear_arith)
                requires
                    i > 0,
            ;
        }
    } else if i == 0 {
        lemma_first_step_from(k, 1, 1);
        assert forall|u: int| 1 <= u < PATTERN_STEPS implies !#[trigger] step_reaches(k, 1, u) by {
            if step_reaches(k, 1, u) {
                lemma_quotient(k, u);
            }
        }
    } else if k % i == 0 && k / i < PATTERN_STEPS {
        lemma_quotient(k, i);
        let q = k / i;
        assert(step_reaches(k, i + 1, q));
        lemma_first_step_from(k, i + 1, 1);
        assert forall|u: int| 1 <= u < q implies !#[trigger] step_reaches(k, i + 1, u) by {
            if step_reaches(k, i + 1, u) {
                lemma_quotient(k, u);
                let r = k / u;
                assert(false) by (nonlinear_arith)
                    requires
                        k == u * r,
                        k == i * q,
                        r < i + 1,
                        1 <= u < q,
                        i > 0,
                ;
            }
        }
    } else {
        assert forall|u: int| 1 <= u < PATTERN_STEPS implies #[trigger] step_reaches(k, i, u)
            == step_reaches(k, i + 1, u) by {
            if step_reaches(k, i + 1, u) && !step_reaches(k, i, u) {
                lemma_quotient(k, u);
                assert(k / u == i);
                lemma_quotient(k, i);
                vstd::arithmetic::div_mod::lemma_fundamental_div_mod(k, u);
                assert(k == i * u) by (nonlinear_arith)
                    requires
                        k == u * i,
                ;
                vstd::arithmetic::div_mod::lemma_mod_multiples_basic(u, i);
                vstd::arithmetic::div_mod::lemma_div_multiples_vanish(u, i);
            }
        }
        lemma_first_step_same(k, i, i + 1, 1);
    }
}

/// Writing step `s` of row `i` takes pixel `k` from steps `0..s` to steps `0..s + 1`.
proof fn lemma_step_write(prev: u32, k: int, i: int, s: int)
    requires
        0 <= k,
        0 <= i,
        0 <= s < PATTERN_STEPS,
    ensures
        k == i * s ==> after_row_steps(prev, k, i, s + 1) == (PATTERN_BASE + s) as u32,
        k != i * s ==> after_row_steps(prev, k, i, s + 1) == after_row_steps(prev, k, i, s),
{
    if i > 0 {
        if k == i * s {
            assert(k == s * i) by (nonlinear_arith)
                requires
                    k == i * s,
            ;
            vstd::arithmetic::div_mod::lemma_mod_multiples_basic(s, i);
            vstd::arithmetic::div_mod::lemma_div_multiples_vanish(s, i);
        } else if k % i == 0 && k / i == s {
            vstd::arithmetic::div_mod::lemma_fundamental_div_mod(k, i);
            assert(false) by (nonlinear_arith)
                requires
                    k == i * (k / i) + k % i,
                    k % i == 0,
                    k / i == s,
                    k != i * s,
            ;
        }
    } else {
        assert(i * s == 0);
    }
}

/// Whether step `s` of row `i`, among `rows` rows, writes pixel `k`: the
/// pattern's loop writes pixel `i * s` for every row `i < rows` and step `s < 10`.
spec fn writes_pixel(k: int, i: int, s: int, rows: int) -> bool {
    &&& 0 <= i < rows
    &&& 0 <= s < PATTERN_STEPS
    &&& k == i * s
}

/// Whether drawing the pattern over a `width` by `height` frame writes pixel
/// `k` at step `s` of row `i`: the rows drawn are those `i` with
/// `i < (width * height - 1) / 10` (none on an empty frame), that is those whose
/// ten steps end before the frame's last pixel, and step `s < 10` of row `i`
/// writes pixel `i * s`.
pub open spec fn frame_writes_pixel(k: int, i: int, s: int, width: int, height: int) -> bool {
    &&& 0 <= i
    &&& (i + 1) * 10 < width * height
    &&& 0 <= s < 10
    &&& k == i * s
}

/// What drawing the pattern over a `width` by `height` frame leaves at pixel
/// `k`, which held `old`: the pixel keeps `old` when no step of any drawn row
/// writes it, and otherwise holds `PATTERN_BASE + s` for the write `(i, s)` that
/// comes last in the order the rows and their steps are drawn.
pub proof fn lemma_pattern_pixel_is_last_write(old: u32, k: int, width: int, height: int)
    requires
        0 <= k,
        0 <= width,
        0 <= height,
    ensures
        ({
            let p = pattern_pixel(old, k, pattern_rows(width, height));
            &&& (forall|i: int, s: int| !#[trigger] frame_writes_pixel(k, i, s, width, height))
                ==> p == old
            &&& (exists|i: int, s: int| #[trigger] frame_writes_pixel(k, i, s, width, height))
                ==> exists|i: int, s: int|
                #[trigger] frame_writes_pixel(k, i, s, width, height) && p == PATTERN_BASE + s
                    && forall|i2: int, s2: int| #[trigger]
                    frame_writes_pixel(k, i2, s2, width, height) ==> i2 < i || (i2 == i && s2
                        <= s)
        }),
{
    let area = width * height;
    assert(area >= 0) by (nonlinear_arith)
        requires
            0 <= width,
            0 <= height,
            area == width * height,
    ;
    let rows = pattern_rows(width, height);
    assert(rows >= 0);
    assert forall|i: int, s: int| #[trigger]
        frame_writes_pixel(k, i, s, width, height) == writes_pixel(k, i, s, rows) by {
        lemma_row_drawn(i, area);
    }
    lemma_last_step_is_last_write(old, k, rows);
    let p = pattern_pixel(old, k, rows);
    if exists|i: int, s: int| #[trigger] frame_writes_pixel(k, i, s, width, height) {
        let (i0, s0) = choose|i: int, s: int| #[trigger] frame_writes_pixel(k, i, s, width, height);
        assert(writes_pixel(k, i0, s0, rows));
        let (i, s) = choose|i: int, s: int|
            #[trigger] writes_pixel(k, i, s, rows) && p == PATTERN_BASE + s && forall|
                i2: int,
                s2: int,
            | #[trigger] writes_pixel(k, i2, s2, rows) ==> i2 < i || (i2 == i && s2 <= s);
        assert(frame_writes_pixel(k, i, s, width, height));
        assert forall|i2: int, s2: int| #[trigger]
            frame_writes_pixel(k, i2, s2, width, height) implies i2 < i || (i2 == i && s2 <= s) by {
            assert(writes_pixel(k, i2, s2, rows));
        }
    } else {
        assert forall|i: int, s: int| !#[trigger] writes_pixel(k, i, s, rows) by {
            if writes_pixel(k, i, s, rows) {
                assert(frame_writes_pixel(k, i, s, width, height));
            }
        }
    }
}

/// Row `i` is among the `(area - 1) / 10` rows drawn exactly when its ten steps
/// end before the last pixel.
proof fn lemma_row_drawn(i: int, area: int)
    requires
        0 <= area,
    ensures
        (0 <= i && (i + 1) * 10 < area) == (0 <= i < (if area == 0 {
            0int
        } else {
            (area - 1) / PATTERN_STEPS as int
        })),
{
    if area > 0 {
        let r = (area - 1) / 10;
        vstd::arithmetic::div_mod::lemma_fundamental_div_mod(area - 1, 10);
        assert(0 <= (area - 1) % 10 < 10);
    }
}

/// `last_step_at` names the step of the write that comes last in drawing order.
proof fn lemma_last_step_is_last_write(old: u32, k: int, rows: int)
    requires
        0 <= k,
        0 <= rows,
    ensures
        (forall|i: int, s: int| !#[trigger] writes_pixel(k, i, s, rows)) ==> pattern_pixel(
            old,
            k,
            rows,
        ) == old,
        (exists|i: int, s: int| #[trigger] writes_pixel(k, i, s, rows)) ==> exists|i: int, s: int|
            #[trigger] writes_pixel(k, i, s, rows) && pattern_pixel(old, k, rows) == PATTERN_BASE
                + s && forall|i2: int, s2: int| #[trigger]
                writes_pixel(k, i2, s2, rows) ==> i2 < i || (i2 == i && s2 <= s),
{
    if rows == 0 {
        assert forall|i: int, s: int| !#[trigger] writes_pixel(k, i, s, rows) by {}
    } else if k == 0 {
        let (wi, ws) = if rows == 1 {
            (0int, 9int)
        } else {
            (rows - 1, 0int)
        };
        assert(writes_pixel(k, wi, ws, rows));
        assert forall|i2: int, s2: int| #[trigger]
            writes_pixel(k, i2, s2, rows) implies i2 < wi || (i2 == wi && s2 <= ws) by {
            if rows > 1 && i2 == wi {
                assert(s2 == 0) by (nonlinear_arith)
                    requires
                        i2 * s2 == 0,
                        i2 >= 1,
                ;
            }
        }
    } else {
        lemma_first_step_from(k, rows, 1);
        match first_step_from(k, rows, 1) {
            Some(t) => {
                lemma_quotient(k, t);
                let wi = k / t;
                assert(k == wi * t) by (nonlinear_arith)
                    requires
                        k == t * wi,
                ;
                assert(writes_pixel(k, wi, t, rows));
                assert forall|i2: int, s2: int| #[trigger]
                    writes_pixel(k, i2, s2, rows) implies i2 < wi || (i2 == wi && s2 <= t) by {
                    assert(s2 >= 1 && i2 >= 1) by (nonlinear_arith)
                        requires
                            k == i2 * s2,
                            k > 0,
                            i2 >= 0,
                            s2 >= 0,
                    ;
                    vstd::arithmetic::div_mod::lemma_mod_multiples_basic(i2, s2);
                    vstd::arithmetic::div_mod::lemma_div_multiples_vanish(i2, s2);
                    assert(k == s2 * i2) by (nonlinear_arith)
                        requires
                            k == i2 * s2,
                    ;
                    assert(step_reaches(k, rows, s2));
                    if s2 < t {
                        assert(!step_reaches(k, rows, s2));
                    }
                    assert(i2 < wi || (i2 == wi && s2 <= t)) by (nonlinear_arith)
                        requires
                            i2 * s2 == wi * t,
                            s2 >= t,
                            t >= 1,
                            i2 >= 1,
                    ;
                }
            },
            None => {
                assert forall|i: int, s: int| !#[trigger] writes_pixel(k, i, s, rows) by {
                    if writes_pixel(k, i, s, rows) {
                        assert(s >= 1 && i >= 1) by (nonlinear_arith)
                            requires
                                k == i * s,
                                k > 0,
                                i >= 0,
                                s >= 0,
                        ;
                        assert(k == s * i) by (nonlinear_arith)
                            requires
                                k == i * s,
                        ;
                        vstd::arithmetic::div_mod::lemma_mod_multiples_basic(i, s);
                        vstd::arithmetic::div_mod::lemma_div_multiples_vanish(i, s);
                        assert(step_reaches(k, rows, s));
                    }
                }
            },
        }
    }
}

/// Draws the test pattern for a `width` by `height` frame into `pixels`.
///
/// Every pixel takes the value of the last write the pattern makes at it, and
/// keeps its value where the pattern makes none.
pub fn draw_test_pattern(pixels: &mut Vec<u32>, width: usize, height: usize)
    requires
        width * height <= old(pixels).len(),
    ensures
        final(pixels)@.len() == old(pixels)@.len(),
        forall|k: int|
            0 <= k < old(pixels)@.len() ==> #[trigger] final(pixels)@[k] == pattern_pixel(
                old(pixels)@[k],
                k,
                pattern_rows(width as int, height as int),
            ),
        forall|k: int|
            #![trigger final(pixels)@[k]]
            0 <= k < old(pixels)@.len() ==> {
                &&& (forall|i: int, s: int|
                    !#[trigger] frame_writes_pixel(k, i, s, width as int, height as int))
                    ==> final(pixels)@[k] == old(pixels)@[k]
                &&& (exists|i: int, s: int|
                    #[trigger] frame_writes_pixel(k, i, s, width as int, height as int))
                    ==> exists|i: int, s: int|
                    #[trigger] frame_writes_pixel(k, i, s, width as int, height as int)
                        && final(pixels)@[k] == PATTERN_BASE + s && forall|i2: int, s2: int|
                        #[trigger] frame_writes_pixel(k, i2, s2, width as int, height as int)
                            ==> i2 < i || (i2 == i && s2 <= s)
            },
{
    let ghost orig = pixels@;
    let area: usize = width * height;
    let rows: usize = if area == 0 {
        0
    } else {
        (area - 1) / PATTERN_STEPS
    };
    assert(rows * PATTERN_STEPS < area || rows == 0);
    let mut i: usize = 0;
    while i < rows
        invariant
            i <= rows,
            rows == pattern_rows(width as int, height as int),
            rows == 0 || rows * PATTERN_STEPS < area,
            area <= pixels@.len(),
            pixels@.len() == orig.len(),
            forall|k: int|
                0 <= k < orig.len() ==> #[trigger] pixels@[k] == pattern_pixel(orig[k], k, i as int),
        decreases rows - i,
    {
        let ghost row_start = pixels@;
        let mut s: usize = 0;
        while s < PATTERN_STEPS
            invariant
                i < rows,
                s <= PATTERN_STEPS,
                rows * PATTERN_STEPS < area,
                area <= pixels@.len(),
                pixels@.len() == orig.len(),
                row_start.len() == orig.len(),
                forall|k: int|
                    0 <= k < orig.len() ==> #[trigger] row_start[k] == pattern_pixel(
                        orig[k],
                        k,
                        i as int,
                    ),
                forall|k: int|
                    0 <= k < orig.len() ==> #[trigger] pixels@[k] == after_row_steps(
                        row_start[k],
                        k,
                        i as int,
                        s as int,
                    ),
            decreases PATTERN_STEPS - s,
        {
            assert(i * s < area) by (nonlinear_arith)
                requires
                    i < rows,
                    s < PATTERN_STEPS,
                    rows * PATTERN_STEPS < area,
            ;
            let offset: usize = i * s;
            let value: u32 = s as u32 + PATTERN_BASE;
            let ghost before = pixels@;
            pixels.set(offset, value);
            assert forall|k: int| 0 <= k < orig.len() implies #[trigger] pixels@[k]
                == after_row_steps(row_start[k], k, i as int, s as int + 1) by {
                lemma_step_write(row_start[k], k, i as int, s as int);
                if k != offset {
                    assert(pixels@[k] == before[k]);
                }
            }
            s = s + 1;
        }
        assert forall|k: int| 0 <= k < orig.len() implies #[trigger] pixels@[k] == pattern_pixel(
            orig[k],
            k,
            i as int + 1,
        ) by {
            lemma_row_step(orig[k], k, i as int);
        }
        i = i + 1;
    }
    proof {
        assert forall|k: int| 0 <= k < orig.len() implies {
            &&& (forall|i: int, s: int|
                !#[trigger] frame_writes_pixel(k, i, s, width as int, height as int))
                ==> pixels@[k] == orig[k]
            &&& (exists|i: int, s: int|
                #[trigger] frame_writes_pixel(k, i, s, width as int, height as int))
                ==> exists|i: int, s: int|
                #[trigger] frame_writes_pixel(k, i, s, width as int, height as int)
                    && pixels@[k] == PATTERN_BASE + s && forall|i2: int, s2: int|
                    #[trigger] frame_writes_pixel(k, i2, s2, width as int, height as int)
                        ==> i2 < i || (i2 == i && s2 <= s)
        } by {
            lemma_pattern_pixel_is_last_write(orig[k], k, width as int, height as int);
        }
    }
}

/// The frame the test pattern is drawn into.
pub struct TestFrame {
    pub width: u32,
    pub height: u32,
    /// Core Video code of the frame's pixel format.
    pub pixel_format: u32,
}

/// The test frame: 1280 by 720 pixels in the `BGRA` pixel format.
pub fn test_frame() -> (frame: TestFrame)
    ensures
        frame.width == TEST_FRAME_WIDTH,
        frame.height == TEST_FRAME_HEIGHT,
        frame.pixel_format == code_of_chars(bgra_chars()),
{
    TestFrame {
        width: TEST_FRAME_WIDTH,
        height: TEST_FRAME_HEIGHT,
        pixel_format: PixelFormat::ARGB8888.four_char_code(),
    }
}

/// Drawing the pattern a second time changes nothing: every pixel the pattern
/// writes takes the same value again, and the others are left as they are.
pub proof fn lemma_pattern_idempotent(old: u32, k: int, rows: int)
    ensures
        pattern_pixel(pattern_pixel(old, k, rows), k, rows) == pattern_pixel(old, k, rows),
{
}

/// The pattern writes only inside the first `rows * PATTERN_STEPS` pixels.
pub proof fn lemma_pattern_bounded(old: u32, k: int, rows: int)
    requires
        k >= rows * PATTERN_STEPS,
    ensures
        pattern_pixel(old, k, rows) == old,
{
    if rows > 0 && k > 0 {
        lemma_first_step_from(k, rows, 1);
        assert forall|u: int| 1 <= u < PATTERN_STEPS implies !#[trigger] step_reaches(k, rows, u) by {
            if step_reaches(k, rows, u) {
                lemma_quotient(k, u);
                let q = k / u;
                assert(u * q <= 9 * q) by (nonlinear_arith)
                    requires
                        u < PATTERN_STEPS,
                        q >= 1,
                ;
            }
        }
    }
}

} // verus!
