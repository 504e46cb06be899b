//! Pixel arithmetic for the recording overlay.
//!
//! The overlay surface is a BGRA byte buffer of `w * h * 4` bytes. The
//! primitives here are pure arithmetic: alpha blending one pixel,
//! membership in a rounded rectangle, and filling rounded shapes. The
//! window system and the frame loop stay with the caller.

use vstd::prelude::*;

verus! {

/// One blended colour channel: source `c` over destination `d` at alpha
/// `a`, in premultiplied 8-bit arithmetic.
pub open spec fn blend_byte(c: int, d: int, a: int) -> int {
    (a * c + (255 - a) * d) / 255
}

/// The byte offset of the pixel at column `px`, row `py`.
pub open spec fn cell_idx(pw: int, px: int, py: int) -> int {
    4 * (py * pw + px)
}

/// The four bytes of one pixel are the same in both buffers.
pub open spec fn cell_unchanged(o: Seq<u8>, f: Seq<u8>, pw: int, px: int, py: int) -> bool {
    forall|d: int|
        0 <= d < 4 ==> #[trigger] f[cell_idx(pw, px, py) + d] == o[cell_idx(pw, px, py) + d]
}

/// The four bytes of one pixel hold the source colour blended over what
/// the buffer held, in BGRA order.
pub open spec fn cell_blended(
    o: Seq<u8>,
    f: Seq<u8>,
    pw: int,
    px: int,
    py: int,
    r: int,
    g: int,
    b: int,
    a: int,
) -> bool {
    let i = cell_idx(pw, px, py);
    &&& f[i] == blend_byte(b, o[i] as int, a)
    &&& f[i + 1] == blend_byte(g, o[i + 1] as int, a)
    &&& f[i + 2] == blend_byte(r, o[i + 2] as int, a)
    &&& f[i + 3] == blend_byte(255, o[i + 3] as int, a)
}

/// Distinct in-surface pixels occupy distinct cells.
proof fn lemma_cell_distinct(pw: int, x1: int, y1: int, x2: int, y2: int)
    requires
        0 <= x1 < pw,
        0 <= x2 < pw,
        0 <= y1,
        0 <= y2,
        x1 != x2 || y1 != y2,
    ensures
        y1 * pw + x1 != y2 * pw + x2,
{
    if y1 == y2 {
    } else {
        assert(y1 * pw + x1 != y2 * pw + x2) by (nonlinear_arith)
            requires
                0 <= x1 < pw,
                0 <= x2 < pw,
                y1 != y2;
    }
}

/// An in-surface pixel's four bytes lie inside the buffer.
proof fn lemma_cell_in_range(pw: int, ph: int, px: int, py: int)
    requires
        0 <= px < pw,
        0 <= py < ph,
    ensures
        0 <= cell_idx(pw, px, py),
        cell_idx(pw, px, py) + 4 <= pw * ph * 4,
{
    assert(0 <= py * pw + px && (py * pw + px) + 1 <= pw * ph) by (nonlinear_arith)
        requires
            0 <= px < pw,
            0 <= py < ph;
}

/// Blend one source pixel over the surface at `(x, y)`. Writes nothing
/// when the position lies outside the surface or the alpha is zero;
/// otherwise exactly the four bytes of that pixel change, each to the
/// blend of the source channel over what it held.
pub fn set_pixel_blend(
    pixels: &mut Vec<u8>,
    w: u32,
    h: u32,
    x: u32,
    y: u32,
    r: u8,
    g: u8,
    b: u8,
    a: u8,
)
    requires
        old(pixels)@.len() == (w as int) * (h as int) * 4,
    ensures
        final(pixels)@.len() == old(pixels)@.len(),
        x >= w || y >= h || a == 0 ==> final(pixels)@ == old(pixels)@,
        x < w && y < h && a > 0 ==> {
            &&& forall|px: int, py: int|
                0 <= px < w && 0 <= py < h && !(px == x && py == y) ==> cell_unchanged(
                    old(pixels)@,
                    final(pixels)@,
                    w as int,
                    px,
                    py,
                )
            &&& cell_blended(
                old(pixels)@,
                final(pixels)@,
                w as int,
                x as int,
                y as int,
                r as int,
                g as int,
                b as int,
                a as int,
            )
        },
{
    if x >= w || y >= h || a == 0 {
        return ;
    }
    proof {
        lemma_cell_in_range(w as int, h as int, x as int, y as int);
    }
    let _buf_len = pixels.len();
    let idx: usize = ((y as usize) * (w as usize) + (x as usize)) * 4;
    let ghost pre = pixels@;
    if a == 255 {
        pixels[idx] = b;
        pixels[idx + 1] = g;
        pixels[idx + 2] = r;
        pixels[idx + 3] = 255;
        proof {
            lemma_unmentioned_cells_unchanged(
                pre,
                pixels@,
                w as int,
                h as int,
                x as int,
                y as int,
            );
        }
        return ;
    }
    let sa: u32 = a as u32;
    let inv: u32 = 255 - sa;
    proof {
        assert(sa * (b as u32) + inv * (pixels@[idx as int] as u32) <= 65025) by (nonlinear_arith)
            requires
                sa <= 255,
                inv == 255 - sa,
                b <= 255,
                pixels@[idx as int] <= 255;
        assert(sa * (g as u32) + inv * (pixels@[idx as int + 1] as u32) <= 65025)
            by (nonlinear_arith)
            requires
                sa <= 255,
                inv == 255 - sa,
                g <= 255,
                pixels@[idx as int + 1] <= 255;
        assert(sa * (r as u32) + inv * (pixels@[idx as int + 2] as u32) <= 65025)
            by (nonlinear_arith)
            requires
                sa <= 255,
                inv == 255 - sa,
                r <= 255,
                pixels@[idx as int + 2] <= 255;
        assert(sa * 255 + inv * (pixels@[idx as int + 3] as u32) <= 65025) by (nonlinear_arith)
            requires
                sa <= 255,
                inv == 255 - sa,
                pixels@[idx as int + 3] <= 255;
    }
    let p0 = pixels[idx] as u32;
    let p1 = pixels[idx + 1] as u32;
    let p2 = pixels[idx + 2] as u32;
    let p3 = pixels[idx + 3] as u32;
    pixels[idx] = ((sa * (b as u32) + inv * p0) / 255) as u8;
    pixels[idx + 1] = ((sa * (g as u32) + inv * p1) / 255) as u8;
    pixels[idx + 2] = ((sa * (r as u32) + inv * p2) / 255) as u8;
    pixels[idx + 3] = ((sa * 255 + inv * p3) / 255) as u8;
    proof {
        lemma_unmentioned_cells_unchanged(pre, pixels@, w as int, h as int, x as int, y as int);
    }
}

/// A write confined to one pixel's four bytes leaves every other
/// in-surface pixel unchanged.
proof fn lemma_unmentioned_cells_unchanged(
    o: Seq<u8>,
    f: Seq<u8>,
    pw: int,
    ph: int,
    x: int,
    y: int,
)
    requires
        0 <= x < pw,
        0 <= y < ph,
        o.len() == pw * ph * 4,
        f.len() == o.len(),
        forall|k: int|
            0 <= k < o.len() && !(cell_idx(pw, x, y) <= k < cell_idx(pw, x, y) + 4)
                ==> f[k] == o[k],
    ensures
        forall|px: int, py: int|
            0 <= px < pw && 0 <= py < ph && !(px == x && py == y) ==> cell_unchanged(
                o,
                f,
                pw,
                px,
                py,
            ),
{
    assert forall|px: int, py: int|
        0 <= px < pw && 0 <= py < ph && !(px == x && py == y) implies cell_unchanged(
        o,
        f,
        pw,
        px,
        py,
    ) by {
        lemma_cell_distinct(pw, px, py, x, y);
        lemma_cell_in_range(pw, ph, px, py);
        assert forall|d: int| 0 <= d < 4 implies #[trigger] f[cell_idx(pw, px, py) + d]
            == o[cell_idx(pw, px, py) + d] by {
            assert(py * pw + px != y * pw + x);
        }
    }
}

/// Squares of 32-bit quantities fit comfortably in 128 bits.
proof fn lemma_sq_sum_fits(dx: u128, dy: u128, rr: u128)
    requires
        dx < 0x100000000,
        dy < 0x100000000,
        rr < 0x100000000,
    ensures
        dx * dx + dy * dy < 0x20000000000000000,
        rr * rr < 0x10000000000000000,
{
    assert(dx * dx < 0x10000000000000000 && dy * dy < 0x10000000000000000 && rr * rr
        < 0x10000000000000000) by (nonlinear_arith)
        requires
            dx < 0x100000000,
            dy < 0x100000000,
            rr < 0x100000000;
}

/// Membership in a rounded rectangle of size `w` by `h` with corner
/// radius `r`: inside the plain rectangle, and inside the quarter circle
/// at each corner.
pub open spec fn in_rounded_rect(x: int, y: int, w: int, h: int, r: int) -> bool {
    if r == 0 || w == 0 || h == 0 {
        0 <= x < w && 0 <= y < h
    } else if x < r && y < r {
        (r - 1 - x) * (r - 1 - x) + (r - 1 - y) * (r - 1 - y) <= (r - 1) * (r - 1)
    } else if x >= w - r && y < r {
        (x - (w - r)) * (x - (w - r)) + (r - 1 - y) * (r - 1 - y) <= (r - 1) * (r - 1)
    } else if x < r && y >= h - r {
        (r - 1 - x) * (r - 1 - x) + (y - (h - r)) * (y - (h - r)) <= (r - 1) * (r - 1)
    } else if x >= w - r && y >= h - r {
        (x - (w - r)) * (x - (w - r)) + (y - (h - r)) * (y - (h - r)) <= (r - 1) * (r - 1)
    } else {
        true
    }
}

/// Decide membership in the rounded rectangle.
pub fn is_inside_rounded_rect(x: u32, y: u32, w: u32, h: u32, r: u32) -> (res: bool)
    requires
        x < w,
        y < h,
        r <= w,
        r <= h,
    ensures
        res == in_rounded_rect(x as int, y as int, w as int, h as int, r as int),
{
    if r == 0 || w == 0 || h == 0 {
        return x < w && y < h;
    }
    let in_left = x < r;
    let in_right = x >= w - r;
    let in_top = y < r;
    let in_bottom = y >= h - r;
    if in_left && in_top {
        let dx = (r - 1 - x) as u128;
        let dy = (r - 1 - y) as u128;
        let rr = (r - 1) as u128;
        proof {
            lemma_sq_sum_fits(dx, dy, rr);
        }
        return dx * dx + dy * dy <= rr * rr;
    }
    if in_right && in_top {
        let dx = (x - (w - r)) as u128;
        let dy = (r - 1 - y) as u128;
        let rr = (r - 1) as u128;
        proof {
            lemma_sq_sum_fits(dx, dy, rr);
        }
        return dx * dx + dy * dy <= rr * rr;
    }
    if in_left && in_bottom {
        let dx = (r - 1 - x) as u128;
        let dy = (y - (h - r)) as u128;
        let rr = (r - 1) as u128;
        proof {
            lemma_sq_sum_fits(dx, dy, rr);
        }
        return dx * dx + dy * dy <= rr * rr;
    }
    if in_right && in_bottom {
        let dx = (x - (w - r)) as u128;
        let dy = (y - (h - r)) as u128;
        let rr = (r - 1) as u128;
        proof {
            lemma_sq_sum_fits(dx, dy, rr);
        }
        return dx * dx + dy * dy <= rr * rr;
    }
    true
}

/// Which pixels a rounded-rectangle fill touches: those inside the shape,
/// when the fill has any opacity.
pub open spec fn rect_covers(
    px: int,
    py: int,
    x0: int,
    y0: int,
    w: int,
    h: int,
    radius: int,
    a: int,
) -> bool {
    &&& x0 <= px < x0 + w
    &&& y0 <= py < y0 + h
    &&& in_rounded_rect(px - x0, py - y0, w, h, radius)
    &&& a != 0
}

/// Fill a rounded rectangle at `(x0, y0)` of size `w` by `h` onto the
/// `pw` by `ph` surface: every in-surface pixel inside the shape is
/// blended, every other pixel is untouched.
pub fn draw_rounded_rect(
    pixels: &mut Vec<u8>,
    pw: u32,
    ph: u32,
    x0: u32,
    y0: u32,
    w: u32,
    h: u32,
    radius: u32,
    r: u8,
    g: u8,
    b: u8,
    a: u8,
)
    requires
        old(pixels)@.len() == (pw as int) * (ph as int) * 4,
        x0 as int + w as int <= u32::MAX as int,
        y0 as int + h as int <= u32::MAX as int,
        radius <= w,
        radius <= h,
    ensures
        final(pixels)@.len() == old(pixels)@.len(),
        forall|px: int, py: int|
            0 <= px < pw && 0 <= py < ph && rect_covers(
                px,
                py,
                x0 as int,
                y0 as int,
                w as int,
                h as int,
                radius as int,
                a as int,
            ) ==> cell_blended(
                old(pixels)@,
                final(pixels)@,
                pw as int,
                px,
                py,
                r as int,
                g as int,
                b as int,
                a as int,
            ),
        forall|px: int, py: int|
            0 <= px < pw && 0 <= py < ph && !rect_covers(
                px,
                py,
                x0 as int,
                y0 as int,
                w as int,
                h as int,
                radius as int,
                a as int,
            ) ==> cell_unchanged(old(pixels)@, final(pixels)@, pw as int, px, py),
{
    let yend = y0 + h;
    let xend = x0 + w;
    let mut y = y0;
    while y < yend
        invariant
            old(pixels)@.len() == (pw as int) * (ph as int) * 4,
            pixels@.len() == old(pixels)@.len(),
            y0 <= y <= yend,
            yend == y0 + h,
            xend == x0 + w,
            x0 as int + w as int <= u32::MAX as int,
            y0 as int + h as int <= u32::MAX as int,
            radius <= w,
            radius <= h,
            forall|px: int, py: int|
                0 <= px < pw && 0 <= py < ph && rect_covers(
                    px,
                    py,
                    x0 as int,
                    y0 as int,
                    w as int,
                    h as int,
                    radius as int,
                    a as int,
                ) && py < y ==> cell_blended(
                    old(pixels)@,
                    pixels@,
                    pw as int,
                    px,
                    py,
                    r as int,
                    g as int,
                    b as int,
                    a as int,
                ),
            forall|px: int, py: int|
                0 <= px < pw && 0 <= py < ph && !(rect_covers(
                    px,
                    py,
                    x0 as int,
                    y0 as int,
                    w as int,
                    h as int,
                    radius as int,
                    a as int,
                ) && py < y) ==> cell_unchanged(old(pixels)@, pixels@, pw as int, px, py),
        decreases yend - y,
    {
        let mut x = x0;
        while x < xend
            invariant
                old(pixels)@.len() == (pw as int) * (ph as int) * 4,
                pixels@.len() == old(pixels)@.len(),
                y0 <= y < yend,
                x0 <= x <= xend,
                yend == y0 + h,
                xend == x0 + w,
                x0 as int + w as int <= u32::MAX as int,
                y0 as int + h as int <= u32::MAX as int,
                radius <= w,
                radius <= h,
                forall|px: int, py: int|
                    0 <= px < pw && 0 <= py < ph && rect_covers(
                        px,
                        py,
                        x0 as int,
                        y0 as int,
                        w as int,
                        h as int,
                        radius as int,
                        a as int,
                    ) && (py < y || (py == y && px < x)) ==> cell_blended(
                        old(pixels)@,
                        pixels@,
                        pw as int,
                        px,
                        py,
                        r as int,
                        g as int,
                        b as int,
                        a as int,
                    ),
                forall|px: int, py: int|
                    0 <= px < pw && 0 <= py < ph && !(rect_covers(
                        px,
                        py,
                        x0 as int,
                        y0 as int,
                        w as int,
                        h as int,
                        radius as int,
                        a as int,
                    ) && (py < y || (py == y && px < x))) ==> cell_unchanged(
                        old(pixels)@,
                        pixels@,
                        pw as int,
                        px,
                        py,
                    ),
            decreases xend - x,
        {
            let ghost mid = pixels@;
            if is_inside_rounded_rect(x - x0, y - y0, w, h, radius) {
                set_pixel_blend(pixels, pw, ph, x, y, r, g, b, a);
            }
            proof {
                lemma_draw_step(
                    old(pixels)@,
                    mid,
                    pixels@,
                    pw as int,
                    ph as int,
                    x as int,
                    y as int,
                    in_rounded_rect(x - x0, y - y0, w as int, h as int, radius as int),
                    r as int,
                    g as int,
                    b as int,
                    a as int,
                );
                assert forall|px: int, py: int|
                    0 <= px < pw && 0 <= py < ph && rect_covers(
                        px,
                        py,
                        x0 as int,
                        y0 as int,
                        w as int,
                        h as int,
                        radius as int,
                        a as int,
                    ) && (py < y || (py == y && px < x + 1)) implies cell_blended(
                    old(pixels)@,
                    pixels@,
                    pw as int,
                    px,
                    py,
                    r as int,
                    g as int,
                    b as int,
                    a as int,
                ) by {
                    if px == x as int && py == y as int {
                        assert(cell_unchanged(old(pixels)@, mid, pw as int, px, py));
                    } else {
                        assert(cell_blended(
                            old(pixels)@,
                            mid,
                            pw as int,
                            px,
                            py,
                            r as int,
                            g as int,
                            b as int,
                            a as int,
                        ));
                    }
                }
                assert forall|px: int, py: int|
                    0 <= px < pw && 0 <= py < ph && !(rect_covers(
                        px,
                        py,
                        x0 as int,
                        y0 as int,
                        w as int,
                        h as int,
                        radius as int,
                        a as int,
                    ) && (py < y || (py == y && px < x + 1))) implies cell_unchanged(
                    old(pixels)@,
                    pixels@,
                    pw as int,
                    px,
                    py,
                ) by {
                    assert(cell_unchanged(old(pixels)@, mid, pw as int, px, py));
                }
            }
            x = x + 1;
        }
        y = y + 1;
    }
}

/// One fill step: the buffer went from `mid` to `f` by blending (or
/// skipping) the single pixel `(x, y)`; every other pixel kept its `mid`
/// bytes, so per-pixel facts about `mid` relative to the original buffer
/// `o` carry over.
proof fn lemma_draw_step(
    o: Seq<u8>,
    mid: Seq<u8>,
    f: Seq<u8>,
    pw: int,
    ph: int,
    x: int,
    y: int,
    wrote: bool,
    r: int,
    g: int,
    b: int,
    a: int,
)
    requires
        o.len() == pw * ph * 4,
        mid.len() == o.len(),
        f.len() == o.len(),
        !(wrote && a != 0 && x < pw && y < ph && 0 <= x && 0 <= y) ==> f == mid,
        wrote && a != 0 && 0 <= x < pw && 0 <= y < ph ==> {
            &&& forall|px: int, py: int|
                0 <= px < pw && 0 <= py < ph && !(px == x && py == y) ==> cell_unchanged(
                    mid,
                    f,
                    pw,
                    px,
                    py,
                )
            &&& cell_blended(mid, f, pw, x, y, r, g, b, a)
        },
    ensures
        forall|px: int, py: int|
            0 <= px < pw && 0 <= py < ph && !(px == x && py == y) && cell_unchanged(
                o,
                mid,
                pw,
                px,
                py,
            ) ==> cell_unchanged(o, f, pw, px, py),
        forall|px: int, py: int|
            0 <= px < pw && 0 <= py < ph && !(px == x && py == y) && cell_blended(
                o,
                mid,
                pw,
                px,
                py,
                r,
                g,
                b,
                a,
            ) ==> cell_blended(o, f, pw, px, py, r, g, b, a),
        wrote && a != 0 && 0 <= x < pw && 0 <= y < ph && cell_unchanged(o, mid, pw, x, y)
            ==> cell_blended(o, f, pw, x, y, r, g, b, a),
        !(wrote && a != 0) && 0 <= x < pw && 0 <= y < ph && cell_unchanged(o, mid, pw, x, y)
            ==> cell_unchanged(o, f, pw, x, y),
{
    if wrote && a != 0 && 0 <= x < pw && 0 <= y < ph {
        assert forall|px: int, py: int|
            0 <= px < pw && 0 <= py < ph && !(px == x && py == y) && cell_unchanged(
                o,
                mid,
                pw,
                px,
                py,
            ) implies cell_unchanged(o, f, pw, px, py) by {
            assert(cell_unchanged(mid, f, pw, px, py));
        }
        assert forall|px: int, py: int|
            0 <= px < pw && 0 <= py < ph && !(px == x && py == y) && cell_blended(
                o,
                mid,
                pw,
                px,
                py,
                r,
                g,
                b,
                a,
            ) implies cell_blended(o, f, pw, px, py, r, g, b, a) by {
            assert(cell_unchanged(mid, f, pw, px, py));
            let i = cell_idx(pw, px, py);
            assert(f[i + 0] == mid[i + 0]);
            assert(f[i + 1] == mid[i + 1]);
            assert(f[i + 2] == mid[i + 2]);
            assert(f[i + 3] == mid[i + 3]);
            assert(f[i] == mid[i]);
        }
        if cell_unchanged(o, mid, pw, x, y) {
            let i = cell_idx(pw, x, y);
            assert(mid[i + 0] == o[i + 0]);
            assert(mid[i + 1] == o[i + 1]);
            assert(mid[i + 2] == o[i + 2]);
            assert(mid[i + 3] == o[i + 3]);
            assert(mid[i] == o[i]);
            assert(cell_blended(o, f, pw, x, y, r, g, b, a));
        }
    }
}

/// Which pixels a rounded border touches: inside the outer rounded
/// rectangle but not inside the inner one, when the stroke has any
/// opacity.
pub open spec fn border_covers(
    px: int,
    py: int,
    w: int,
    h: int,
    radius: int,
    thickness: int,
    a: int,
) -> bool {
    let rin = if radius > thickness {
        radius - thickness
    } else {
        0
    };
    &&& in_rounded_rect(px, py, w, h, radius)
    &&& !(px >= thickness && py >= thickness && px < w - thickness && py < h - thickness
        && in_rounded_rect(px - thickness, py - thickness, w - 2 * thickness, h - 2 * thickness,
        rin))
    &&& a != 0
}

/// Stroke a rounded border along the edge of the `w` by `h` surface:
/// every pixel between the outer shape and the inset inner shape is
/// blended, every other pixel is untouched.
pub fn draw_rounded_border(
    pixels: &mut Vec<u8>,
    w: u32,
    h: u32,
    radius: u32,
    thickness: u32,
    r: u8,
    g: u8,
    b: u8,
    a: u8,
)
    requires
        old(pixels)@.len() == (w as int) * (h as int) * 4,
        radius as int + thickness as int <= w as int,
        radius as int + thickness as int <= h as int,
        2 * (thickness as int) <= w as int,
        2 * (thickness as int) <= h as int,
    ensures
        final(pixels)@.len() == old(pixels)@.len(),
        forall|px: int, py: int|
            0 <= px < w && 0 <= py < h && border_covers(
                px,
                py,
                w as int,
                h as int,
                radius as int,
                thickness as int,
                a as int,
            ) ==> cell_blended(
                old(pixels)@,
                final(pixels)@,
                w as int,
                px,
                py,
                r as int,
                g as int,
                b as int,
                a as int,
            ),
        forall|px: int, py: int|
            0 <= px < w && 0 <= py < h && !border_covers(
                px,
                py,
                w as int,
                h as int,
                radius as int,
                thickness as int,
                a as int,
            ) ==> cell_unchanged(old(pixels)@, final(pixels)@, w as int, px, py),
{
    let mut y: u32 = 0;
    while y < h
        invariant
            old(pixels)@.len() == (w as int) * (h as int) * 4,
            pixels@.len() == old(pixels)@.len(),
            0 <= y <= h,
            radius as int + thickness as int <= w as int,
            radius as int + thickness as int <= h as int,
            2 * (thickness as int) <= w as int,
            2 * (thickness as int) <= h as int,
            forall|px: int, py: int|
                0 <= px < w && 0 <= py < h && border_covers(
                    px,
                    py,
                    w as int,
                    h as int,
                    radius as int,
                    thickness as int,
                    a as int,
                ) && py < y ==> cell_blended(
                    old(pixels)@,
                    pixels@,
                    w as int,
                    px,
                    py,
                    r as int,
                    g as int,
                    b as int,
                    a as int,
                ),
            forall|px: int, py: int|
                0 <= px < w && 0 <= py < h && !(border_covers(
                    px,
                    py,
                    w as int,
                    h as int,
                    radius as int,
                    thickness as int,
                    a as int,
                ) && py < y) ==> cell_unchanged(old(pixels)@, pixels@, w as int, px, py),
        decreases h - y,
    {
        let mut x: u32 = 0;
        while x < w
            invariant
                old(pixels)@.len() == (w as int) * (h as int) * 4,
                pixels@.len() == old(pixels)@.len(),
                0 <= y < h,
                0 <= x <= w,
                radius as int + thickness as int <= w as int,
                radius as int + thickness as int <= h as int,
                2 * (thickness as int) <= w as int,
                2 * (thickness as int) <= h as int,
                forall|px: int, py: int|
                    0 <= px < w && 0 <= py < h && border_covers(
                        px,
                        py,
                        w as int,
                        h as int,
                        radius as int,
                        thickness as int,
                        a as int,
                    ) && (py < y || (py == y && px < x)) ==> cell_blended(
                        old(pixels)@,
                        pixels@,
                        w as int,
                        px,
                        py,
                        r as int,
                        g as int,
                        b as int,
                        a as int,
                    ),
                forall|px: int, py: int|
                    0 <= px < w && 0 <= py < h && !(border_covers(
                        px,
                        py,
                        w as int,
                        h as int,
                        radius as int,
                        thickness as int,
                        a as int,
                    ) && (py < y || (py == y && px < x))) ==> cell_unchanged(
                        old(pixels)@,
                        pixels@,
                        w as int,
                        px,
                        py,
                    ),
            decreases w - x,
        {
            let ghost mid = pixels@;
            let inside_outer = is_inside_rounded_rect(x, y, w, h, radius);
            let rin: u32 = if radius > thickness {
                radius - thickness
            } else {
                0
            };
            let inside_inner = x >= thickness && y >= thickness && x < w - thickness && y < h
                - thickness && is_inside_rounded_rect(
                x - thickness,
                y - thickness,
                w - 2 * thickness,
                h - 2 * thickness,
                rin,
            );
            let on_border = inside_outer && !inside_inner;
            if on_border {
                set_pixel_blend(pixels, w, h, x, y, r, g, b, a);
            }
            proof {
                assert(on_border == border_covers(
                    x as int,
                    y as int,
                    w as int,
                    h as int,
                    radius as int,
                    thickness as int,
                    1,
                ));
                lemma_draw_step(
                    old(pixels)@,
                    mid,
                    pixels@,
                    w as int,
                    h as int,
                    x as int,
                    y as int,
                    border_covers(
                        x as int,
                        y as int,
                        w as int,
                        h as int,
                        radius as int,
                        thickness as int,
                        1,
                    ),
                    r as int,
                    g as int,
                    b as int,
                    a as int,
                );
                assert forall|px: int, py: int|
                    0 <= px < w && 0 <= py < h && border_covers(
                        px,
                        py,
                        w as int,
                        h as int,
                        radius as int,
                        thickness as int,
                        a as int,
                    ) && (py < y || (py == y && px < x + 1)) implies cell_blended(
                    old(pixels)@,
                    pixels@,
                    w as int,
                    px,
                    py,
                    r as int,
                    g as int,
                    b as int,
                    a as int,
                ) by {
                    if px == x as int && py == y as int {
                        assert(cell_unchanged(old(pixels)@, mid, w as int, px, py));
                    } else {
                        assert(cell_blended(
                            old(pixels)@,
                            mid,
                            w as int,
                            px,
                            py,
                            r as int,
                            g as int,
                            b as int,
                            a as int,
                        ));
                    }
                }
                assert forall|px: int, py: int|
                    0 <= px < w && 0 <= py < h && !(border_covers(
                        px,
                        py,
                        w as int,
                        h as int,
                        radius as int,
                        thickness as int,
                        a as int,
                    ) && (py < y || (py == y && px < x + 1))) implies cell_unchanged(
                    old(pixels)@,
                    pixels@,
                    w as int,
                    px,
                    py,
                ) by {
                    assert(cell_unchanged(old(pixels)@, mid, w as int, px, py));
                }
            }
            x = x + 1;
        }
        y = y + 1;
    }
}

} // verus!
