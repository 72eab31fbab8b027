//! The CPU-side pixel canvas: a row-major buffer of premultiplied RGBA
//! pixels with solid fill, source-over blitting at an integer offset, and
//! a background composite that stretches a source image over the whole
//! canvas.

use vstd::prelude::*;
use vstd::arithmetic::div_mod::lemma_div_is_ordered;
use vstd::arithmetic::div_mod::lemma_div_multiples_vanish;
use vstd::arithmetic::div_mod::lemma_fundamental_div_mod;
use vstd::arithmetic::div_mod::lemma_fundamental_div_mod_converse;
use vstd::arithmetic::div_mod::lemma_multiply_divide_lt;

use crate::color::Rgba;
use crate::color::src_over;
use crate::color::compose_over;
use crate::color::lemma_src_over_opaque;
use crate::errors::SurfaceInitError;

verus! {

/// The row-major index of the pixel at column `x`, row `y` of a grid
/// that is `width` pixels wide.
pub open spec fn pix(width: int, x: int, y: int) -> int {
    y * width + x
}

/// Whether the point `(x, y)` lies inside the rectangle with origin
/// `(ox, oy)`, width `w` and height `h`.
pub open spec fn in_rect(x: int, y: int, ox: int, oy: int, w: int, h: int) -> bool {
    ox <= x < ox + w && oy <= y < oy + h
}

/// The contents of a canvas after a solid fill: every pixel is the fill
/// colour, whatever stood there before.
pub open spec fn fill_seq(p: Seq<Rgba>, c: Rgba) -> Seq<Rgba> {
    Seq::new(p.len(), |i: int| c)
}

/// One pixel of a canvas of width `dw` after compositing a `sw` by `sh`
/// source over it at offset `(x, y)`: inside the placed rectangle the
/// source is laid over the old pixel, outside it the old pixel stands.
pub open spec fn blit_cell(
    dst: Seq<Rgba>,
    dw: int,
    src: Seq<Rgba>,
    sw: int,
    sh: int,
    x: int,
    y: int,
    i: int,
) -> Rgba {
    let dx = i % dw;
    let dy = i / dw;
    if in_rect(dx, dy, x, y, sw, sh) {
        src_over(src[pix(sw, dx - x, dy - y)], dst[i])
    } else {
        dst[i]
    }
}

/// The contents of a canvas after a blit, cell by cell.
pub open spec fn blit_seq(
    dst: Seq<Rgba>,
    dw: int,
    src: Seq<Rgba>,
    sw: int,
    sh: int,
    x: int,
    y: int,
) -> Seq<Rgba> {
    Seq::new(dst.len(), |i: int| blit_cell(dst, dw, src, sw, sh, x, y, i))
}

/// The source coordinate sampled for destination coordinate `dx` when a
/// source extent `sv` is stretched over a destination extent `dv`: the
/// destination is scaled by exactly `dv / sv`, so position `dx` reads
/// `dx * sv / dv`.
pub open spec fn stretch_index(dx: int, sv: int, dv: int) -> int {
    dx * sv / dv
}

/// One pixel of a `dw` by `dh` canvas after stretching a `sw` by `sh`
/// source over the whole of it and compositing source-over.
pub open spec fn bg_cell(
    dst: Seq<Rgba>,
    dw: int,
    dh: int,
    src: Seq<Rgba>,
    sw: int,
    sh: int,
    i: int,
) -> Rgba {
    let dx = i % dw;
    let dy = i / dw;
    src_over(src[pix(sw, stretch_index(dx, sw, dw), stretch_index(dy, sh, dh))], dst[i])
}

/// The contents of a canvas after a background composite, cell by cell.
pub open spec fn background_seq(
    dst: Seq<Rgba>,
    dw: int,
    dh: int,
    src: Seq<Rgba>,
    sw: int,
    sh: int,
) -> Seq<Rgba> {
    Seq::new(dst.len(), |i: int| bg_cell(dst, dw, dh, src, sw, sh, i))
}

/// A mutable 2D buffer of premultiplied RGBA pixels, stored row-major.
#[derive(Debug)]
pub struct Canvas {
    width: u32,
    height: u32,
    pixels: Vec<Rgba>,
}

impl View for Canvas {
    type V = Seq<Rgba>;

    closed spec fn view(&self) -> Seq<Rgba> {
        self.pixels@
    }
}

impl Canvas {
    /// The canvas width in pixels.
    pub closed spec fn spec_width(&self) -> u32 {
        self.width
    }

    /// The canvas height in pixels.
    pub closed spec fn spec_height(&self) -> u32 {
        self.height
    }

    /// Well-formedness: the buffer holds exactly width times height
    /// pixels and every pixel is premultiplied.
    pub open spec fn wf(&self) -> bool {
        &&& self@.len() == self.spec_width() * self.spec_height()
        &&& forall|i: int| 0 <= i < self@.len() ==> (#[trigger] self@[i]).valid()
    }

    pub fn width(&self) -> (w: u32)
        ensures
            w == self.spec_width(),
    {
        self.width
    }

    pub fn height(&self) -> (h: u32)
        ensures
            h == self.spec_height(),
    {
        self.height
    }

    /// Read one pixel.
    pub fn pixel(&self, x: u32, y: u32) -> (c: Rgba)
        requires
            self.wf(),
            x < self.spec_width(),
            y < self.spec_height(),
        ensures
            c == self@[pix(self.spec_width() as int, x as int, y as int)],
    {
        let n = self.pixels.len();
        proof {
            assert((y as int) * (self.width as int) + (x as int)
                < (self.width as int) * (self.height as int)) by (nonlinear_arith)
                requires
                    0 <= x < self.width,
                    0 <= y < self.height;
        }
        let idx64: u64 = (y as u64) * (self.width as u64) + (x as u64);
        assert(idx64 < n as u64);
        self.pixels[idx64 as usize]
    }

    /// Overwrite one pixel.
    pub fn set_pixel(&mut self, x: u32, y: u32, c: Rgba)
        requires
            old(self).wf(),
            x < old(self).spec_width(),
            y < old(self).spec_height(),
            c.valid(),
        ensures
            final(self).wf(),
            final(self).spec_width() == old(self).spec_width(),
            final(self).spec_height() == old(self).spec_height(),
            final(self)@ == old(self)@.update(
                pix(old(self).spec_width() as int, x as int, y as int),
                c,
            ),
    {
        let n = self.pixels.len();
        proof {
            assert((y as int) * (self.width as int) + (x as int)
                < (self.width as int) * (self.height as int)) by (nonlinear_arith)
                requires
                    0 <= x < self.width,
                    0 <= y < self.height;
        }
        let idx64: u64 = (y as u64) * (self.width as u64) + (x as u64);
        assert(idx64 < n as u64);
        self.pixels.set(idx64 as usize, c);
    }

    /// A transparent canvas of the given size. Succeeds exactly when both
    /// dimensions are positive and the pixel count is addressable.
    pub fn new(width: u32, height: u32) -> (r: Result<Canvas, SurfaceInitError>)
        ensures
            match r {
                Ok(c) => {
                    &&& width > 0
                    &&& height > 0
                    &&& width * height <= usize::MAX
                    &&& c.wf()
                    &&& c.spec_width() == width
                    &&& c.spec_height() == height
                    &&& forall|i: int|
                        0 <= i < c@.len() ==> c@[i] == (Rgba { r: 0u8, g: 0u8, b: 0u8, a: 0u8 })
                },
                Err(e) => {
                    &&& !(width > 0 && height > 0 && width * height <= usize::MAX)
                    &&& e == (if width == 0 || height == 0 {
                        SurfaceInitError::ZeroSizedCanvas
                    } else {
                        SurfaceInitError::CanvasTooLarge
                    })
                },
            },
    {
        if width == 0 || height == 0 {
            return Err(SurfaceInitError::ZeroSizedCanvas);
        }
        proof {
            assert((width as int) * (height as int) <= 0xffff_fffe_0000_0001) by (nonlinear_arith)
                requires
                    0 <= width <= 0xffff_ffff,
                    0 <= height <= 0xffff_ffff;
        }
        let n64: u64 = (width as u64) * (height as u64);
        if n64 > (usize::MAX as u64) {
            return Err(SurfaceInitError::CanvasTooLarge);
        }
        let n: usize = n64 as usize;
        let mut pixels: Vec<Rgba> = Vec::new();
        let mut i: usize = 0;
        while i < n
            invariant
                i <= n,
                pixels@.len() == i as int,
                forall|j: int|
                    0 <= j < i as int ==> pixels@[j] == (Rgba { r: 0u8, g: 0u8, b: 0u8, a: 0u8 }),
            decreases n - i,
        {
            pixels.push(Rgba { r: 0, g: 0, b: 0, a: 0 });
            i = i + 1;
        }
        Ok(Canvas { width, height, pixels })
    }

    /// Overwrite every pixel of the canvas with one colour.
    pub fn fill(&mut self, c: Rgba)
        requires
            old(self).wf(),
            c.valid(),
        ensures
            final(self).wf(),
            final(self).spec_width() == old(self).spec_width(),
            final(self).spec_height() == old(self).spec_height(),
            final(self)@ == fill_seq(old(self)@, c),
    {
        let n = self.pixels.len();
        let mut i: usize = 0;
        while i < n
            invariant
                i <= n,
                c.valid(),
                n == old(self)@.len(),
                self.pixels@.len() == n,
                self.width == old(self).spec_width(),
                self.height == old(self).spec_height(),
                forall|j: int| 0 <= j < i as int ==> self.pixels@[j] == c,
                forall|j: int| i as int <= j < n as int ==> self.pixels@[j] == old(self)@[j],
            decreases n - i,
        {
            self.pixels.set(i, c);
            i = i + 1;
        }
        proof {
            assert(self@ =~= fill_seq(old(self)@, c));
        }
    }

    /// Composite a source canvas over this one at offset `(x, y)` with
    /// source-over blending; parts of the source outside the canvas are
    /// clipped away.
    pub fn blit(&mut self, x: i32, y: i32, src: &Canvas)
        requires
            old(self).wf(),
            src.wf(),
        ensures
            final(self).wf(),
            final(self).spec_width() == old(self).spec_width(),
            final(self).spec_height() == old(self).spec_height(),
            final(self)@ == blit_seq(
                old(self)@,
                old(self).spec_width() as int,
                src@,
                src.spec_width() as int,
                src.spec_height() as int,
                x as int,
                y as int,
            ),
    {
        let ghost gdst = self.pixels@;
        let ghost dwi = self.width as int;
        let ghost swi = src.width as int;
        let ghost shi = src.height as int;
        let n = self.pixels.len();
        let sn = src.pixels.len();
        let dw = self.width;
        let mut i: usize = 0;
        while i < n
            invariant
                i <= n,
                src.wf(),
                sn == src@.len(),
                n == gdst.len(),
                self.pixels@.len() == n,
                self.width == old(self).spec_width(),
                self.height == old(self).spec_height(),
                gdst == old(self)@,
                dw == self.width,
                dwi == dw as int,
                swi == src.spec_width() as int,
                shi == src.spec_height() as int,
                n == self.width * self.height,
                forall|j: int| 0 <= j < n as int ==> (#[trigger] self.pixels@[j]).valid(),
                forall|j: int|
                    0 <= j < i as int ==> self.pixels@[j] == blit_cell(
                        gdst, dwi, src@, swi, shi, x as int, y as int, j,
                    ),
                forall|j: int| i as int <= j < n as int ==> self.pixels@[j] == gdst[j],
            decreases n - i,
        {
            proof {
                assert(dw > 0) by (nonlinear_arith)
                    requires
                        n == dw * self.height,
                        i < n;
                assert(n as int == dwi * (self.height as int));
                lemma_multiply_divide_lt(i as int, dwi, self.height as int);
            }
            let ix = i % (dw as usize);
            let iy = i / (dw as usize);
            let inside = (x as i64) <= (ix as i64) && (ix as i64) < (x as i64) + (src.width as i64)
                && (y as i64) <= (iy as i64) && (iy as i64) < (y as i64) + (src.height as i64);
            if inside {
                let sx: u64 = ((ix as i64) - (x as i64)) as u64;
                let sy: u64 = ((iy as i64) - (y as i64)) as u64;
                proof {
                    assert((sy as int) * swi + (sx as int) < shi * swi) by (nonlinear_arith)
                        requires
                            0 <= (sx as int) < swi,
                            0 <= (sy as int) < shi;
                    assert(swi * shi == shi * swi) by (nonlinear_arith);
                    assert((sy as int) * swi + (sx as int) < sn as int);
                }
                let sidx64: u64 = sy * (src.width as u64) + sx;
                let spx = src.pixels[sidx64 as usize];
                let dpx = self.pixels[i];
                let outp = compose_over(spx, dpx);
                self.pixels.set(i, outp);
            }
            i = i + 1;
        }
        proof {
            assert(self@ =~= blit_seq(gdst, dwi, src@, swi, shi, x as int, y as int));
        }
    }

    /// Stretch a source canvas over the whole of this one — independent
    /// scale factors of width over source width and height over source
    /// height — and composite it source-over at the origin. Every canvas
    /// pixel `(dx, dy)` reads the source at `(dx * sw / dw, dy * sh / dh)`,
    /// so nothing of the source is cropped away.
    pub fn background(&mut self, src: &Canvas)
        requires
            old(self).wf(),
            src.wf(),
            src.spec_width() >= 1,
            src.spec_height() >= 1,
        ensures
            final(self).wf(),
            final(self).spec_width() == old(self).spec_width(),
            final(self).spec_height() == old(self).spec_height(),
            final(self)@ == background_seq(
                old(self)@,
                old(self).spec_width() as int,
                old(self).spec_height() as int,
                src@,
                src.spec_width() as int,
                src.spec_height() as int,
            ),
    {
        let ghost gdst = self.pixels@;
        let ghost dwi = self.width as int;
        let ghost dhi = self.height as int;
        let ghost swi = src.width as int;
        let ghost shi = src.height as int;
        let n = self.pixels.len();
        let sn = src.pixels.len();
        let dw = self.width;
        let mut i: usize = 0;
        while i < n
            invariant
                i <= n,
                src.wf(),
                src.spec_width() >= 1,
                src.spec_height() >= 1,
                sn == src@.len(),
                n == gdst.len(),
                self.pixels@.len() == n,
                self.width == old(self).spec_width(),
                self.height == old(self).spec_height(),
                gdst == old(self)@,
                dw == self.width,
                dwi == dw as int,
                dhi == self.height as int,
                swi == src.spec_width() as int,
                shi == src.spec_height() as int,
                n == self.width * self.height,
                forall|j: int| 0 <= j < n as int ==> (#[trigger] self.pixels@[j]).valid(),
                forall|j: int|
                    0 <= j < i as int ==> self.pixels@[j] == bg_cell(
                        gdst, dwi, dhi, src@, swi, shi, j,
                    ),
                forall|j: int| i as int <= j < n as int ==> self.pixels@[j] == gdst[j],
            decreases n - i,
        {
            proof {
                assert(dw > 0) by (nonlinear_arith)
                    requires
                        n == dw * self.height,
                        i < n;
                assert(n as int == dwi * dhi);
                lemma_multiply_divide_lt(i as int, dwi, dhi);
            }
            let ix = i % (dw as usize);
            let iy = i / (dw as usize);
            proof {
                lemma_stretch_in_bounds(ix as int, swi, dwi);
                lemma_stretch_in_bounds(iy as int, shi, dhi);
                assert((ix as int) * swi <= 0xffff_fffe_0000_0001) by (nonlinear_arith)
                    requires
                        0 <= (ix as int) <= 0xffff_ffff,
                        0 <= swi <= 0xffff_ffff;
                assert((iy as int) * shi <= 0xffff_fffe_0000_0001) by (nonlinear_arith)
                    requires
                        0 <= (iy as int) <= 0xffff_ffff,
                        0 <= shi <= 0xffff_ffff;
            }
            let sxi64: u64 = (ix as u64) * (src.width as u64) / (dw as u64);
            let syi64: u64 = (iy as u64) * (src.height as u64) / (self.height as u64);
            proof {
                assert((syi64 as int) * swi + (sxi64 as int) < shi * swi) by (nonlinear_arith)
                    requires
                        0 <= (sxi64 as int) < swi,
                        0 <= (syi64 as int) < shi;
                assert(swi * shi == shi * swi) by (nonlinear_arith);
                assert((syi64 as int) * swi + (sxi64 as int) < sn as int);
            }
            let sidx64: u64 = syi64 * (src.width as u64) + sxi64;
            let spx = src.pixels[sidx64 as usize];
            let dpx = self.pixels[i];
            let outp = compose_over(spx, dpx);
            self.pixels.set(i, outp);
            i = i + 1;
        }
        proof {
            assert(self@ =~= background_seq(gdst, dwi, dhi, src@, swi, shi));
        }
    }
}

/// The contents of a canvas after `n` consecutive solid fills with the
/// same colour.
pub open spec fn fill_n(p: Seq<Rgba>, c: Rgba, n: nat) -> Seq<Rgba>
    decreases n,
{
    if n == 0 {
        p
    } else {
        fill_seq(fill_n(p, c, (n - 1) as nat), c)
    }
}

/// Filling is idempotent: any positive number of consecutive fills with
/// one colour leaves the canvas exactly as a single fill does, with
/// every pixel equal to that colour.
pub proof fn lemma_fill_idempotent(p: Seq<Rgba>, c: Rgba, n: nat)
    requires
        n >= 1,
    ensures
        fill_n(p, c, n) == fill_seq(p, c),
        forall|i: int| 0 <= i < fill_n(p, c, n).len() ==> fill_n(p, c, n)[i] == c,
    decreases n,
{
    if n == 1 {
        assert(fill_n(p, c, 1) == fill_seq(p, c)) by {
            assert(fill_n(p, c, 0) == p);
        }
    } else {
        lemma_fill_idempotent(p, c, (n - 1) as nat);
        assert(fill_seq(fill_seq(p, c), c) =~= fill_seq(p, c));
    }
}

/// Compositing order: where two placed draws overlap and the later
/// draw's pixel is opaque, the canvas shows the later draw's pixel —
/// later calls paint over earlier ones. This holds for every canvas of
/// positive size and every overlap point.
pub proof fn lemma_overlap_later_wins(
    dst: Seq<Rgba>,
    dw: int,
    dh: int,
    a: Seq<Rgba>,
    aw: int,
    ah: int,
    ax: int,
    ay: int,
    b: Seq<Rgba>,
    bw: int,
    bh: int,
    bx: int,
    by: int,
    px: int,
    py: int,
)
    requires
        dw >= 1,
        dh >= 1,
        dst.len() == dw * dh,
        0 <= px < dw,
        0 <= py < dh,
        in_rect(px, py, ax, ay, aw, ah),
        in_rect(px, py, bx, by, bw, bh),
        b[pix(bw, px - bx, py - by)].is_opaque(),
    ensures
        blit_seq(blit_seq(dst, dw, a, aw, ah, ax, ay), dw, b, bw, bh, bx, by)[pix(dw, px, py)]
            == b[pix(bw, px - bx, py - by)],
{
    let i = pix(dw, px, py);
    assert(0 <= i < dw * dh) by (nonlinear_arith)
        requires
            0 <= px < dw,
            0 <= py < dh,
            i == py * dw + px;
    lemma_fundamental_div_mod_converse(i, dw, py, px);
    let mid = blit_seq(dst, dw, a, aw, ah, ax, ay);
    assert(mid.len() == dst.len());
    assert(blit_seq(mid, dw, b, bw, bh, bx, by)[i] == blit_cell(mid, dw, b, bw, bh, bx, by, i));
    lemma_src_over_opaque(b[pix(bw, px - bx, py - by)], mid[i]);
}

/// The background composite, pixel by pixel: the canvas pixel at
/// `(px, py)` is the source pixel at `(px * sw / dw, py * sh / dh)` laid
/// over what stood there — the source stretched by exactly width over
/// source width and height over source height, anchored at the origin.
pub proof fn lemma_background_pixel(
    dst: Seq<Rgba>,
    dw: int,
    dh: int,
    src: Seq<Rgba>,
    sw: int,
    sh: int,
    px: int,
    py: int,
)
    requires
        dw >= 1,
        dh >= 1,
        dst.len() == dw * dh,
        0 <= px < dw,
        0 <= py < dh,
    ensures
        background_seq(dst, dw, dh, src, sw, sh)[pix(dw, px, py)] == src_over(
            src[pix(sw, stretch_index(px, sw, dw), stretch_index(py, sh, dh))],
            dst[pix(dw, px, py)],
        ),
{
    let i = pix(dw, px, py);
    assert(0 <= i < dw * dh) by (nonlinear_arith)
        requires
            0 <= px < dw,
            0 <= py < dh,
            i == py * dw + px;
    lemma_fundamental_div_mod_converse(i, dw, py, px);
}

/// Stretching preserves order: moving right or down on the canvas never
/// moves left or up in the source, so the source is stretched, not
/// reordered.
pub proof fn lemma_stretch_monotone(d1: int, d2: int, sv: int, dv: int)
    requires
        0 <= d1 <= d2,
        1 <= dv,
        0 <= sv,
    ensures
        stretch_index(d1, sv, dv) <= stretch_index(d2, sv, dv),
{
    assert(d1 * sv <= d2 * sv) by (nonlinear_arith)
        requires
            0 <= d1 <= d2,
            0 <= sv;
    lemma_div_is_ordered(d1 * sv, d2 * sv, dv);
}

/// Upscaling crops nothing: when the canvas extent is at least the
/// source extent, every source coordinate is sampled by some canvas
/// coordinate, so the whole source appears in the stretched result.
pub proof fn lemma_stretch_covers(sx: int, sv: int, dv: int)
    requires
        0 <= sx < sv <= dv,
    ensures
        exists|dx: int| 0 <= dx < dv && stretch_index(dx, sv, dv) == sx,
{
    let num = sx * dv;
    let dx = (num + sv - 1) / sv;
    assert(0 <= num) by (nonlinear_arith)
        requires
            num == sx * dv,
            0 <= sx,
            0 <= dv;
    lemma_fundamental_div_mod(num + sv - 1, sv);
    let r = (num + sv - 1) % sv;
    assert(num + sv - 1 == sv * dx + r);
    assert(0 <= r < sv);
    assert(sv * dx == num + (sv - 1 - r));
    assert(num <= sv * dx <= num + sv - 1);
    assert(dx * sv == sv * dx) by (nonlinear_arith);
    // dx is in canvas range
    assert(0 <= dx) by (nonlinear_arith)
        requires
            0 <= sv * dx,
            0 < sv;
    assert((sx + 1) * dv == num + dv) by (nonlinear_arith)
        requires
            num == sx * dv;
    assert(dx * sv < (sx + 1) * dv);
    assert(dx < dv) by (nonlinear_arith)
        requires
            dx * sv < (sx + 1) * dv,
            sx + 1 <= sv,
            0 < sv,
            0 < dv,
            0 <= dx;
    // the sample at dx is exactly sx
    assert(dv * sx <= dx * sv) by (nonlinear_arith)
        requires
            num == sx * dv,
            num <= dx * sv;
    lemma_div_is_ordered(dv * sx, dx * sv, dv);
    lemma_div_multiples_vanish(sx, dv);
    assert(sx <= dx * sv / dv);
    assert(dx * sv < dv * (sx + 1)) by (nonlinear_arith)
        requires
            dx * sv < (sx + 1) * dv;
    lemma_multiply_divide_lt(dx * sv, dv, sx + 1);
    assert(stretch_index(dx, sv, dv) == sx);
}

/// The coordinate a stretched lookup samples never leaves the source:
/// for any destination coordinate the sampled source coordinate is in
/// range, so a background composite crops nothing and reads nothing
/// outside the image.
pub proof fn lemma_stretch_in_bounds(dx: int, sv: int, dv: int)
    requires
        0 <= dx < dv,
        1 <= sv,
    ensures
        0 <= stretch_index(dx, sv, dv) < sv,
{
    assert(0 <= dx * sv) by (nonlinear_arith)
        requires
            0 <= dx,
            0 <= sv;
    assert(dx * sv < dv * sv) by (nonlinear_arith)
        requires
            0 <= dx < dv,
            1 <= sv;
    lemma_multiply_divide_lt(dx * sv, dv, sv);
    assert(0 <= dx * sv / dv) by (nonlinear_arith)
        requires
            0 <= dx * sv,
            0 < dv;
}

} // verus!
