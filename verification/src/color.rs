//! Premultiplied RGBA pixels and source-over compositing.

use vstd::prelude::*;

verus! {

/// One canvas pixel: premultiplied RGBA. In a premultiplied pixel every
/// colour channel carries its value already scaled by the alpha channel,
/// so a well-formed pixel never has a colour channel above its alpha.
#[derive(Clone, Copy, PartialEq, Eq, Structural, Debug)]
pub struct Rgba {
    pub r: u8,
    pub g: u8,
    pub b: u8,
    pub a: u8,
}

impl Rgba {
    /// Premultiplied well-formedness: no colour channel exceeds alpha.
    pub open spec fn valid(self) -> bool {
        self.r <= self.a && self.g <= self.a && self.b <= self.a
    }

    /// Fully opaque: compositing this pixel over anything yields this pixel.
    pub open spec fn is_opaque(self) -> bool {
        self.a == 255
    }

    /// A fully opaque colour from its three colour channels.
    pub fn rgb(r: u8, g: u8, b: u8) -> (c: Rgba)
        ensures
            c == (Rgba { r, g, b, a: 255u8 }),
            c.valid(),
            c.is_opaque(),
    {
        Rgba { r, g, b, a: 255 }
    }

    /// The fully transparent pixel.
    pub fn transparent() -> (c: Rgba)
        ensures
            c == (Rgba { r: 0u8, g: 0u8, b: 0u8, a: 0u8 }),
            c.valid(),
    {
        Rgba { r: 0, g: 0, b: 0, a: 0 }
    }
}

/// Source-over compositing of one premultiplied channel:
/// `out = s + d * (255 - sa) / 255`, in exact integer arithmetic.
pub open spec fn over_channel(s: u8, d: u8, sa: u8) -> int {
    s + d * (255 - sa) / 255
}

/// Source-over compositing of premultiplied pixels: the source is laid over
/// the destination; where the source is fully opaque the destination
/// disappears, where it is fully transparent the destination is unchanged.
pub open spec fn src_over(s: Rgba, d: Rgba) -> Rgba {
    Rgba {
        r: over_channel(s.r, d.r, s.a) as u8,
        g: over_channel(s.g, d.g, s.a) as u8,
        b: over_channel(s.b, d.b, s.a) as u8,
        a: over_channel(s.a, d.a, s.a) as u8,
    }
}

/// For one channel of a well-formed pair of pixels the source-over result
/// stays in range and stays below the composited alpha.
proof fn lemma_over_channel_bound(s: u8, d: u8, sa: u8)
    requires
        s <= sa,
        d <= 255,
    ensures
        0 <= over_channel(s, d, sa) <= 255,
        over_channel(s, d, sa) <= over_channel(sa, 255, sa),
        over_channel(sa, 255, sa) <= 255,
{
    assert(d * (255 - sa) <= 255 * (255 - sa)) by (nonlinear_arith)
        requires d <= 255, sa <= 255;
    assert(255 * (255 - sa) / 255 == 255 - sa) by (nonlinear_arith)
        requires sa <= 255;
    assert(d * (255 - sa) / 255 <= 255 * (255 - sa) / 255) by (nonlinear_arith)
        requires 0 <= d * (255 - sa) <= 255 * (255 - sa);
    assert(0 <= d * (255 - sa) / 255) by (nonlinear_arith)
        requires 0 <= d * (255 - sa);
}

/// Compositing two well-formed premultiplied pixels yields a well-formed
/// premultiplied pixel, with every channel in range (so the `as u8` casts
/// in `src_over` are exact).
pub proof fn lemma_src_over_valid(s: Rgba, d: Rgba)
    requires
        s.valid(),
        d.valid(),
    ensures
        src_over(s, d).valid(),
        src_over(s, d).r == over_channel(s.r, d.r, s.a),
        src_over(s, d).g == over_channel(s.g, d.g, s.a),
        src_over(s, d).b == over_channel(s.b, d.b, s.a),
        src_over(s, d).a == over_channel(s.a, d.a, s.a),
{
    lemma_over_channel_bound(s.r, d.r, s.a);
    lemma_over_channel_bound(s.g, d.g, s.a);
    lemma_over_channel_bound(s.b, d.b, s.a);
    lemma_over_channel_bound(s.a, d.a, s.a);
    assert(over_channel(s.r, d.r, s.a) <= over_channel(s.a, d.a, s.a)) by {
        assert(d.r * (255 - s.a) <= d.a * (255 - s.a)) by (nonlinear_arith)
            requires d.r <= d.a, s.a <= 255;
        assert(d.r * (255 - s.a) / 255 <= d.a * (255 - s.a) / 255) by (nonlinear_arith)
            requires d.r * (255 - s.a) <= d.a * (255 - s.a);
    }
    assert(over_channel(s.g, d.g, s.a) <= over_channel(s.a, d.a, s.a)) by {
        assert(d.g * (255 - s.a) <= d.a * (255 - s.a)) by (nonlinear_arith)
            requires d.g <= d.a, s.a <= 255;
        assert(d.g * (255 - s.a) / 255 <= d.a * (255 - s.a) / 255) by (nonlinear_arith)
            requires d.g * (255 - s.a) <= d.a * (255 - s.a);
    }
    assert(over_channel(s.b, d.b, s.a) <= over_channel(s.a, d.a, s.a)) by {
        assert(d.b * (255 - s.a) <= d.a * (255 - s.a)) by (nonlinear_arith)
            requires d.b <= d.a, s.a <= 255;
        assert(d.b * (255 - s.a) / 255 <= d.a * (255 - s.a) / 255) by (nonlinear_arith)
            requires d.b * (255 - s.a) <= d.a * (255 - s.a);
    }
}

/// Source-over compositing, executably: returns exactly `src_over(s, d)`.
pub fn compose_over(s: Rgba, d: Rgba) -> (r: Rgba)
    requires
        s.valid(),
        d.valid(),
    ensures
        r == src_over(s, d),
        r.valid(),
{
    proof {
        lemma_src_over_valid(s, d);
        assert((d.r as int) * (255 - s.a as int) <= 65025) by (nonlinear_arith)
            requires
                d.r <= 255,
                s.a <= 255;
        assert((d.g as int) * (255 - s.a as int) <= 65025) by (nonlinear_arith)
            requires
                d.g <= 255,
                s.a <= 255;
        assert((d.b as int) * (255 - s.a as int) <= 65025) by (nonlinear_arith)
            requires
                d.b <= 255,
                s.a <= 255;
        assert((d.a as int) * (255 - s.a as int) <= 65025) by (nonlinear_arith)
            requires
                d.a <= 255,
                s.a <= 255;
        lemma_over_channel_bound(s.r, d.r, s.a);
        lemma_over_channel_bound(s.g, d.g, s.a);
        lemma_over_channel_bound(s.b, d.b, s.a);
        lemma_over_channel_bound(s.a, d.a, s.a);
    }
    let inv: u32 = 255 - (s.a as u32);
    let rr: u32 = (s.r as u32) + (d.r as u32) * inv / 255;
    let rg: u32 = (s.g as u32) + (d.g as u32) * inv / 255;
    let rb: u32 = (s.b as u32) + (d.b as u32) * inv / 255;
    let ra: u32 = (s.a as u32) + (d.a as u32) * inv / 255;
    Rgba { r: rr as u8, g: rg as u8, b: rb as u8, a: ra as u8 }
}

/// Laying a fully opaque pixel over anything yields that pixel: the
/// destination plays no part. This is what makes later opaque draws win.
pub proof fn lemma_src_over_opaque(s: Rgba, d: Rgba)
    requires
        s.is_opaque(),
    ensures
        src_over(s, d) == s,
{
    assert(d.r * (255 - s.a) == 0) by (nonlinear_arith)
        requires s.a == 255;
    assert(d.g * (255 - s.a) == 0) by (nonlinear_arith)
        requires s.a == 255;
    assert(d.b * (255 - s.a) == 0) by (nonlinear_arith)
        requires s.a == 255;
    assert(d.a * (255 - s.a) == 0) by (nonlinear_arith)
        requires s.a == 255;
}

/// Laying a fully transparent pixel over anything leaves the
/// destination exactly as it was: compositing has an identity.
pub proof fn lemma_src_over_transparent(s: Rgba, d: Rgba)
    requires
        s == (Rgba { r: 0u8, g: 0u8, b: 0u8, a: 0u8 }),
    ensures
        src_over(s, d) == d,
{
    vstd::arithmetic::div_mod::lemma_div_by_multiple(d.r as int, 255);
    vstd::arithmetic::div_mod::lemma_div_by_multiple(d.g as int, 255);
    vstd::arithmetic::div_mod::lemma_div_by_multiple(d.b as int, 255);
    vstd::arithmetic::div_mod::lemma_div_by_multiple(d.a as int, 255);
}

} // verus!
