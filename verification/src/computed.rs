//! Reading computed style values back out of a selection's results.
//!
//! A computed style is read through a non-owning view that carries a
//! borrowed back-reference to the results it came from, so a view can
//! never outlive its results. Each per-property read accessor reports a
//! status byte — inherited or explicit — beside its payload, and colors
//! travel packed as the engine stores them.

use vstd::prelude::*;

verus! {

use crate::properties::CssColorProp;
use crate::properties::CSS_COLOR_INHERIT;
use crate::select::CssSelectResultsRef;
use crate::types::CssColor;

/// One computed style as the engine reports it: the status byte of the
/// color read and the packed color beside it.
#[allow(non_camel_case_types)]
#[derive(Clone, Copy, Debug, PartialEq, Eq, Structural)]
pub struct css_computed_style {
    pub color_type: u8,
    pub color: u32,
}

/// A color packed the way the engine stores one: alpha in the top byte,
/// then red, green and blue.
pub open spec fn spec_color_to_ll(c: CssColor) -> u32 {
    (c.a * 0x1000000 + c.r * 0x10000 + c.g * 0x100 + c.b) as u32
}

/// The channels of a packed color.
pub open spec fn spec_ll_color_to_hl(v: u32) -> CssColor {
    CssColor {
        r: ((v / 0x10000) % 0x100) as u8,
        g: ((v / 0x100) % 0x100) as u8,
        b: (v % 0x100) as u8,
        a: (v / 0x1000000) as u8,
    }
}

/// Packs a color into the engine's one-word form.
pub fn hl_color_to_ll_color(c: CssColor) -> (r: u32)
    ensures
        r == spec_color_to_ll(c),
{
    c.a as u32 * 0x1000000 + c.r as u32 * 0x10000 + c.g as u32 * 0x100 + c.b as u32
}

/// Unpacks a color from the engine's one-word form.
pub fn ll_color_to_hl_color(v: u32) -> (r: CssColor)
    ensures
        r == spec_ll_color_to_hl(v),
{
    CssColor {
        r: ((v / 0x10000) % 0x100) as u8,
        g: ((v / 0x100) % 0x100) as u8,
        b: (v % 0x100) as u8,
        a: (v / 0x1000000) as u8,
    }
}

/// Packing a color and unpacking it again gives the channels back.
pub proof fn lemma_color_pack_round_trip(c: CssColor)
    ensures
        spec_ll_color_to_hl(spec_color_to_ll(c)) == c,
{
    let v = spec_color_to_ll(c);
    assert(v == c.a * 0x1000000 + c.r * 0x10000 + c.g * 0x100 + c.b);
    assert(v / 0x1000000 == c.a) by (nonlinear_arith)
        requires
            v == c.a * 0x1000000 + c.r * 0x10000 + c.g * 0x100 + c.b,
            c.r < 256 && c.g < 256 && c.b < 256,
    ;
    assert((v / 0x10000) % 0x100 == c.r) by (nonlinear_arith)
        requires
            v == c.a * 0x1000000 + c.r * 0x10000 + c.g * 0x100 + c.b,
            c.r < 256 && c.g < 256 && c.b < 256,
    ;
    assert((v / 0x100) % 0x100 == c.g) by (nonlinear_arith)
        requires
            v == c.a * 0x1000000 + c.r * 0x10000 + c.g * 0x100 + c.b,
            c.g < 256 && c.b < 256,
    ;
    assert(v % 0x100 == c.b) by (nonlinear_arith)
        requires
            v == c.a * 0x1000000 + c.r * 0x10000 + c.g * 0x100 + c.b,
            c.b < 256,
    ;
}

/// Reads the computed color out of a computed style, the way the engine's
/// accessor does: the packed color goes to the out-parameter and the
/// status byte is the return value.
pub fn css_computed_color(style: &css_computed_style, color: &mut u32) -> (r: u8)
    ensures
        *final(color) == style.color,
        r == style.color_type,
{
    *color = style.color;
    style.color_type
}

/// The typed answer a computed style's color read decodes to.
pub open spec fn spec_color_prop(style: css_computed_style) -> CssColorProp {
    if style.color_type == CSS_COLOR_INHERIT {
        CssColorProp::CssColorInherit
    } else {
        CssColorProp::CssColorValue(spec_ll_color_to_hl(style.color))
    }
}

/// A non-owning view of one computed style, keyed by the results it was
/// read from. The back-reference ties the view's lifetime to the
/// results, so a view can never outlive them.
pub struct CssComputedStyleRef<'a> {
    pub result_backref: &'a CssSelectResultsRef,
    pub computed_style: css_computed_style,
}

impl<'a> CssComputedStyleRef<'a> {
    /// The computed color: inherited when the status byte says so, and
    /// the explicit unpacked color otherwise.
    pub fn color(&self) -> (r: CssColorProp)
        ensures
            r == spec_color_prop(self.computed_style),
    {
        let mut llcolor: u32 = 0;
        let type_ = css_computed_color(&self.computed_style, &mut llcolor);
        if type_ == CSS_COLOR_INHERIT {
            CssColorProp::CssColorInherit
        } else {
            CssColorProp::CssColorValue(ll_color_to_hl_color(llcolor))
        }
    }
}

} // verus!
