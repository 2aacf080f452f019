//! The per-property hint codec.
//!
//! The engine consumes hint values through a fixed-layout object: a
//! payload region multiplexed by the property the hint answers, followed
//! by a status tag. The same numeric tag means different things for
//! different properties, so a tag is only ever read or written together
//! with a property identifier. Here the object is an explicit tagged
//! type: the payload region is a variant and the status tag an ordinary
//! field, so no offset arithmetic is ever needed, while the legal
//! (payload, tag) combinations per property stay exactly those of the
//! engine's contract.

use vstd::prelude::*;

verus! {

use crate::errors::css_error;
use crate::errors::CssError;
use crate::errors::CssResult;
use crate::errors::CSS_INVALID;
use crate::errors::CSS_OK;
use crate::properties::spec_font_family_code;
use crate::properties::CssFontFamily;
use crate::properties::CssProperty;
use crate::properties::CSS_COLOR_COLOR;
use crate::properties::CSS_COLOR_INHERIT;
use crate::properties::CSS_FONT_FAMILY_INHERIT;
use crate::properties::CSS_FONT_FAMILY_SANS_SERIF;
use crate::properties::CSS_QUOTES_INHERIT;
use crate::properties::CSS_QUOTES_NONE;
use crate::types::CssColor;
use crate::types::css_fixed;
use crate::types::css_unit;
use crate::types::spec_strings_view;
use crate::types::LwcStringRef;

/// A length payload: fixed-point magnitude and unit.
#[allow(non_camel_case_types)]
#[derive(Clone, Copy, Debug, PartialEq, Eq, Structural)]
pub struct css_hint_length {
    pub value: css_fixed,
    pub unit: css_unit,
}

/// The payload region of the engine's hint object, one variant per
/// payload shape the engine defines for the properties modelled here.
/// An absent string list stands for the engine's null list pointer.
pub enum CssHintData {
    HintStrings(Option<Vec<LwcStringRef>>),
    HintColor(u32),
    HintLength(css_hint_length),
}

/// Spec-level shape of a hint payload.
pub enum CssHintDataView {
    Strings(Option<Seq<Seq<u8>>>),
    Color(u32),
    Length(css_hint_length),
}

impl View for CssHintData {
    type V = CssHintDataView;

    open spec fn view(&self) -> CssHintDataView {
        match self {
            CssHintData::HintStrings(Option::None) => CssHintDataView::Strings(Option::None),
            CssHintData::HintStrings(Option::Some(v)) => CssHintDataView::Strings(
                Option::Some(spec_strings_view(v@)),
            ),
            CssHintData::HintColor(c) => CssHintDataView::Color(*c),
            CssHintData::HintLength(l) => CssHintDataView::Length(*l),
        }
    }
}

/// The engine's hint object: the payload region and, beside it, the
/// status tag as a normal field.
#[allow(non_camel_case_types)]
pub struct css_hint {
    pub data: CssHintData,
    pub status: u8,
}

impl css_hint {
    /// A fresh hint object with an empty payload and a zero tag.
    pub fn new_empty() -> (r: css_hint)
        ensures
            r.data@ == CssHintDataView::Strings(Option::<Seq<Seq<u8>>>::None),
            r.status == 0,
    {
        css_hint { data: CssHintData::HintStrings(Option::None), status: 0 }
    }
}

/// Writes the status tag of a hint object, leaving the payload region
/// untouched.
pub fn set_css_hint_status(llhint: &mut css_hint, status: u8)
    ensures
        final(llhint).status == status,
        final(llhint).data@ == old(llhint).data@,
{
    llhint.status = status;
}

/// A property hint as the caller states it: a font family list with a
/// generic family keyword, an explicit color, the property's defined
/// default, inheritance, or an answer the caller cannot provide.
pub enum CssHint {
    CssHintFontFamily(Vec<LwcStringRef>, CssFontFamily),
    CssHintColor(CssColor),
    CssHintDefault,
    CssHintInherit,
    CssHintUnknown,
}

/// Spec-level shape of a property hint.
pub enum CssHintView {
    FontFamily(Seq<Seq<u8>>, CssFontFamily),
    ColorValue(CssColor),
    Default,
    Inherit,
    Unknown,
}

impl View for CssHint {
    type V = CssHintView;

    open spec fn view(&self) -> CssHintView {
        match self {
            CssHint::CssHintFontFamily(v, f) => CssHintView::FontFamily(spec_strings_view(v@), *f),
            CssHint::CssHintColor(c) => CssHintView::ColorValue(*c),
            CssHint::CssHintDefault => CssHintView::Default,
            CssHint::CssHintInherit => CssHintView::Inherit,
            CssHint::CssHintUnknown => CssHintView::Unknown,
        }
    }
}

/// The packed color the default color hint writes: opaque black.
pub const HINT_DEFAULT_COLOR: u32 = 0xFF000000;

/// The encoding a hint has for a property, when the combination is one
/// the engine defines: the payload and the status tag to write. `None`
/// for every combination with no legal encoding, including an unknown
/// hint and every property without a modelled default.
pub open spec fn spec_write_hint(property: CssProperty, hint: CssHintView) -> Option<
    (CssHintDataView, u8),
> {
    match (property, hint) {
        (CssProperty::CssPropFontFamily, CssHintView::Default) => Option::Some(
            (CssHintDataView::Strings(Option::None), CSS_FONT_FAMILY_SANS_SERIF),
        ),
        (CssProperty::CssPropFontFamily, CssHintView::Inherit) => Option::Some(
            (CssHintDataView::Strings(Option::None), CSS_FONT_FAMILY_INHERIT),
        ),
        (CssProperty::CssPropFontFamily, CssHintView::FontFamily(l, f)) => if f
            != CssFontFamily::CssFontFamilyInherit {
            Option::Some(
                (CssHintDataView::Strings(Option::Some(l)), spec_font_family_code(f)),
            )
        } else {
            Option::None
        },
        (CssProperty::CssPropQuotes, CssHintView::Default) => Option::Some(
            (CssHintDataView::Strings(Option::None), CSS_QUOTES_NONE),
        ),
        (CssProperty::CssPropQuotes, CssHintView::Inherit) => Option::Some(
            (CssHintDataView::Strings(Option::None), CSS_QUOTES_INHERIT),
        ),
        (CssProperty::CssPropColor, CssHintView::Default) => Option::Some(
            (CssHintDataView::Color(HINT_DEFAULT_COLOR), CSS_COLOR_COLOR),
        ),
        (CssProperty::CssPropColor, CssHintView::ColorValue(c)) => Option::Some(
            (CssHintDataView::Color(crate::computed::spec_color_to_ll(c)), CSS_COLOR_COLOR),
        ),
        (CssProperty::CssPropColor, CssHintView::Inherit) => Option::Some(
            (CssHintDataView::Color(0), CSS_COLOR_INHERIT),
        ),
        _ => Option::None,
    }
}

/// The hint a (payload, tag) pair decodes to for a property, when the
/// pair is legal for it; `None` rejects every tag or payload that the
/// property does not define.
pub open spec fn spec_read_hint(property: CssProperty, data: CssHintDataView, status: u8) -> Option<
    CssHintView,
> {
    match (property, data) {
        (CssProperty::CssPropFontFamily, CssHintDataView::Strings(Option::None)) => if status
            == CSS_FONT_FAMILY_INHERIT {
            Option::Some(CssHintView::Inherit)
        } else if status == CSS_FONT_FAMILY_SANS_SERIF {
            Option::Some(CssHintView::Default)
        } else {
            Option::None
        },
        (CssProperty::CssPropFontFamily, CssHintDataView::Strings(Option::Some(l))) => if 1
            <= status <= 5 {
            Option::Some(CssHintView::FontFamily(l, spec_font_family_from_code(status)))
        } else {
            Option::None
        },
        (CssProperty::CssPropQuotes, CssHintDataView::Strings(Option::None)) => if status
            == CSS_QUOTES_INHERIT {
            Option::Some(CssHintView::Inherit)
        } else if status == CSS_QUOTES_NONE {
            Option::Some(CssHintView::Default)
        } else {
            Option::None
        },
        (CssProperty::CssPropColor, CssHintDataView::Color(c)) => if status == CSS_COLOR_INHERIT {
            Option::Some(CssHintView::Inherit)
        } else if status == CSS_COLOR_COLOR && c == HINT_DEFAULT_COLOR {
            Option::Some(CssHintView::Default)
        } else if status == CSS_COLOR_COLOR {
            Option::Some(CssHintView::ColorValue(crate::computed::spec_ll_color_to_hl(c)))
        } else {
            Option::None
        },
        _ => Option::None,
    }
}

/// The generic family a nonzero family tag names.
pub open spec fn spec_font_family_from_code(status: u8) -> CssFontFamily {
    if status == 1 {
        CssFontFamily::CssFontFamilySerif
    } else if status == 2 {
        CssFontFamily::CssFontFamilySansSerif
    } else if status == 3 {
        CssFontFamily::CssFontFamilyCursive
    } else if status == 4 {
        CssFontFamily::CssFontFamilyFantasy
    } else {
        CssFontFamily::CssFontFamilyMonospace
    }
}

impl CssHint {
    /// Writes this hint for the given property into the engine's hint
    /// object: on a combination the engine defines, the payload and tag
    /// are written and the status is `CSS_OK`; on any other combination
    /// the object is left as it was and the status is `CSS_INVALID`.
    pub fn write_to_ll(&self, property: CssProperty, llhint: &mut css_hint) -> (r: css_error)
        ensures
            match spec_write_hint(property, self@) {
                Option::Some((data, status)) => r == CSS_OK && final(llhint).data@ == data
                    && final(llhint).status == status,
                Option::None => r == CSS_INVALID && final(llhint).data@ == old(llhint).data@
                    && final(llhint).status == old(llhint).status,
            },
    {
        match (property, self) {
            (CssProperty::CssPropFontFamily, CssHint::CssHintDefault) => {
                llhint.data = CssHintData::HintStrings(Option::None);
                set_css_hint_status(llhint, CSS_FONT_FAMILY_SANS_SERIF);
                CSS_OK
            },
            (CssProperty::CssPropFontFamily, CssHint::CssHintInherit) => {
                llhint.data = CssHintData::HintStrings(Option::None);
                set_css_hint_status(llhint, CSS_FONT_FAMILY_INHERIT);
                CSS_OK
            },
            (CssProperty::CssPropFontFamily, CssHint::CssHintFontFamily(list, family)) => {
                if matches!(family, CssFontFamily::CssFontFamilyInherit) {
                    CSS_INVALID
                } else {
                    let copied = clone_string_list(list);
                    llhint.data = CssHintData::HintStrings(Option::Some(copied));
                    set_css_hint_status(llhint, family.code());
                    CSS_OK
                }
            },
            (CssProperty::CssPropQuotes, CssHint::CssHintDefault) => {
                llhint.data = CssHintData::HintStrings(Option::None);
                set_css_hint_status(llhint, CSS_QUOTES_NONE);
                CSS_OK
            },
            (CssProperty::CssPropQuotes, CssHint::CssHintInherit) => {
                llhint.data = CssHintData::HintStrings(Option::None);
                set_css_hint_status(llhint, CSS_QUOTES_INHERIT);
                CSS_OK
            },
            (CssProperty::CssPropColor, CssHint::CssHintDefault) => {
                llhint.data = CssHintData::HintColor(HINT_DEFAULT_COLOR);
                set_css_hint_status(llhint, CSS_COLOR_COLOR);
                CSS_OK
            },
            (CssProperty::CssPropColor, CssHint::CssHintColor(c)) => {
                llhint.data = CssHintData::HintColor(crate::computed::hl_color_to_ll_color(*c));
                set_css_hint_status(llhint, CSS_COLOR_COLOR);
                CSS_OK
            },
            (CssProperty::CssPropColor, CssHint::CssHintInherit) => {
                llhint.data = CssHintData::HintColor(0);
                set_css_hint_status(llhint, CSS_COLOR_INHERIT);
                CSS_OK
            },
            _ => CSS_INVALID,
        }
    }

    /// Reads a hint for the given property back out of the engine's hint
    /// object: the decoded hint on a legal (payload, tag) pair, and
    /// `CssInvalid` for every pair the property does not define.
    pub fn read_from_ll(property: CssProperty, llhint: &css_hint) -> (r: CssResult<CssHint>)
        ensures
            match spec_read_hint(property, llhint.data@, llhint.status) {
                Option::Some(h) => r matches Result::Ok(v) && v@ == h,
                Option::None => r == CssResult::<CssHint>::Err(CssError::CssInvalid),
            },
    {
        match (property, &llhint.data) {
            (CssProperty::CssPropFontFamily, CssHintData::HintStrings(Option::None)) => {
                if llhint.status == CSS_FONT_FAMILY_INHERIT {
                    Ok(CssHint::CssHintInherit)
                } else if llhint.status == CSS_FONT_FAMILY_SANS_SERIF {
                    Ok(CssHint::CssHintDefault)
                } else {
                    Err(CssError::CssInvalid)
                }
            },
            (CssProperty::CssPropFontFamily, CssHintData::HintStrings(Option::Some(list))) => {
                if 1 <= llhint.status && llhint.status <= 5 {
                    let family = font_family_from_code(llhint.status);
                    Ok(CssHint::CssHintFontFamily(clone_string_list(list), family))
                } else {
                    Err(CssError::CssInvalid)
                }
            },
            (CssProperty::CssPropQuotes, CssHintData::HintStrings(Option::None)) => {
                if llhint.status == CSS_QUOTES_INHERIT {
                    Ok(CssHint::CssHintInherit)
                } else if llhint.status == CSS_QUOTES_NONE {
                    Ok(CssHint::CssHintDefault)
                } else {
                    Err(CssError::CssInvalid)
                }
            },
            (CssProperty::CssPropColor, CssHintData::HintColor(c)) => {
                if llhint.status == CSS_COLOR_INHERIT {
                    Ok(CssHint::CssHintInherit)
                } else if llhint.status == CSS_COLOR_COLOR && *c == HINT_DEFAULT_COLOR {
                    Ok(CssHint::CssHintDefault)
                } else if llhint.status == CSS_COLOR_COLOR {
                    Ok(CssHint::CssHintColor(crate::computed::ll_color_to_hl_color(*c)))
                } else {
                    Err(CssError::CssInvalid)
                }
            },
            _ => Err(CssError::CssInvalid),
        }
    }
}

/// The generic family a nonzero family tag names.
fn font_family_from_code(status: u8) -> (r: CssFontFamily)
    requires
        1 <= status <= 5,
    ensures
        r == spec_font_family_from_code(status),
{
    if status == 1 {
        CssFontFamily::CssFontFamilySerif
    } else if status == 2 {
        CssFontFamily::CssFontFamilySansSerif
    } else if status == 3 {
        CssFontFamily::CssFontFamilyCursive
    } else if status == 4 {
        CssFontFamily::CssFontFamilyFantasy
    } else {
        CssFontFamily::CssFontFamilyMonospace
    }
}

/// Copies a list of interned string handles, preserving each string.
fn clone_string_list(list: &Vec<LwcStringRef>) -> (r: Vec<LwcStringRef>)
    ensures
        spec_strings_view(r@) == spec_strings_view(list@),
{
    let mut out: Vec<LwcStringRef> = Vec::new();
    let n = list.len();
    let mut i: usize = 0;
    while i < n
        invariant
            n == list@.len(),
            i <= n,
            out@.len() == i,
            forall|j: int| 0 <= j < i ==> out@[j]@ == list@[j]@,
        decreases n - i,
    {
        out.push(list[i].clone());
        i = i + 1;
    }
    proof {
        assert(spec_strings_view(out@) =~= spec_strings_view(list@));
    }
    out
}

/// Encoding then decoding a hint for a property gives the hint back: for
/// every property with a modelled default and for both the default and
/// the inherit hint, the round trip through the engine's hint object is
/// the identity.
pub proof fn lemma_hint_round_trip(property: CssProperty, hint: CssHintView)
    requires
        property == CssProperty::CssPropColor || property == CssProperty::CssPropQuotes || property
            == CssProperty::CssPropFontFamily,
        hint == CssHintView::Default || hint == CssHintView::Inherit,
    ensures
        spec_write_hint(property, hint) is Some,
        spec_read_hint(
            property,
            spec_write_hint(property, hint)->Some_0.0,
            spec_write_hint(property, hint)->Some_0.1,
        ) == Some(hint),
{
}

/// The same round trip for a concrete font family list: encoding a
/// family-list hint and decoding it back preserves both the list and the
/// generic family keyword.
pub proof fn lemma_hint_round_trip_family(list: Seq<Seq<u8>>, family: CssFontFamily)
    requires
        family != CssFontFamily::CssFontFamilyInherit,
    ensures
        spec_write_hint(CssProperty::CssPropFontFamily, CssHintView::FontFamily(list, family))
            is Some,
        spec_read_hint(
            CssProperty::CssPropFontFamily,
            spec_write_hint(
                CssProperty::CssPropFontFamily,
                CssHintView::FontFamily(list, family),
            )->Some_0.0,
            spec_write_hint(
                CssProperty::CssPropFontFamily,
                CssHintView::FontFamily(list, family),
            )->Some_0.1,
        ) == Some(CssHintView::FontFamily(list, family)),
{
}

/// The same round trip for an explicit color hint: any color other than
/// the one the default stands for encodes and decodes back to itself.
pub proof fn lemma_hint_round_trip_color(c: crate::types::CssColor)
    requires
        crate::computed::spec_color_to_ll(c) != HINT_DEFAULT_COLOR,
    ensures
        spec_write_hint(CssProperty::CssPropColor, CssHintView::ColorValue(c)) is Some,
        spec_read_hint(
            CssProperty::CssPropColor,
            spec_write_hint(CssProperty::CssPropColor, CssHintView::ColorValue(c))->Some_0.0,
            spec_write_hint(CssProperty::CssPropColor, CssHintView::ColorValue(c))->Some_0.1,
        ) == Some(CssHintView::ColorValue(c)),
{
    crate::computed::lemma_color_pack_round_trip(c);
}

} // verus!
