//! CSS property identifiers and the per-property value enumerations the
//! engine reports, together with their numeric encodings.
//!
//! A property identifier travels across the engine boundary as a `u32`
//! code; the hint codec interprets a status tag only in conjunction with
//! the property the hint answers, so the identifier space is part of the
//! codec's contract.

use vstd::prelude::*;

verus! {

use crate::types::CssColor;

/// A CSS property the engine can ask about or report on.
#[derive(Clone, Copy, Debug, PartialEq, Eq, Structural)]
pub enum CssProperty {
    CssPropAzimuth,
    CssPropBackgroundAttachment,
    CssPropBackgroundColor,
    CssPropBackgroundImage,
    CssPropBackgroundPosition,
    CssPropBackgroundRepeat,
    CssPropBorderCollapse,
    CssPropBorderSpacing,
    CssPropBorderTopColor,
    CssPropBorderRightColor,
    CssPropBorderBottomColor,
    CssPropBorderLeftColor,
    CssPropBorderTopStyle,
    CssPropBorderRightStyle,
    CssPropBorderBottomStyle,
    CssPropBorderLeftStyle,
    CssPropBorderTopWidth,
    CssPropBorderRightWidth,
    CssPropBorderBottomWidth,
    CssPropBorderLeftWidth,
    CssPropBottom,
    CssPropCaptionSide,
    CssPropClear,
    CssPropClip,
    CssPropColor,
    CssPropContent,
    CssPropCounterIncrement,
    CssPropCounterReset,
    CssPropCueAfter,
    CssPropCueBefore,
    CssPropCursor,
    CssPropDirection,
    CssPropDisplay,
    CssPropElevation,
    CssPropEmptyCells,
    CssPropFloat,
    CssPropFontFamily,
    CssPropFontSize,
    CssPropFontStyle,
    CssPropFontVariant,
    CssPropFontWeight,
    CssPropHeight,
    CssPropLeft,
    CssPropLetterSpacing,
    CssPropLineHeight,
    CssPropListStyleImage,
    CssPropListStylePosition,
    CssPropListStyleType,
    CssPropMarginTop,
    CssPropMarginRight,
    CssPropMarginBottom,
    CssPropMarginLeft,
    CssPropMaxHeight,
    CssPropMaxWidth,
    CssPropMinHeight,
    CssPropMinWidth,
    CssPropOrphans,
    CssPropOutlineColor,
    CssPropOutlineStyle,
    CssPropOutlineWidth,
    CssPropOverflow,
    CssPropPaddingTop,
    CssPropPaddingRight,
    CssPropPaddingBottom,
    CssPropPaddingLeft,
    CssPropPageBreakAfter,
    CssPropPageBreakBefore,
    CssPropPageBreakInside,
    CssPropPauseAfter,
    CssPropPauseBefore,
    CssPropPitchRange,
    CssPropPitch,
    CssPropPlayDuring,
    CssPropPosition,
    CssPropQuotes,
    CssPropRichness,
    CssPropRight,
    CssPropSpeakHeader,
    CssPropSpeakNumeral,
    CssPropSpeakPunctuation,
    CssPropSpeak,
    CssPropSpeechRate,
    CssPropStress,
    CssPropTableLayout,
    CssPropTextAlign,
    CssPropTextDecoration,
    CssPropTextIndent,
    CssPropTextTransform,
    CssPropTop,
    CssPropUnicodeBidi,
    CssPropVerticalAlign,
    CssPropVisibility,
    CssPropVoiceFamily,
    CssPropVolume,
    CssPropWhiteSpace,
    CssPropWidows,
    CssPropWidth,
    CssPropWordSpacing,
    CssPropZIndex,
    CssPropOpacity,
    CssPropBreakAfter,
    CssPropBreakBefore,
    CssPropBreakInside,
    CssPropColumnCount,
    CssPropColumnFill,
    CssPropColumnGap,
    CssPropColumnRuleColor,
    CssPropColumnRuleStyle,
    CssPropColumnRuleWidth,
    CssPropColumnSpan,
    CssPropColumnWidth,
}

/// The number of defined property identifiers; codes run from 0 to one
/// below this bound.
pub const CSS_N_PROPERTIES: u32 = 111;

/// The numeric code the engine uses for a property.
pub open spec fn spec_property_code(p: CssProperty) -> u32 {
    match p {
        CssProperty::CssPropAzimuth => 0x000,
        CssProperty::CssPropBackgroundAttachment => 0x001,
        CssProperty::CssPropBackgroundColor => 0x002,
        CssProperty::CssPropBackgroundImage => 0x003,
        CssProperty::CssPropBackgroundPosition => 0x004,
        CssProperty::CssPropBackgroundRepeat => 0x005,
        CssProperty::CssPropBorderCollapse => 0x006,
        CssProperty::CssPropBorderSpacing => 0x007,
        CssProperty::CssPropBorderTopColor => 0x008,
        CssProperty::CssPropBorderRightColor => 0x009,
        CssProperty::CssPropBorderBottomColor => 0x00a,
        CssProperty::CssPropBorderLeftColor => 0x00b,
        CssProperty::CssPropBorderTopStyle => 0x00c,
        CssProperty::CssPropBorderRightStyle => 0x00d,
        CssProperty::CssPropBorderBottomStyle => 0x00e,
        CssProperty::CssPropBorderLeftStyle => 0x00f,
        CssProperty::CssPropBorderTopWidth => 0x010,
        CssProperty::CssPropBorderRightWidth => 0x011,
        CssProperty::CssPropBorderBottomWidth => 0x012,
        CssProperty::CssPropBorderLeftWidth => 0x013,
        CssProperty::CssPropBottom => 0x014,
        CssProperty::CssPropCaptionSide => 0x015,
        CssProperty::CssPropClear => 0x016,
        CssProperty::CssPropClip => 0x017,
        CssProperty::CssPropColor => 0x018,
        CssProperty::CssPropContent => 0x019,
        CssProperty::CssPropCounterIncrement => 0x01a,
        CssProperty::CssPropCounterReset => 0x01b,
        CssProperty::CssPropCueAfter => 0x01c,
        CssProperty::CssPropCueBefore => 0x01d,
        CssProperty::CssPropCursor => 0x01e,
        CssProperty::CssPropDirection => 0x01f,
        CssProperty::CssPropDisplay => 0x020,
        CssProperty::CssPropElevation => 0x021,
        CssProperty::CssPropEmptyCells => 0x022,
        CssProperty::CssPropFloat => 0x023,
        CssProperty::CssPropFontFamily => 0x024,
        CssProperty::CssPropFontSize => 0x025,
        CssProperty::CssPropFontStyle => 0x026,
        CssProperty::CssPropFontVariant => 0x027,
        CssProperty::CssPropFontWeight => 0x028,
        CssProperty::CssPropHeight => 0x029,
        CssProperty::CssPropLeft => 0x02a,
        CssProperty::CssPropLetterSpacing => 0x02b,
        CssProperty::CssPropLineHeight => 0x02c,
        CssProperty::CssPropListStyleImage => 0x02d,
        CssProperty::CssPropListStylePosition => 0x02e,
        CssProperty::CssPropListStyleType => 0x02f,
        CssProperty::CssPropMarginTop => 0x030,
        CssProperty::CssPropMarginRight => 0x031,
        CssProperty::CssPropMarginBottom => 0x032,
        CssProperty::CssPropMarginLeft => 0x033,
        CssProperty::CssPropMaxHeight => 0x034,
        CssProperty::CssPropMaxWidth => 0x035,
        CssProperty::CssPropMinHeight => 0x036,
        CssProperty::CssPropMinWidth => 0x037,
        CssProperty::CssPropOrphans => 0x038,
        CssProperty::CssPropOutlineColor => 0x039,
        CssProperty::CssPropOutlineStyle => 0x03a,
        CssProperty::CssPropOutlineWidth => 0x03b,
        CssProperty::CssPropOverflow => 0x03c,
        CssProperty::CssPropPaddingTop => 0x03d,
        CssProperty::CssPropPaddingRight => 0x03e,
        CssProperty::CssPropPaddingBottom => 0x03f,
        CssProperty::CssPropPaddingLeft => 0x040,
        CssProperty::CssPropPageBreakAfter => 0x041,
        CssProperty::CssPropPageBreakBefore => 0x042,
        CssProperty::CssPropPageBreakInside => 0x043,
        CssProperty::CssPropPauseAfter => 0x044,
        CssProperty::CssPropPauseBefore => 0x045,
        CssProperty::CssPropPitchRange => 0x046,
        CssProperty::CssPropPitch => 0x047,
        CssProperty::CssPropPlayDuring => 0x048,
        CssProperty::CssPropPosition => 0x049,
        CssProperty::CssPropQuotes => 0x04a,
        CssProperty::CssPropRichness => 0x04b,
        CssProperty::CssPropRight => 0x04c,
        CssProperty::CssPropSpeakHeader => 0x04d,
        CssProperty::CssPropSpeakNumeral => 0x04e,
        CssProperty::CssPropSpeakPunctuation => 0x04f,
        CssProperty::CssPropSpeak => 0x050,
        CssProperty::CssPropSpeechRate => 0x051,
        CssProperty::CssPropStress => 0x052,
        CssProperty::CssPropTableLayout => 0x053,
        CssProperty::CssPropTextAlign => 0x054,
        CssProperty::CssPropTextDecoration => 0x055,
        CssProperty::CssPropTextIndent => 0x056,
        CssProperty::CssPropTextTransform => 0x057,
        CssProperty::CssPropTop => 0x058,
        CssProperty::CssPropUnicodeBidi => 0x059,
        CssProperty::CssPropVerticalAlign => 0x05a,
        CssProperty::CssPropVisibility => 0x05b,
        CssProperty::CssPropVoiceFamily => 0x05c,
        CssProperty::CssPropVolume => 0x05d,
        CssProperty::CssPropWhiteSpace => 0x05e,
        CssProperty::CssPropWidows => 0x05f,
        CssProperty::CssPropWidth => 0x060,
        CssProperty::CssPropWordSpacing => 0x061,
        CssProperty::CssPropZIndex => 0x062,
        CssProperty::CssPropOpacity => 0x063,
        CssProperty::CssPropBreakAfter => 0x064,
        CssProperty::CssPropBreakBefore => 0x065,
        CssProperty::CssPropBreakInside => 0x066,
        CssProperty::CssPropColumnCount => 0x067,
        CssProperty::CssPropColumnFill => 0x068,
        CssProperty::CssPropColumnGap => 0x069,
        CssProperty::CssPropColumnRuleColor => 0x06a,
        CssProperty::CssPropColumnRuleStyle => 0x06b,
        CssProperty::CssPropColumnRuleWidth => 0x06c,
        CssProperty::CssPropColumnSpan => 0x06d,
        CssProperty::CssPropColumnWidth => 0x06e,
    }
}

impl CssProperty {
    /// The numeric code the engine uses for this property.
    pub fn code(&self) -> (r: u32)
        ensures
            r == spec_property_code(*self),
    {
        match self {
            CssProperty::CssPropAzimuth => 0x000,
            CssProperty::CssPropBackgroundAttachment => 0x001,
            CssProperty::CssPropBackgroundColor => 0x002,
            CssProperty::CssPropBackgroundImage => 0x003,
            CssProperty::CssPropBackgroundPosition => 0x004,
            CssProperty::CssPropBackgroundRepeat => 0x005,
            CssProperty::CssPropBorderCollapse => 0x006,
            CssProperty::CssPropBorderSpacing => 0x007,
            CssProperty::CssPropBorderTopColor => 0x008,
            CssProperty::CssPropBorderRightColor => 0x009,
            CssProperty::CssPropBorderBottomColor => 0x00a,
            CssProperty::CssPropBorderLeftColor => 0x00b,
            CssProperty::CssPropBorderTopStyle => 0x00c,
            CssProperty::CssPropBorderRightStyle => 0x00d,
            CssProperty::CssPropBorderBottomStyle => 0x00e,
            CssProperty::CssPropBorderLeftStyle => 0x00f,
            CssProperty::CssPropBorderTopWidth => 0x010,
            CssProperty::CssPropBorderRightWidth => 0x011,
            CssProperty::CssPropBorderBottomWidth => 0x012,
            CssProperty::CssPropBorderLeftWidth => 0x013,
            CssProperty::CssPropBottom => 0x014,
            CssProperty::CssPropCaptionSide => 0x015,
            CssProperty::CssPropClear => 0x016,
            CssProperty::CssPropClip => 0x017,
            CssProperty::CssPropColor => 0x018,
            CssProperty::CssPropContent => 0x019,
            CssProperty::CssPropCounterIncrement => 0x01a,
            CssProperty::CssPropCounterReset => 0x01b,
            CssProperty::CssPropCueAfter => 0x01c,
            CssProperty::CssPropCueBefore => 0x01d,
            CssProperty::CssPropCursor => 0x01e,
            CssProperty::CssPropDirection => 0x01f,
            CssProperty::CssPropDisplay => 0x020,
            CssProperty::CssPropElevation => 0x021,
            CssProperty::CssPropEmptyCells => 0x022,
            CssProperty::CssPropFloat => 0x023,
            CssProperty::CssPropFontFamily => 0x024,
            CssProperty::CssPropFontSize => 0x025,
            CssProperty::CssPropFontStyle => 0x026,
            CssProperty::CssPropFontVariant => 0x027,
            CssProperty::CssPropFontWeight => 0x028,
            CssProperty::CssPropHeight => 0x029,
            CssProperty::CssPropLeft => 0x02a,
            CssProperty::CssPropLetterSpacing => 0x02b,
            CssProperty::CssPropLineHeight => 0x02c,
            CssProperty::CssPropListStyleImage => 0x02d,
            CssProperty::CssPropListStylePosition => 0x02e,
            CssProperty::CssPropListStyleType => 0x02f,
            CssProperty::CssPropMarginTop => 0x030,
            CssProperty::CssPropMarginRight => 0x031,
            CssProperty::CssPropMarginBottom => 0x032,
            CssProperty::CssPropMarginLeft => 0x033,
            CssProperty::CssPropMaxHeight => 0x034,
            CssProperty::CssPropMaxWidth => 0x035,
            CssProperty::CssPropMinHeight => 0x036,
            CssProperty::CssPropMinWidth => 0x037,
            CssProperty::CssPropOrphans => 0x038,
            CssProperty::CssPropOutlineColor => 0x039,
            CssProperty::CssPropOutlineStyle => 0x03a,
            CssProperty::CssPropOutlineWidth => 0x03b,
            CssProperty::CssPropOverflow => 0x03c,
            CssProperty::CssPropPaddingTop => 0x03d,
            CssProperty::CssPropPaddingRight => 0x03e,
            CssProperty::CssPropPaddingBottom => 0x03f,
            CssProperty::CssPropPaddingLeft => 0x040,
            CssProperty::CssPropPageBreakAfter => 0x041,
            CssProperty::CssPropPageBreakBefore => 0x042,
            CssProperty::CssPropPageBreakInside => 0x043,
            CssProperty::CssPropPauseAfter => 0x044,
            CssProperty::CssPropPauseBefore => 0x045,
            CssProperty::CssPropPitchRange => 0x046,
            CssProperty::CssPropPitch => 0x047,
            CssProperty::CssPropPlayDuring => 0x048,
            CssProperty::CssPropPosition => 0x049,
            CssProperty::CssPropQuotes => 0x04a,
            CssProperty::CssPropRichness => 0x04b,
            CssProperty::CssPropRight => 0x04c,
            CssProperty::CssPropSpeakHeader => 0x04d,
            CssProperty::CssPropSpeakNumeral => 0x04e,
            CssProperty::CssPropSpeakPunctuation => 0x04f,
            CssProperty::CssPropSpeak => 0x050,
            CssProperty::CssPropSpeechRate => 0x051,
            CssProperty::CssPropStress => 0x052,
            CssProperty::CssPropTableLayout => 0x053,
            CssProperty::CssPropTextAlign => 0x054,
            CssProperty::CssPropTextDecoration => 0x055,
            CssProperty::CssPropTextIndent => 0x056,
            CssProperty::CssPropTextTransform => 0x057,
            CssProperty::CssPropTop => 0x058,
            CssProperty::CssPropUnicodeBidi => 0x059,
            CssProperty::CssPropVerticalAlign => 0x05a,
            CssProperty::CssPropVisibility => 0x05b,
            CssProperty::CssPropVoiceFamily => 0x05c,
            CssProperty::CssPropVolume => 0x05d,
            CssProperty::CssPropWhiteSpace => 0x05e,
            CssProperty::CssPropWidows => 0x05f,
            CssProperty::CssPropWidth => 0x060,
            CssProperty::CssPropWordSpacing => 0x061,
            CssProperty::CssPropZIndex => 0x062,
            CssProperty::CssPropOpacity => 0x063,
            CssProperty::CssPropBreakAfter => 0x064,
            CssProperty::CssPropBreakBefore => 0x065,
            CssProperty::CssPropBreakInside => 0x066,
            CssProperty::CssPropColumnCount => 0x067,
            CssProperty::CssPropColumnFill => 0x068,
            CssProperty::CssPropColumnGap => 0x069,
            CssProperty::CssPropColumnRuleColor => 0x06a,
            CssProperty::CssPropColumnRuleStyle => 0x06b,
            CssProperty::CssPropColumnRuleWidth => 0x06c,
            CssProperty::CssPropColumnSpan => 0x06d,
            CssProperty::CssPropColumnWidth => 0x06e,
        }
    }
}


/// The property a numeric code names, as a spec-level inverse of
/// `spec_property_code`; codes at or above `CSS_N_PROPERTIES` name no
/// property and fall to an arbitrary fixed one.
pub open spec fn spec_property_from_uint(code: u32) -> CssProperty {
    if code == 0x000 {
        CssProperty::CssPropAzimuth
    } else if code == 0x001 {
        CssProperty::CssPropBackgroundAttachment
    } else if code == 0x002 {
        CssProperty::CssPropBackgroundColor
    } else if code == 0x003 {
        CssProperty::CssPropBackgroundImage
    } else if code == 0x004 {
        CssProperty::CssPropBackgroundPosition
    } else if code == 0x005 {
        CssProperty::CssPropBackgroundRepeat
    } else if code == 0x006 {
        CssProperty::CssPropBorderCollapse
    } else if code == 0x007 {
        CssProperty::CssPropBorderSpacing
    } else if code == 0x008 {
        CssProperty::CssPropBorderTopColor
    } else if code == 0x009 {
        CssProperty::CssPropBorderRightColor
    } else if code == 0x00a {
        CssProperty::CssPropBorderBottomColor
    } else if code == 0x00b {
        CssProperty::CssPropBorderLeftColor
    } else if code == 0x00c {
        CssProperty::CssPropBorderTopStyle
    } else if code == 0x00d {
        CssProperty::CssPropBorderRightStyle
    } else if code == 0x00e {
        CssProperty::CssPropBorderBottomStyle
    } else if code == 0x00f {
        CssProperty::CssPropBorderLeftStyle
    } else if code == 0x010 {
        CssProperty::CssPropBorderTopWidth
    } else if code == 0x011 {
        CssProperty::CssPropBorderRightWidth
    } else if code == 0x012 {
        CssProperty::CssPropBorderBottomWidth
    } else if code == 0x013 {
        CssProperty::CssPropBorderLeftWidth
    } else if code == 0x014 {
        CssProperty::CssPropBottom
    } else if code == 0x015 {
        CssProperty::CssPropCaptionSide
    } else if code == 0x016 {
        CssProperty::CssPropClear
    } else if code == 0x017 {
        CssProperty::CssPropClip
    } else if code == 0x018 {
        CssProperty::CssPropColor
    } else if code == 0x019 {
        CssProperty::CssPropContent
    } else if code == 0x01a {
        CssProperty::CssPropCounterIncrement
    } else if code == 0x01b {
        CssProperty::CssPropCounterReset
    } else if code == 0x01c {
        CssProperty::CssPropCueAfter
    } else if code == 0x01d {
        CssProperty::CssPropCueBefore
    } else if code == 0x01e {
        CssProperty::CssPropCursor
    } else if code == 0x01f {
        CssProperty::CssPropDirection
    } else if code == 0x020 {
        CssProperty::CssPropDisplay
    } else if code == 0x021 {
        CssProperty::CssPropElevation
    } else if code == 0x022 {
        CssProperty::CssPropEmptyCells
    } else if code == 0x023 {
        CssProperty::CssPropFloat
    } else if code == 0x024 {
        CssProperty::CssPropFontFamily
    } else if code == 0x025 {
        CssProperty::CssPropFontSize
    } else if code == 0x026 {
        CssProperty::CssPropFontStyle
    } else if code == 0x027 {
        CssProperty::CssPropFontVariant
    } else if code == 0x028 {
        CssProperty::CssPropFontWeight
    } else if code == 0x029 {
        CssProperty::CssPropHeight
    } else if code == 0x02a {
        CssProperty::CssPropLeft
    } else if code == 0x02b {
        CssProperty::CssPropLetterSpacing
    } else if code == 0x02c {
        CssProperty::CssPropLineHeight
    } else if code == 0x02d {
        CssProperty::CssPropListStyleImage
    } else if code == 0x02e {
        CssProperty::CssPropListStylePosition
    } else if code == 0x02f {
        CssProperty::CssPropListStyleType
    } else if code == 0x030 {
        CssProperty::CssPropMarginTop
    } else if code == 0x031 {
        CssProperty::CssPropMarginRight
    } else if code == 0x032 {
        CssProperty::CssPropMarginBottom
    } else if code == 0x033 {
        CssProperty::CssPropMarginLeft
    } else if code == 0x034 {
        CssProperty::CssPropMaxHeight
    } else if code == 0x035 {
        CssProperty::CssPropMaxWidth
    } else if code == 0x036 {
        CssProperty::CssPropMinHeight
    } else if code == 0x037 {
        CssProperty::CssPropMinWidth
    } else if code == 0x038 {
        CssProperty::CssPropOrphans
    } else if code == 0x039 {
        CssProperty::CssPropOutlineColor
    } else if code == 0x03a {
        CssProperty::CssPropOutlineStyle
    } else if code == 0x03b {
        CssProperty::CssPropOutlineWidth
    } else if code == 0x03c {
        CssProperty::CssPropOverflow
    } else if code == 0x03d {
        CssProperty::CssPropPaddingTop
    } else if code == 0x03e {
        CssProperty::CssPropPaddingRight
    } else if code == 0x03f {
        CssProperty::CssPropPaddingBottom
    } else if code == 0x040 {
        CssProperty::CssPropPaddingLeft
    } else if code == 0x041 {
        CssProperty::CssPropPageBreakAfter
    } else if code == 0x042 {
        CssProperty::CssPropPageBreakBefore
    } else if code == 0x043 {
        CssProperty::CssPropPageBreakInside
    } else if code == 0x044 {
        CssProperty::CssPropPauseAfter
    } else if code == 0x045 {
        CssProperty::CssPropPauseBefore
    } else if code == 0x046 {
        CssProperty::CssPropPitchRange
    } else if code == 0x047 {
        CssProperty::CssPropPitch
    } else if code == 0x048 {
        CssProperty::CssPropPlayDuring
    } else if code == 0x049 {
        CssProperty::CssPropPosition
    } else if code == 0x04a {
        CssProperty::CssPropQuotes
    } else if code == 0x04b {
        CssProperty::CssPropRichness
    } else if code == 0x04c {
        CssProperty::CssPropRight
    } else if code == 0x04d {
        CssProperty::CssPropSpeakHeader
    } else if code == 0x04e {
        CssProperty::CssPropSpeakNumeral
    } else if code == 0x04f {
        CssProperty::CssPropSpeakPunctuation
    } else if code == 0x050 {
        CssProperty::CssPropSpeak
    } else if code == 0x051 {
        CssProperty::CssPropSpeechRate
    } else if code == 0x052 {
        CssProperty::CssPropStress
    } else if code == 0x053 {
        CssProperty::CssPropTableLayout
    } else if code == 0x054 {
        CssProperty::CssPropTextAlign
    } else if code == 0x055 {
        CssProperty::CssPropTextDecoration
    } else if code == 0x056 {
        CssProperty::CssPropTextIndent
    } else if code == 0x057 {
        CssProperty::CssPropTextTransform
    } else if code == 0x058 {
        CssProperty::CssPropTop
    } else if code == 0x059 {
        CssProperty::CssPropUnicodeBidi
    } else if code == 0x05a {
        CssProperty::CssPropVerticalAlign
    } else if code == 0x05b {
        CssProperty::CssPropVisibility
    } else if code == 0x05c {
        CssProperty::CssPropVoiceFamily
    } else if code == 0x05d {
        CssProperty::CssPropVolume
    } else if code == 0x05e {
        CssProperty::CssPropWhiteSpace
    } else if code == 0x05f {
        CssProperty::CssPropWidows
    } else if code == 0x060 {
        CssProperty::CssPropWidth
    } else if code == 0x061 {
        CssProperty::CssPropWordSpacing
    } else if code == 0x062 {
        CssProperty::CssPropZIndex
    } else if code == 0x063 {
        CssProperty::CssPropOpacity
    } else if code == 0x064 {
        CssProperty::CssPropBreakAfter
    } else if code == 0x065 {
        CssProperty::CssPropBreakBefore
    } else if code == 0x066 {
        CssProperty::CssPropBreakInside
    } else if code == 0x067 {
        CssProperty::CssPropColumnCount
    } else if code == 0x068 {
        CssProperty::CssPropColumnFill
    } else if code == 0x069 {
        CssProperty::CssPropColumnGap
    } else if code == 0x06a {
        CssProperty::CssPropColumnRuleColor
    } else if code == 0x06b {
        CssProperty::CssPropColumnRuleStyle
    } else if code == 0x06c {
        CssProperty::CssPropColumnRuleWidth
    } else if code == 0x06d {
        CssProperty::CssPropColumnSpan
    } else if code == 0x06e {
        CssProperty::CssPropColumnWidth
    } else {
        CssProperty::CssPropColumnWidth
    }
}

/// The property a numeric code names. Every code below
/// `CSS_N_PROPERTIES` names exactly one property; the engine never hands
/// back a code outside that range.
pub fn property_from_uint(property: u32) -> (r: CssProperty)
    requires
        property < CSS_N_PROPERTIES,
    ensures
        spec_property_code(r) == property,
        r == spec_property_from_uint(property),
{
    match property {
        0x000 => CssProperty::CssPropAzimuth,
        0x001 => CssProperty::CssPropBackgroundAttachment,
        0x002 => CssProperty::CssPropBackgroundColor,
        0x003 => CssProperty::CssPropBackgroundImage,
        0x004 => CssProperty::CssPropBackgroundPosition,
        0x005 => CssProperty::CssPropBackgroundRepeat,
        0x006 => CssProperty::CssPropBorderCollapse,
        0x007 => CssProperty::CssPropBorderSpacing,
        0x008 => CssProperty::CssPropBorderTopColor,
        0x009 => CssProperty::CssPropBorderRightColor,
        0x00a => CssProperty::CssPropBorderBottomColor,
        0x00b => CssProperty::CssPropBorderLeftColor,
        0x00c => CssProperty::CssPropBorderTopStyle,
        0x00d => CssProperty::CssPropBorderRightStyle,
        0x00e => CssProperty::CssPropBorderBottomStyle,
        0x00f => CssProperty::CssPropBorderLeftStyle,
        0x010 => CssProperty::CssPropBorderTopWidth,
        0x011 => CssProperty::CssPropBorderRightWidth,
        0x012 => CssProperty::CssPropBorderBottomWidth,
        0x013 => CssProperty::CssPropBorderLeftWidth,
        0x014 => CssProperty::CssPropBottom,
        0x015 => CssProperty::CssPropCaptionSide,
        0x016 => CssProperty::CssPropClear,
        0x017 => CssProperty::CssPropClip,
        0x018 => CssProperty::CssPropColor,
        0x019 => CssProperty::CssPropContent,
        0x01a => CssProperty::CssPropCounterIncrement,
        0x01b => CssProperty::CssPropCounterReset,
        0x01c => CssProperty::CssPropCueAfter,
        0x01d => CssProperty::CssPropCueBefore,
        0x01e => CssProperty::CssPropCursor,
        0x01f => CssProperty::CssPropDirection,
        0x020 => CssProperty::CssPropDisplay,
        0x021 => CssProperty::CssPropElevation,
        0x022 => CssProperty::CssPropEmptyCells,
        0x023 => CssProperty::CssPropFloat,
        0x024 => CssProperty::CssPropFontFamily,
        0x025 => CssProperty::CssPropFontSize,
        0x026 => CssProperty::CssPropFontStyle,
        0x027 => CssProperty::CssPropFontVariant,
        0x028 => CssProperty::CssPropFontWeight,
        0x029 => CssProperty::CssPropHeight,
        0x02a => CssProperty::CssPropLeft,
        0x02b => CssProperty::CssPropLetterSpacing,
        0x02c => CssProperty::CssPropLineHeight,
        0x02d => CssProperty::CssPropListStyleImage,
        0x02e => CssProperty::CssPropListStylePosition,
        0x02f => CssProperty::CssPropListStyleType,
        0x030 => CssProperty::CssPropMarginTop,
        0x031 => CssProperty::CssPropMarginRight,
        0x032 => CssProperty::CssPropMarginBottom,
        0x033 => CssProperty::CssPropMarginLeft,
        0x034 => CssProperty::CssPropMaxHeight,
        0x035 => CssProperty::CssPropMaxWidth,
        0x036 => CssProperty::CssPropMinHeight,
        0x037 => CssProperty::CssPropMinWidth,
        0x038 => CssProperty::CssPropOrphans,
        0x039 => CssProperty::CssPropOutlineColor,
        0x03a => CssProperty::CssPropOutlineStyle,
        0x03b => CssProperty::CssPropOutlineWidth,
        0x03c => CssProperty::CssPropOverflow,
        0x03d => CssProperty::CssPropPaddingTop,
        0x03e => CssProperty::CssPropPaddingRight,
        0x03f => CssProperty::CssPropPaddingBottom,
        0x040 => CssProperty::CssPropPaddingLeft,
        0x041 => CssProperty::CssPropPageBreakAfter,
        0x042 => CssProperty::CssPropPageBreakBefore,
        0x043 => CssProperty::CssPropPageBreakInside,
        0x044 => CssProperty::CssPropPauseAfter,
        0x045 => CssProperty::CssPropPauseBefore,
        0x046 => CssProperty::CssPropPitchRange,
        0x047 => CssProperty::CssPropPitch,
        0x048 => CssProperty::CssPropPlayDuring,
        0x049 => CssProperty::CssPropPosition,
        0x04a => CssProperty::CssPropQuotes,
        0x04b => CssProperty::CssPropRichness,
        0x04c => CssProperty::CssPropRight,
        0x04d => CssProperty::CssPropSpeakHeader,
        0x04e => CssProperty::CssPropSpeakNumeral,
        0x04f => CssProperty::CssPropSpeakPunctuation,
        0x050 => CssProperty::CssPropSpeak,
        0x051 => CssProperty::CssPropSpeechRate,
        0x052 => CssProperty::CssPropStress,
        0x053 => CssProperty::CssPropTableLayout,
        0x054 => CssProperty::CssPropTextAlign,
        0x055 => CssProperty::CssPropTextDecoration,
        0x056 => CssProperty::CssPropTextIndent,
        0x057 => CssProperty::CssPropTextTransform,
        0x058 => CssProperty::CssPropTop,
        0x059 => CssProperty::CssPropUnicodeBidi,
        0x05a => CssProperty::CssPropVerticalAlign,
        0x05b => CssProperty::CssPropVisibility,
        0x05c => CssProperty::CssPropVoiceFamily,
        0x05d => CssProperty::CssPropVolume,
        0x05e => CssProperty::CssPropWhiteSpace,
        0x05f => CssProperty::CssPropWidows,
        0x060 => CssProperty::CssPropWidth,
        0x061 => CssProperty::CssPropWordSpacing,
        0x062 => CssProperty::CssPropZIndex,
        0x063 => CssProperty::CssPropOpacity,
        0x064 => CssProperty::CssPropBreakAfter,
        0x065 => CssProperty::CssPropBreakBefore,
        0x066 => CssProperty::CssPropBreakInside,
        0x067 => CssProperty::CssPropColumnCount,
        0x068 => CssProperty::CssPropColumnFill,
        0x069 => CssProperty::CssPropColumnGap,
        0x06a => CssProperty::CssPropColumnRuleColor,
        0x06b => CssProperty::CssPropColumnRuleStyle,
        0x06c => CssProperty::CssPropColumnRuleWidth,
        0x06d => CssProperty::CssPropColumnSpan,
        0x06e => CssProperty::CssPropColumnWidth,
        _ => CssProperty::CssPropColumnWidth,
    }
}

/// Answer of a computed-color query: inherited, or an explicit color.
#[derive(Clone, Copy, Debug, PartialEq, Eq, Structural)]
pub enum CssColorProp {
    CssColorInherit,
    CssColorValue(CssColor),
}

/// Font style keyword.
#[derive(Clone, Copy, Debug, PartialEq, Eq, Structural)]
pub enum CssFontStyle {
    CssFontStyleInherit,
    CssFontStyleNormal,
    CssFontStyleItalic,
    CssFontStyleOblique,
}

/// Generic font family keyword.
#[derive(Clone, Copy, Debug, PartialEq, Eq, Structural)]
pub enum CssFontFamily {
    CssFontFamilyInherit,
    CssFontFamilySerif,
    CssFontFamilySansSerif,
    CssFontFamilyCursive,
    CssFontFamilyFantasy,
    CssFontFamilyMonospace,
}

/// The status tag the engine uses for a generic font family.
pub open spec fn spec_font_family_code(f: CssFontFamily) -> u8 {
    match f {
        CssFontFamily::CssFontFamilyInherit => CSS_FONT_FAMILY_INHERIT,
        CssFontFamily::CssFontFamilySerif => CSS_FONT_FAMILY_SERIF,
        CssFontFamily::CssFontFamilySansSerif => CSS_FONT_FAMILY_SANS_SERIF,
        CssFontFamily::CssFontFamilyCursive => CSS_FONT_FAMILY_CURSIVE,
        CssFontFamily::CssFontFamilyFantasy => CSS_FONT_FAMILY_FANTASY,
        CssFontFamily::CssFontFamilyMonospace => CSS_FONT_FAMILY_MONOSPACE,
    }
}

impl CssFontFamily {
    /// The status tag the engine uses for this generic family.
    pub fn code(&self) -> (r: u8)
        ensures
            r == spec_font_family_code(*self),
    {
        match self {
            CssFontFamily::CssFontFamilyInherit => CSS_FONT_FAMILY_INHERIT,
            CssFontFamily::CssFontFamilySerif => CSS_FONT_FAMILY_SERIF,
            CssFontFamily::CssFontFamilySansSerif => CSS_FONT_FAMILY_SANS_SERIF,
            CssFontFamily::CssFontFamilyCursive => CSS_FONT_FAMILY_CURSIVE,
            CssFontFamily::CssFontFamilyFantasy => CSS_FONT_FAMILY_FANTASY,
            CssFontFamily::CssFontFamilyMonospace => CSS_FONT_FAMILY_MONOSPACE,
        }
    }
}

/// Font variant keyword.
#[derive(Clone, Copy, Debug, PartialEq, Eq, Structural)]
pub enum CssFontVariant {
    CssFontVariantInherit,
    CssFontVariantNormal,
    CssFontVariantSmallCaps,
}

/// Font weight keyword.
#[derive(Clone, Copy, Debug, PartialEq, Eq, Structural)]
pub enum CssFontWeight {
    CssFontWeightInherit,
    CssFontWeightNormal,
    CssFontWeightBold,
    CssFontWeightBolder,
    CssFontWeightLighter,
    CssFontWeight100,
    CssFontWeight200,
    CssFontWeight300,
    CssFontWeight400,
    CssFontWeight500,
    CssFontWeight600,
    CssFontWeight700,
    CssFontWeight800,
    CssFontWeight900,
}

/// Quotes answer: inherited, a string pair list, or none.
#[derive(Clone, Copy, Debug, PartialEq, Eq, Structural)]
pub enum CssQuotes {
    CssQuotesInherit,
    CssQuotesString,
    CssQuotesNone,
}

/// Status tags for a font-family hint. The same numeric tag means
/// something else for another property; these names apply only beside
/// the font-family identifier.
pub const CSS_FONT_FAMILY_INHERIT: u8 = 0x0;
pub const CSS_FONT_FAMILY_SERIF: u8 = 0x1;
pub const CSS_FONT_FAMILY_SANS_SERIF: u8 = 0x2;
pub const CSS_FONT_FAMILY_CURSIVE: u8 = 0x3;
pub const CSS_FONT_FAMILY_FANTASY: u8 = 0x4;
pub const CSS_FONT_FAMILY_MONOSPACE: u8 = 0x5;

/// Status tags for a quotes hint. The engine distinguishes a string list
/// from none by whether the string list is present, not by the tag.
pub const CSS_QUOTES_INHERIT: u8 = 0x0;
pub const CSS_QUOTES_STRING: u8 = 0x1;
pub const CSS_QUOTES_NONE: u8 = 0x1;

/// Status tags for a color hint or a computed color.
pub const CSS_COLOR_INHERIT: u8 = 0x0;
pub const CSS_COLOR_COLOR: u8 = 0x1;

} // verus!
