use netsurfcss::computed::hl_color_to_ll_color;
use netsurfcss::computed::ll_color_to_hl_color;
use netsurfcss::properties::property_from_uint;
use netsurfcss::properties::CssProperty;
use netsurfcss::properties::CSS_N_PROPERTIES;
use netsurfcss::select::CssPseudoElement;
use netsurfcss::stylesheet::CssStylesheetParams;
use netsurfcss::stylesheet::CssStylesheetParamsVersion;
use netsurfcss::stylesheet::CSS_STYLESHEET_PARAMS_VERSION_1;
use netsurfcss::types::CssColor;
use netsurfcss::types::CssLanguageLevel;
use netsurfcss::types::CSS_LEVEL_21;
use netsurfcss::types::CSS_LEVEL_DEFAULT;

#[test]
fn property_codes_round_trip() {
    for code in 0..CSS_N_PROPERTIES {
        let property = property_from_uint(code);
        assert_eq!(property.code(), code);
    }
    assert_eq!(property_from_uint(0x018), CssProperty::CssPropColor);
    assert_eq!(property_from_uint(0x024), CssProperty::CssPropFontFamily);
    assert_eq!(property_from_uint(0x04a), CssProperty::CssPropQuotes);
}

#[test]
fn packed_colors_round_trip() {
    let colors = [
        CssColor { r: 0, g: 0, b: 0, a: 0 },
        CssColor { r: 255, g: 0, b: 0, a: 255 },
        CssColor { r: 0x12, g: 0x34, b: 0x56, a: 0x78 },
        CssColor { r: 255, g: 255, b: 255, a: 255 },
    ];
    for c in colors {
        assert_eq!(ll_color_to_hl_color(hl_color_to_ll_color(c)), c);
    }
    assert_eq!(hl_color_to_ll_color(CssColor { r: 255, g: 0, b: 0, a: 255 }), 0xFFFF0000);
    assert_eq!(
        ll_color_to_hl_color(0xFF123456),
        CssColor { r: 0x12, g: 0x34, b: 0x56, a: 0xFF }
    );
}

#[test]
fn language_levels_encode_as_the_engine_expects() {
    assert_eq!(CssLanguageLevel::CssLevel1.to_ll(), 0);
    assert_eq!(CssLanguageLevel::CssLevel2.to_ll(), 1);
    assert_eq!(CssLanguageLevel::CssLevel21.to_ll(), CSS_LEVEL_21);
    assert_eq!(CssLanguageLevel::CssLevel3.to_ll(), 3);
    assert_eq!(CssLanguageLevel::CssLevelDefault.to_ll(), CSS_LEVEL_DEFAULT);
}

#[test]
fn pseudo_elements_index_their_slots() {
    assert_eq!(CssPseudoElement::CssPseudoElementNone.to_ll(), 0);
    assert_eq!(CssPseudoElement::CssPseudoElementFirstLine.to_ll(), 1);
    assert_eq!(CssPseudoElement::CssPseudoElementFirstLetter.to_ll(), 2);
    assert_eq!(CssPseudoElement::CssPseudoElementBefore.to_ll(), 3);
    assert_eq!(CssPseudoElement::CssPseudoElementAfter.to_ll(), 4);
}

#[test]
fn params_flatten_to_the_engine_shape() {
    let params = CssStylesheetParams {
        params_version: CssStylesheetParamsVersion::CssStylesheetParamsVersion1,
        level: CssLanguageLevel::CssLevel21,
        charset: "UTF-8".to_string(),
        url: "foo".to_string(),
        title: "bar".to_string(),
        allow_quirks: true,
        inline_style: false,
        resolve: None,
        import: None,
        color: None,
        font: None,
    };
    let ll = params.as_ll();
    assert_eq!(ll.params_version, CSS_STYLESHEET_PARAMS_VERSION_1);
    assert_eq!(ll.level, CSS_LEVEL_21);
    assert_eq!(ll.charset, b"UTF-8".to_vec());
    assert_eq!(ll.url, b"foo".to_vec());
    assert_eq!(ll.title, b"bar".to_vec());
    assert!(ll.allow_quirks);
    assert!(!ll.inline_style);
    assert!(!ll.resolve);
    assert!(!ll.import);
    assert!(!ll.color);
    assert!(!ll.font);
}
