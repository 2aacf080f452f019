use netsurfcss::errors::CssError;
use netsurfcss::errors::CSS_INVALID;
use netsurfcss::errors::CSS_OK;
use netsurfcss::hint::css_hint;
use netsurfcss::hint::set_css_hint_status;
use netsurfcss::hint::CssHint;
use netsurfcss::hint::CssHintData;
use netsurfcss::properties::CssFontFamily;
use netsurfcss::properties::CssProperty;
use netsurfcss::properties::CSS_COLOR_COLOR;
use netsurfcss::properties::CSS_FONT_FAMILY_SANS_SERIF;
use netsurfcss::properties::CSS_QUOTES_NONE;
use netsurfcss::types::LwcStringRef;

fn round_trip(property: CssProperty, hint: &CssHint) -> CssHint {
    let mut ll = css_hint::new_empty();
    assert_eq!(hint.write_to_ll(property, &mut ll), CSS_OK);
    CssHint::read_from_ll(property, &ll).unwrap()
}

#[test]
fn default_hints_round_trip() {
    for property in [
        CssProperty::CssPropColor,
        CssProperty::CssPropQuotes,
        CssProperty::CssPropFontFamily,
    ] {
        assert!(matches!(
            round_trip(property, &CssHint::CssHintDefault),
            CssHint::CssHintDefault
        ));
        assert!(matches!(
            round_trip(property, &CssHint::CssHintInherit),
            CssHint::CssHintInherit
        ));
    }
}

#[test]
fn family_list_round_trips() {
    let list = vec![
        LwcStringRef::from_bytes(b"Inter".to_vec()),
        LwcStringRef::from_bytes(b"Helvetica".to_vec()),
    ];
    let hint = CssHint::CssHintFontFamily(list, CssFontFamily::CssFontFamilySansSerif);
    match round_trip(CssProperty::CssPropFontFamily, &hint) {
        CssHint::CssHintFontFamily(names, family) => {
            assert!(matches!(family, CssFontFamily::CssFontFamilySansSerif));
            assert_eq!(names.len(), 2);
            assert_eq!(names[0].as_bytes(), b"Inter");
            assert_eq!(names[1].as_bytes(), b"Helvetica");
        },
        _ => panic!("family hint did not round trip"),
    }
}

#[test]
fn explicit_colors_round_trip() {
    let c = netsurfcss::types::CssColor { r: 0x12, g: 0x34, b: 0x56, a: 0xFF };
    match round_trip(CssProperty::CssPropColor, &CssHint::CssHintColor(c)) {
        CssHint::CssHintColor(back) => assert_eq!(back, c),
        _ => panic!("an explicit color hint did not round trip"),
    }

    // Opaque black is the color default, so it decodes as the default.
    let black = netsurfcss::types::CssColor { r: 0, g: 0, b: 0, a: 0xFF };
    assert!(matches!(
        round_trip(CssProperty::CssPropColor, &CssHint::CssHintColor(black)),
        CssHint::CssHintDefault
    ));
}

#[test]
fn default_encodings_are_the_engine_ones() {
    let mut ll = css_hint::new_empty();
    assert_eq!(CssHint::CssHintDefault.write_to_ll(CssProperty::CssPropColor, &mut ll), CSS_OK);
    assert_eq!(ll.status, CSS_COLOR_COLOR);
    match ll.data {
        CssHintData::HintColor(packed) => assert_eq!(packed, 0xFF000000),
        _ => panic!("color hint must carry a packed color"),
    }

    let mut ll = css_hint::new_empty();
    assert_eq!(CssHint::CssHintDefault.write_to_ll(CssProperty::CssPropQuotes, &mut ll), CSS_OK);
    assert_eq!(ll.status, CSS_QUOTES_NONE);
    assert!(matches!(ll.data, CssHintData::HintStrings(None)));

    let mut ll = css_hint::new_empty();
    assert_eq!(
        CssHint::CssHintDefault.write_to_ll(CssProperty::CssPropFontFamily, &mut ll),
        CSS_OK
    );
    assert_eq!(ll.status, CSS_FONT_FAMILY_SANS_SERIF);
    assert!(matches!(ll.data, CssHintData::HintStrings(None)));
}

#[test]
fn unsupported_combinations_are_refused_and_leave_the_hint() {
    let mut ll = css_hint::new_empty();
    set_css_hint_status(&mut ll, 7);
    assert_eq!(CssHint::CssHintUnknown.write_to_ll(CssProperty::CssPropColor, &mut ll), CSS_INVALID);
    assert_eq!(ll.status, 7);
    assert!(matches!(ll.data, CssHintData::HintStrings(None)));

    let mut ll = css_hint::new_empty();
    assert_eq!(
        CssHint::CssHintDefault.write_to_ll(CssProperty::CssPropDisplay, &mut ll),
        CSS_INVALID
    );
    assert_eq!(ll.status, 0);
}

#[test]
fn illegal_tags_are_rejected_on_decode() {
    let mut ll = css_hint::new_empty();
    set_css_hint_status(&mut ll, 9);
    assert!(matches!(
        CssHint::read_from_ll(CssProperty::CssPropQuotes, &ll),
        Err(CssError::CssInvalid)
    ));

    let color_payload = css_hint { data: CssHintData::HintColor(0xFF000000), status: 1 };
    assert!(matches!(
        CssHint::read_from_ll(CssProperty::CssPropQuotes, &color_payload),
        Err(CssError::CssInvalid)
    ));
    assert!(matches!(
        CssHint::read_from_ll(CssProperty::CssPropDisplay, &color_payload),
        Err(CssError::CssInvalid)
    ));
}
