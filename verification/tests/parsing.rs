use netsurfcss::parser::parse_rules;
use netsurfcss::types::CssColor;

#[test]
fn hex_values_parse_exactly() {
    let rules = parse_rules(b"a { color: #321; }").unwrap();
    assert_eq!(rules.len(), 1);
    assert_eq!(rules[0].color, CssColor { r: 0x33, g: 0x22, b: 0x11, a: 255 });

    let rules = parse_rules(b"a { color: #123456; }").unwrap();
    assert_eq!(rules[0].color, CssColor { r: 0x12, g: 0x34, b: 0x56, a: 255 });

    let rules = parse_rules(b"a { color: #0aF; }").unwrap();
    assert_eq!(rules[0].color, CssColor { r: 0x00, g: 0xaa, b: 0xff, a: 255 });
}

#[test]
fn named_colors_parse_exactly() {
    let expected = [
        ("red", CssColor { r: 255, g: 0, b: 0, a: 255 }),
        ("green", CssColor { r: 0, g: 128, b: 0, a: 255 }),
        ("blue", CssColor { r: 0, g: 0, b: 255, a: 255 }),
        ("black", CssColor { r: 0, g: 0, b: 0, a: 255 }),
        ("white", CssColor { r: 255, g: 255, b: 255, a: 255 }),
    ];
    for (name, color) in expected {
        let source = format!("em {{ color: {}; }}", name);
        let rules = parse_rules(source.as_bytes()).unwrap();
        assert_eq!(rules.len(), 1);
        assert_eq!(rules[0].color, color);
    }
}

#[test]
fn selector_lists_split_on_commas() {
    let rules = parse_rules(b"h4 , h5,h6 { color: red; }").unwrap();
    assert_eq!(rules.len(), 1);
    assert_eq!(rules[0].selectors.len(), 3);
    assert_eq!(rules[0].selectors[0].as_bytes(), b"h4");
    assert_eq!(rules[0].selectors[1].as_bytes(), b"h5");
    assert_eq!(rules[0].selectors[2].as_bytes(), b"h6");
}

#[test]
fn semicolon_is_optional() {
    assert!(parse_rules(b"a { color: red }").is_some());
    assert!(parse_rules(b"a { color: red; }").is_some());
}

#[test]
fn empty_and_blank_sources_parse_to_no_rules() {
    assert_eq!(parse_rules(b"").unwrap().len(), 0);
    assert_eq!(parse_rules(b"  \n\t ").unwrap().len(), 0);
}

#[test]
fn malformed_sources_are_rejected() {
    assert!(parse_rules(b"a { colour: red; }").is_none());
    assert!(parse_rules(b"a { color: #12; }").is_none());
    assert!(parse_rules(b"a { color: #12345; }").is_none());
    assert!(parse_rules(b"a { color: mauve; }").is_none());
    assert!(parse_rules(b"a { color: red;").is_none());
    assert!(parse_rules(b"{ color: red; }").is_none());
    assert!(parse_rules(b"a color: red; }").is_none());
    assert!(parse_rules(b"a { }").is_none());
}
