use netsurfcss::properties::CssColorProp;
use netsurfcss::select::css_select_ctx_create;
use netsurfcss::select::select_handler;
use netsurfcss::select::CssPseudoElement;
use netsurfcss::stylesheet::css_stylesheet_create;
use netsurfcss::stylesheet::CssStylesheetParams;
use netsurfcss::stylesheet::CssStylesheetParamsVersion;
use netsurfcss::stylesheet::CssStylesheetRef;
use netsurfcss::types::from_rust_string;
use netsurfcss::types::CssColor;
use netsurfcss::types::CssLanguageLevel;
use netsurfcss::types::CSS_MEDIA_ALL;
use netsurfcss::types::CSS_MEDIA_SCREEN;
use netsurfcss::types::CSS_ORIGIN_AUTHOR;

fn fresh_params() -> CssStylesheetParams {
    CssStylesheetParams {
        params_version: CssStylesheetParamsVersion::CssStylesheetParamsVersion1,
        level: CssLanguageLevel::CssLevel21,
        charset: "UTF-8".to_string(),
        url: "foo".to_string(),
        title: "foo".to_string(),
        allow_quirks: false,
        inline_style: false,
        resolve: None,
        import: None,
        color: None,
        font: None,
    }
}

fn colors_of(sheet: CssStylesheetRef) -> Vec<CssColorProp> {
    let mut ctx = css_select_ctx_create();
    ctx.append_sheet(sheet, CSS_ORIGIN_AUTHOR, CSS_MEDIA_ALL);
    let handler = select_handler();
    let mut out = Vec::new();
    for name in ["h1", "h4", "h5", "h6"] {
        let node = from_rust_string(name);
        let results = ctx.select_style(&node, CSS_MEDIA_SCREEN, None, &handler).unwrap();
        out.push(results.computed_color(CssPseudoElement::CssPseudoElementNone));
    }
    out
}

#[test]
fn any_chunking_builds_the_same_sheet() {
    let data = "h1 { color: red; }h4 { color: #321; }h4, h5 { color: #123456; }";

    let mut whole = css_stylesheet_create(fresh_params());
    whole.append_data(data.as_bytes()).unwrap();
    whole.data_done().unwrap();

    let mut chunked = css_stylesheet_create(fresh_params());
    // An awkward chunking that splits tokens and values apart.
    let bytes = data.as_bytes();
    chunked.append_data(&bytes[..7]).unwrap();
    chunked.append_data(&bytes[7..8]).unwrap();
    chunked.append_data(&bytes[8..29]).unwrap();
    chunked.append_data(&[]).unwrap();
    chunked.append_data(&bytes[29..]).unwrap();
    chunked.data_done().unwrap();

    assert_eq!(whole.size(), data.len());
    assert_eq!(chunked.size(), data.len());
    assert_eq!(colors_of(whole), colors_of(chunked));
}

#[test]
fn byte_at_a_time_matches_one_chunk() {
    let data = "p, q { color: white; }";

    let mut whole = css_stylesheet_create(fresh_params());
    whole.append_data(data.as_bytes()).unwrap();
    whole.data_done().unwrap();

    let mut trickled = css_stylesheet_create(fresh_params());
    for b in data.as_bytes() {
        trickled.append_data(&[*b]).unwrap();
    }
    trickled.data_done().unwrap();

    assert_eq!(whole.size(), trickled.size());
    let handler = select_handler();
    let node = from_rust_string("q");
    let mut ctx_a = css_select_ctx_create();
    ctx_a.append_sheet(whole, CSS_ORIGIN_AUTHOR, CSS_MEDIA_ALL);
    let mut ctx_b = css_select_ctx_create();
    ctx_b.append_sheet(trickled, CSS_ORIGIN_AUTHOR, CSS_MEDIA_ALL);
    let ra = ctx_a.select_style(&node, CSS_MEDIA_SCREEN, None, &handler).unwrap();
    let rb = ctx_b.select_style(&node, CSS_MEDIA_SCREEN, None, &handler).unwrap();
    let expected = CssColorProp::CssColorValue(CssColor { r: 255, g: 255, b: 255, a: 255 });
    assert_eq!(ra.computed_color(CssPseudoElement::CssPseudoElementNone), expected);
    assert_eq!(rb.computed_color(CssPseudoElement::CssPseudoElementNone), expected);
}

#[test]
fn empty_sheet_builds_with_size_zero() {
    let mut sheet = css_stylesheet_create(fresh_params());
    sheet.append_data(&[]).unwrap();
    sheet.data_done().unwrap();
    assert_eq!(sheet.size(), 0);

    let mut ctx = css_select_ctx_create();
    ctx.append_sheet(sheet, CSS_ORIGIN_AUTHOR, CSS_MEDIA_ALL);
    let handler = select_handler();
    let node = from_rust_string("h1");
    let results = ctx.select_style(&node, CSS_MEDIA_SCREEN, None, &handler).unwrap();
    assert_eq!(
        results.computed_color(CssPseudoElement::CssPseudoElementNone),
        CssColorProp::CssColorInherit
    );
}
