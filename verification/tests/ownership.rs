use netsurfcss::properties::CssColorProp;
use netsurfcss::select::css_select_ctx_create;
use netsurfcss::select::select_handler;
use netsurfcss::select::CssPseudoElement;
use netsurfcss::stylesheet::css_stylesheet_create;
use netsurfcss::stylesheet::CssStylesheetParams;
use netsurfcss::stylesheet::CssStylesheetParamsVersion;
use netsurfcss::types::from_rust_string;
use netsurfcss::types::CssColor;
use netsurfcss::types::CssLanguageLevel;
use netsurfcss::types::CSS_MEDIA_ALL;
use netsurfcss::types::CSS_MEDIA_SCREEN;
use netsurfcss::types::CSS_ORIGIN_AUTHOR;
use netsurfcss::types::CSS_ORIGIN_UA;
use netsurfcss::types::CSS_ORIGIN_USER;

fn sheet_with(source: &str) -> netsurfcss::stylesheet::CssStylesheetRef {
    let params = CssStylesheetParams {
        params_version: CssStylesheetParamsVersion::CssStylesheetParamsVersion1,
        level: CssLanguageLevel::CssLevel21,
        charset: "UTF-8".to_string(),
        url: "foo".to_string(),
        title: "foo".to_string(),
        allow_quirks: false,
        inline_style: false,
        resolve: None,
        import: None,
        color: None,
        font: None,
    };
    let mut sheet = css_stylesheet_create(params);
    sheet.append_data(source.as_bytes()).unwrap();
    sheet.data_done().unwrap();
    sheet
}

#[test]
fn sheet_count_tracks_every_append() {
    let mut ctx = css_select_ctx_create();
    assert_eq!(ctx.count_sheets(), 0);
    ctx.append_sheet(sheet_with("h1 { color: red; }"), CSS_ORIGIN_UA, CSS_MEDIA_ALL);
    assert_eq!(ctx.count_sheets(), 1);
    ctx.append_sheet(sheet_with("h2 { color: blue; }"), CSS_ORIGIN_USER, CSS_MEDIA_ALL);
    assert_eq!(ctx.count_sheets(), 2);
    ctx.append_sheet(sheet_with("h3 { color: green; }"), CSS_ORIGIN_AUTHOR, CSS_MEDIA_ALL);
    assert_eq!(ctx.count_sheets(), 3);
}

#[test]
fn appended_sheets_stay_alive_for_matching() {
    let mut ctx = css_select_ctx_create();
    ctx.append_sheet(sheet_with("h1 { color: red; }"), CSS_ORIGIN_AUTHOR, CSS_MEDIA_ALL);
    ctx.append_sheet(sheet_with("h2 { color: blue; }"), CSS_ORIGIN_AUTHOR, CSS_MEDIA_ALL);

    let handler = select_handler();
    let h2 = from_rust_string("h2");
    let results = ctx.select_style(&h2, CSS_MEDIA_SCREEN, None, &handler).unwrap();
    assert_eq!(
        results.computed_color(CssPseudoElement::CssPseudoElementNone),
        CssColorProp::CssColorValue(CssColor { r: 0, g: 0, b: 255, a: 255 })
    );
}

#[test]
fn computed_view_reads_through_its_results() {
    let mut ctx = css_select_ctx_create();
    ctx.append_sheet(sheet_with("h1 { color: red; }"), CSS_ORIGIN_AUTHOR, CSS_MEDIA_ALL);
    let handler = select_handler();
    let h1 = from_rust_string("h1");
    let results = ctx.select_style(&h1, CSS_MEDIA_SCREEN, None, &handler).unwrap();
    let view = results.computed_style(CssPseudoElement::CssPseudoElementNone);
    assert_eq!(
        view.color(),
        CssColorProp::CssColorValue(CssColor { r: 255, g: 0, b: 0, a: 255 })
    );
}
