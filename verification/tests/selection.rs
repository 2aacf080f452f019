use netsurfcss::properties::CssColorProp;
use netsurfcss::select::css_select_ctx_create;
use netsurfcss::select::select_handler;
use netsurfcss::select::CssPseudoElement;
use netsurfcss::stylesheet::css_stylesheet_create;
use netsurfcss::stylesheet::CssStylesheetParams;
use netsurfcss::stylesheet::CssStylesheetParamsVersion;
use netsurfcss::types::from_rust_string;
use netsurfcss::types::CssColor;
use netsurfcss::types::CssLanguageLevel;
use netsurfcss::types::CSS_MEDIA_ALL;
use netsurfcss::types::CSS_MEDIA_PRINT;
use netsurfcss::types::CSS_MEDIA_SCREEN;
use netsurfcss::types::CSS_ORIGIN_AUTHOR;

fn author_params() -> CssStylesheetParams {
    CssStylesheetParams {
        params_version: CssStylesheetParamsVersion::CssStylesheetParamsVersion1,
        level: CssLanguageLevel::CssLevel21,
        charset: "UTF-8".to_string(),
        url: "foo".to_string(),
        title: "foo".to_string(),
        allow_quirks: false,
        inline_style: false,
        resolve: None,
        import: None,
        color: None,
        font: None,
    }
}

fn color_for(ctx: &netsurfcss::select::CssSelectCtxRef, name: &str, media: u64) -> CssColorProp {
    let node = from_rust_string(name);
    let handler = select_handler();
    let results = ctx.select_style(&node, media, None, &handler).unwrap();
    results.computed_color(CssPseudoElement::CssPseudoElementNone)
}

#[test]
fn three_rules_author_sheet() {
    let data = "h1 { color: red; }h4 { color: #321; }h4, h5 { color: #123456; }";
    let mut sheet = css_stylesheet_create(author_params());
    sheet.append_data(data.as_bytes()).unwrap();
    sheet.data_done().unwrap();

    let mut ctx = css_select_ctx_create();
    ctx.append_sheet(sheet, CSS_ORIGIN_AUTHOR, CSS_MEDIA_ALL);

    assert_eq!(
        color_for(&ctx, "h1", CSS_MEDIA_SCREEN),
        CssColorProp::CssColorValue(CssColor { r: 255, g: 0, b: 0, a: 255 })
    );
    assert_eq!(
        color_for(&ctx, "h4", CSS_MEDIA_SCREEN),
        CssColorProp::CssColorValue(CssColor { r: 0x33, g: 0x22, b: 0x11, a: 255 })
    );
    assert_eq!(
        color_for(&ctx, "h5", CSS_MEDIA_SCREEN),
        CssColorProp::CssColorValue(CssColor { r: 0x12, g: 0x34, b: 0x56, a: 255 })
    );
    assert_eq!(color_for(&ctx, "h2", CSS_MEDIA_SCREEN), CssColorProp::CssColorInherit);
    assert_eq!(color_for(&ctx, "h3", CSS_MEDIA_SCREEN), CssColorProp::CssColorInherit);
    assert_eq!(color_for(&ctx, "h6", CSS_MEDIA_SCREEN), CssColorProp::CssColorInherit);
}

#[test]
fn media_mask_gates_sheet() {
    let data = "h1 { color: red; }";
    let mut sheet = css_stylesheet_create(author_params());
    sheet.append_data(data.as_bytes()).unwrap();
    sheet.data_done().unwrap();

    let mut ctx = css_select_ctx_create();
    ctx.append_sheet(sheet, CSS_ORIGIN_AUTHOR, CSS_MEDIA_PRINT);

    assert_eq!(color_for(&ctx, "h1", CSS_MEDIA_PRINT), CssColorProp::CssColorValue(
        CssColor { r: 255, g: 0, b: 0, a: 255 }
    ));
    assert_eq!(color_for(&ctx, "h1", CSS_MEDIA_SCREEN), CssColorProp::CssColorInherit);
}

#[test]
fn unfinished_sheet_contributes_nothing() {
    let data = "h1 { color: red; }";
    let mut sheet = css_stylesheet_create(author_params());
    sheet.append_data(data.as_bytes()).unwrap();

    let mut ctx = css_select_ctx_create();
    ctx.append_sheet(sheet, CSS_ORIGIN_AUTHOR, CSS_MEDIA_ALL);

    assert_eq!(color_for(&ctx, "h1", CSS_MEDIA_SCREEN), CssColorProp::CssColorInherit);
}

#[test]
fn first_matching_rule_wins_across_sheets() {
    let mut first = css_stylesheet_create(author_params());
    first.append_data("p { color: blue; }".as_bytes()).unwrap();
    first.data_done().unwrap();
    let mut second = css_stylesheet_create(author_params());
    second.append_data("p { color: green; }".as_bytes()).unwrap();
    second.data_done().unwrap();

    let mut ctx = css_select_ctx_create();
    ctx.append_sheet(first, CSS_ORIGIN_AUTHOR, CSS_MEDIA_ALL);
    ctx.append_sheet(second, CSS_ORIGIN_AUTHOR, CSS_MEDIA_ALL);
    assert_eq!(ctx.count_sheets(), 2);

    assert_eq!(
        color_for(&ctx, "p", CSS_MEDIA_SCREEN),
        CssColorProp::CssColorValue(CssColor { r: 0, g: 0, b: 255, a: 255 })
    );
}
