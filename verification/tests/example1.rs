use netsurfcss::select::css_select_ctx_create;
use netsurfcss::select::select_handler;
use netsurfcss::select::CssPseudoElement;
use netsurfcss::select::CssSelectCtxRef;
use netsurfcss::select::CssSelectResultsRef;
use netsurfcss::stylesheet::css_stylesheet_create;
use netsurfcss::stylesheet::CssStylesheetParams;
use netsurfcss::stylesheet::CssStylesheetParamsVersion;
use netsurfcss::stylesheet::CssStylesheetRef;
use netsurfcss::stylesheet::CssUrlResolutionFn;
use netsurfcss::types::from_rust_string;
use netsurfcss::types::CssLanguageLevel;
use netsurfcss::types::LwcStringRef;
use netsurfcss::types::CSS_MEDIA_ALL;
use netsurfcss::types::CSS_MEDIA_SCREEN;
use netsurfcss::types::CSS_ORIGIN_AUTHOR;

#[test]
fn run() {
    let data = "h1 { color: red; }h4 { color: #321; }h4, h5 { color: #123456; }";

    let params: CssStylesheetParams = CssStylesheetParams {
        params_version: CssStylesheetParamsVersion::CssStylesheetParamsVersion1,
        level: CssLanguageLevel::CssLevel21,
        charset: "UTF-8".to_string(),
        url: "foo".to_string(),
        title: "foo".to_string(),
        allow_quirks: false,
        inline_style: false,
        resolve: Some(CssUrlResolutionFn),
        import: None,
        color: None,
        font: None,
    };

    let mut sheet: CssStylesheetRef = css_stylesheet_create(params);
    assert_eq!(sheet.size(), 0);

    sheet.append_data(data.as_bytes()).unwrap();
    sheet.data_done().unwrap();
    assert_eq!(sheet.size(), data.len());

    let mut select_ctx: CssSelectCtxRef = css_select_ctx_create();
    assert!(select_ctx.count_sheets() == 0);
    select_ctx.append_sheet(sheet, CSS_ORIGIN_AUTHOR, CSS_MEDIA_ALL);
    assert!(select_ctx.count_sheets() == 1);

    for hh in 1..7u32 {
        let element = format!("h{}", hh);
        let element_name: LwcStringRef = from_rust_string(&element);
        let handler = select_handler();
        let style: CssSelectResultsRef = select_ctx
            .select_style(&element_name, CSS_MEDIA_SCREEN, None, &handler)
            .unwrap();
        let _ = style.computed_color(CssPseudoElement::CssPseudoElementNone);
    }
}
