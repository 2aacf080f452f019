use netsurfcss::errors::css_error_from_code;
use netsurfcss::errors::ll_result_to_rust_result;
use netsurfcss::errors::require_ok;
use netsurfcss::errors::CssError;
use netsurfcss::errors::CSS_BADCHARSET;
use netsurfcss::errors::CSS_BADPARM;
use netsurfcss::errors::CSS_EOF;
use netsurfcss::errors::CSS_FILENOTFOUND;
use netsurfcss::errors::CSS_IMPORTS_PENDING;
use netsurfcss::errors::CSS_INVALID;
use netsurfcss::errors::CSS_NEEDDATA;
use netsurfcss::errors::CSS_NOMEM;
use netsurfcss::errors::CSS_OK;
use netsurfcss::errors::CSS_PROPERTY_NOT_SET;
use netsurfcss::stylesheet::append_status_result;
use netsurfcss::stylesheet::css_stylesheet_create;
use netsurfcss::stylesheet::CssStylesheetParams;
use netsurfcss::stylesheet::CssStylesheetParamsVersion;
use netsurfcss::types::CssLanguageLevel;

fn plain_params() -> CssStylesheetParams {
    CssStylesheetParams {
        params_version: CssStylesheetParamsVersion::CssStylesheetParamsVersion1,
        level: CssLanguageLevel::CssLevelDefault,
        charset: "UTF-8".to_string(),
        url: "foo".to_string(),
        title: "foo".to_string(),
        allow_quirks: false,
        inline_style: false,
        resolve: None,
        import: None,
        color: None,
        font: None,
    }
}

#[test]
fn every_defined_status_maps_to_one_kind() {
    let expected = [
        (CSS_NOMEM, CssError::CssNoMem),
        (CSS_BADPARM, CssError::CssBadParm),
        (CSS_INVALID, CssError::CssInvalid),
        (CSS_FILENOTFOUND, CssError::CssFileNotFound),
        (CSS_NEEDDATA, CssError::CssNeedData),
        (CSS_BADCHARSET, CssError::CssBadCharset),
        (CSS_EOF, CssError::CssEof),
        (CSS_IMPORTS_PENDING, CssError::CssImportsPending),
        (CSS_PROPERTY_NOT_SET, CssError::CssPropertyNotSet),
    ];
    for (code, kind) in expected {
        assert_eq!(css_error_from_code(code), Some(kind));
        assert_eq!(kind.code(), code);
    }
    assert_eq!(css_error_from_code(CSS_OK), None);
    assert_eq!(css_error_from_code(10), None);
    assert_eq!(css_error_from_code(u32::MAX), None);
}

#[test]
fn ll_result_conversion() {
    assert_eq!(ll_result_to_rust_result(CSS_OK, 7u32), Ok(7u32));
    assert_eq!(ll_result_to_rust_result(CSS_NOMEM, 7u32), Err(CssError::CssNoMem));
    assert_eq!(ll_result_to_rust_result(CSS_PROPERTY_NOT_SET, 7u32), Err(CssError::CssPropertyNotSet));
    require_ok(CSS_OK, "no work to check");
}

#[test]
fn need_data_never_ends_a_build() {
    assert_eq!(append_status_result(CSS_OK), Ok(()));
    assert_eq!(append_status_result(CSS_NEEDDATA), Ok(()));
    assert_eq!(append_status_result(CSS_NOMEM), Err(CssError::CssNoMem));
    assert_eq!(append_status_result(CSS_BADPARM), Err(CssError::CssBadParm));
    assert_eq!(append_status_result(CSS_INVALID), Err(CssError::CssInvalid));
    assert_eq!(append_status_result(CSS_FILENOTFOUND), Err(CssError::CssFileNotFound));
    assert_eq!(append_status_result(CSS_BADCHARSET), Err(CssError::CssBadCharset));
    assert_eq!(append_status_result(CSS_EOF), Err(CssError::CssEof));
    assert_eq!(append_status_result(CSS_IMPORTS_PENDING), Err(CssError::CssImportsPending));
    assert_eq!(append_status_result(CSS_PROPERTY_NOT_SET), Err(CssError::CssPropertyNotSet));
}

#[test]
fn malformed_source_fails_data_done_and_keeps_the_handle() {
    let mut sheet = css_stylesheet_create(plain_params());
    sheet.append_data("h1 { colour: red; }".as_bytes()).unwrap();
    assert_eq!(sheet.data_done(), Err(CssError::CssInvalid));
    assert_eq!(sheet.size(), "h1 { colour: red; }".len());
}

#[test]
fn finished_sheet_refuses_more_operations() {
    let mut sheet = css_stylesheet_create(plain_params());
    sheet.append_data("h1 { color: red; }".as_bytes()).unwrap();
    sheet.data_done().unwrap();
    assert_eq!(sheet.append_data(b"p { color: blue; }"), Err(CssError::CssInvalid));
    assert_eq!(sheet.data_done(), Err(CssError::CssInvalid));
    assert_eq!(sheet.size(), "h1 { color: red; }".len());
}
