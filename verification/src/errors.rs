//! The engine's status codes and the closed error taxonomy they map onto.
//!
//! The engine reports every outcome as a numeric status. Status `CSS_OK`
//! means success; `CSS_NEEDDATA` is a parsing continuation signal, not a
//! true failure; every other defined status is a typed failure. The
//! mapping between defined non-OK statuses and error kinds is a bijection,
//! proved below.

use vstd::prelude::*;

verus! {

/// Numeric status code as the engine reports it.
#[allow(non_camel_case_types)]
pub type css_error = u32;

pub const CSS_OK: css_error = 0;
pub const CSS_NOMEM: css_error = 1;
pub const CSS_BADPARM: css_error = 2;
pub const CSS_INVALID: css_error = 3;
pub const CSS_FILENOTFOUND: css_error = 4;
pub const CSS_NEEDDATA: css_error = 5;
pub const CSS_BADCHARSET: css_error = 6;
pub const CSS_EOF: css_error = 7;
pub const CSS_IMPORTS_PENDING: css_error = 8;
pub const CSS_PROPERTY_NOT_SET: css_error = 9;

/// The closed set of failure kinds, one per defined non-OK engine status.
///
/// `CssNeedData` is a continuation signal rather than a true error, and
/// `CssPropertyNotSet` is an expected answer from computed-style and
/// presentational-hint queries; both are still kinds of their own so that
/// every non-OK status has exactly one typed rendering.
#[derive(Clone, Copy, Debug, PartialEq, Eq, Structural)]
pub enum CssError {
    CssNoMem,
    CssBadParm,
    CssInvalid,
    CssFileNotFound,
    CssNeedData,
    CssBadCharset,
    CssEof,
    CssImportsPending,
    CssPropertyNotSet,
}

/// Result of an engine operation, typed by the error taxonomy.
pub type CssResult<T> = Result<T, CssError>;

/// The status code that a failure kind stands for.
pub open spec fn spec_error_code(e: CssError) -> css_error {
    match e {
        CssError::CssNoMem => CSS_NOMEM,
        CssError::CssBadParm => CSS_BADPARM,
        CssError::CssInvalid => CSS_INVALID,
        CssError::CssFileNotFound => CSS_FILENOTFOUND,
        CssError::CssNeedData => CSS_NEEDDATA,
        CssError::CssBadCharset => CSS_BADCHARSET,
        CssError::CssEof => CSS_EOF,
        CssError::CssImportsPending => CSS_IMPORTS_PENDING,
        CssError::CssPropertyNotSet => CSS_PROPERTY_NOT_SET,
    }
}

/// The failure kind for a status code, if the code is a defined non-OK
/// status; `None` for `CSS_OK` and for codes outside the defined set.
pub open spec fn spec_error_from_code(code: css_error) -> Option<CssError> {
    if code == CSS_NOMEM {
        Some(CssError::CssNoMem)
    } else if code == CSS_BADPARM {
        Some(CssError::CssBadParm)
    } else if code == CSS_INVALID {
        Some(CssError::CssInvalid)
    } else if code == CSS_FILENOTFOUND {
        Some(CssError::CssFileNotFound)
    } else if code == CSS_NEEDDATA {
        Some(CssError::CssNeedData)
    } else if code == CSS_BADCHARSET {
        Some(CssError::CssBadCharset)
    } else if code == CSS_EOF {
        Some(CssError::CssEof)
    } else if code == CSS_IMPORTS_PENDING {
        Some(CssError::CssImportsPending)
    } else if code == CSS_PROPERTY_NOT_SET {
        Some(CssError::CssPropertyNotSet)
    } else {
        None
    }
}

impl CssError {
    /// The status code this failure kind stands for.
    pub fn code(&self) -> (r: css_error)
        ensures
            r == spec_error_code(*self),
    {
        match self {
            CssError::CssNoMem => CSS_NOMEM,
            CssError::CssBadParm => CSS_BADPARM,
            CssError::CssInvalid => CSS_INVALID,
            CssError::CssFileNotFound => CSS_FILENOTFOUND,
            CssError::CssNeedData => CSS_NEEDDATA,
            CssError::CssBadCharset => CSS_BADCHARSET,
            CssError::CssEof => CSS_EOF,
            CssError::CssImportsPending => CSS_IMPORTS_PENDING,
            CssError::CssPropertyNotSet => CSS_PROPERTY_NOT_SET,
        }
    }
}

/// Types the failure kind of a status code: `Some` exactly for the defined
/// non-OK statuses, `None` for `CSS_OK` and for any unmapped code, which a
/// caller must surface as a defect rather than coerce into the closed set.
pub fn css_error_from_code(code: css_error) -> (r: Option<CssError>)
    ensures
        r == spec_error_from_code(code),
        r is Some <==> CSS_OK < code <= CSS_PROPERTY_NOT_SET,
{
    if code == CSS_NOMEM {
        Some(CssError::CssNoMem)
    } else if code == CSS_BADPARM {
        Some(CssError::CssBadParm)
    } else if code == CSS_INVALID {
        Some(CssError::CssInvalid)
    } else if code == CSS_FILENOTFOUND {
        Some(CssError::CssFileNotFound)
    } else if code == CSS_NEEDDATA {
        Some(CssError::CssNeedData)
    } else if code == CSS_BADCHARSET {
        Some(CssError::CssBadCharset)
    } else if code == CSS_EOF {
        Some(CssError::CssEof)
    } else if code == CSS_IMPORTS_PENDING {
        Some(CssError::CssImportsPending)
    } else if code == CSS_PROPERTY_NOT_SET {
        Some(CssError::CssPropertyNotSet)
    } else {
        None
    }
}

/// Converts an engine status and a prepared value into a typed result:
/// `Ok` exactly on `CSS_OK`, otherwise the failure kind of the status.
///
/// The status must be one the engine defines; an unmapped code has no kind
/// in the closed set and is a defect the caller surfaces separately.
pub fn ll_result_to_rust_result<T>(code: css_error, val: T) -> (r: CssResult<T>)
    requires
        code <= CSS_PROPERTY_NOT_SET,
    ensures
        code == CSS_OK ==> r == CssResult::<T>::Ok(val),
        code != CSS_OK ==> r == CssResult::<T>::Err(spec_error_from_code(code)->Some_0),
{
    match css_error_from_code(code) {
        Option::None => Ok(val),
        Option::Some(e) => Err(e),
    }
}

/// Accepts a status only when it is `CSS_OK`.
///
/// Setup and teardown paths use this where continuing after a failure
/// would be unsound; callers establish success before calling, so the
/// function itself never observes a failing status.
pub fn require_ok(code: css_error, what: &str)
    requires
        code == CSS_OK,
{
    let _ = what;
}

/// Every defined non-OK status maps to exactly one error kind, and the
/// mapping is a bijection: distinct statuses give distinct kinds, and the
/// kind of a status codes back to that status.
pub proof fn lemma_error_mapping_bijective()
    ensures
        forall|code: css_error|
            CSS_OK < code <= CSS_PROPERTY_NOT_SET ==> #[trigger] spec_error_from_code(
                code,
            ) is Some,
        forall|code: css_error|
            CSS_OK < code <= CSS_PROPERTY_NOT_SET ==> spec_error_code(
                #[trigger] spec_error_from_code(code)->Some_0,
            ) == code,
        forall|e: CssError| #[trigger] spec_error_from_code(spec_error_code(e)) == Some(e),
{
}

} // verus!
