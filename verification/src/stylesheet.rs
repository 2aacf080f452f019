//! Stylesheet construction: creation parameters and the owning handle
//! through which CSS source is streamed into the engine.
//!
//! A handle is built by appending raw bytes any number of times and then
//! declaring the data done, at which point the accumulated bytes are
//! parsed. The engine answers a streamed append with `CSS_NEEDDATA`,
//! which is a continuation signal and never a failure; any other non-OK
//! status ends the build. What a sheet means is a function of the
//! concatenation of the appended bytes alone, so any chunking of the same
//! source builds the same sheet.

use vstd::prelude::*;

verus! {

use vstd::string::StrSliceExecFns;
use crate::errors::css_error;
use crate::errors::spec_error_from_code;
use crate::errors::CssError;
use crate::errors::CssResult;
use crate::errors::CSS_NEEDDATA;
use crate::errors::CSS_OK;
use crate::errors::CSS_PROPERTY_NOT_SET;
use crate::parser::parse_rules;
use crate::parser::spec_parse_rules;
use crate::parser::spec_rules_view;
use crate::parser::CssRule;
use crate::parser::CssRuleView;
use crate::properties::CssFontStyle;
use crate::properties::CssFontVariant;
use crate::properties::CssFontWeight;
use crate::types::css_fixed;
use crate::types::css_language_level;
use crate::types::css_unit;
use crate::types::CssLanguageLevel;

/// Version tag of the creation-parameter set.
#[derive(Clone, Copy, Debug, PartialEq, Eq, Structural)]
pub enum CssStylesheetParamsVersion {
    CssStylesheetParamsVersion1,
}

/// Strategy slot for resolving a relative url met during parsing. The
/// model grammar has no imports, so the slot is held with the other
/// creation parameters and never consulted.
pub struct CssUrlResolutionFn;

/// Strategy slot for being told of an import met during parsing; held,
/// never consulted by the model grammar.
pub struct CssImportNotificationFn;

/// Strategy slot for resolving color names beyond the built-in set;
/// held, never consulted by the model grammar.
pub struct CssColorResolutionFn;

/// Strategy slot for resolving a system font name; held, never consulted
/// by the model grammar.
pub struct CssFontResolutionFn;

/// Everything a stylesheet is created with. The sheet keeps these for
/// its whole lifetime, resolver strategies included.
pub struct CssStylesheetParams {
    pub params_version: CssStylesheetParamsVersion,
    pub level: CssLanguageLevel,
    pub charset: String,
    pub url: String,
    pub title: String,
    pub allow_quirks: bool,
    pub inline_style: bool,
    pub resolve: Option<CssUrlResolutionFn>,
    pub import: Option<CssImportNotificationFn>,
    pub color: Option<CssColorResolutionFn>,
    pub font: Option<CssFontResolutionFn>,
}

/// A fixed-point size with its unit.
#[allow(non_camel_case_types)]
#[derive(Clone, Copy, Debug, PartialEq, Eq, Structural)]
pub struct css_size {
    pub size: css_fixed,
    pub unit: css_unit,
}

/// A system font description, as a font-resolution strategy answers it.
pub struct CssSystemFont {
    pub style: CssFontStyle,
    pub variant: CssFontVariant,
    pub weight: CssFontWeight,
    pub size: css_size,
    pub line_height: css_size,
    pub family: String,
}

/// The creation parameters in the flat shape the engine consumes:
/// strings as byte sequences and each resolver slot reduced to whether a
/// strategy was supplied.
#[allow(non_camel_case_types)]
pub struct css_stylesheet_params {
    pub params_version: u32,
    pub level: css_language_level,
    pub charset: Vec<u8>,
    pub url: Vec<u8>,
    pub title: Vec<u8>,
    pub allow_quirks: bool,
    pub inline_style: bool,
    pub resolve: bool,
    pub import: bool,
    pub color: bool,
    pub font: bool,
}

pub const CSS_STYLESHEET_PARAMS_VERSION_1: u32 = 1;

impl CssStylesheetParams {
    /// Flattens the parameters into the shape the engine consumes.
    pub fn as_ll(&self) -> (r: css_stylesheet_params)
        ensures
            r.params_version == CSS_STYLESHEET_PARAMS_VERSION_1,
            r.level == crate::types::spec_language_level_code(self.level),
            r.charset@ == vstd::utf8::encode_utf8(self.charset@),
            r.url@ == vstd::utf8::encode_utf8(self.url@),
            r.title@ == vstd::utf8::encode_utf8(self.title@),
            r.allow_quirks == self.allow_quirks,
            r.inline_style == self.inline_style,
            r.resolve == self.resolve is Some,
            r.import == self.import is Some,
            r.color == self.color is Some,
            r.font == self.font is Some,
    {
        css_stylesheet_params {
            params_version: CSS_STYLESHEET_PARAMS_VERSION_1,
            level: self.level.to_ll(),
            charset: self.charset.as_str().as_bytes_vec(),
            url: self.url.as_str().as_bytes_vec(),
            title: self.title.as_str().as_bytes_vec(),
            allow_quirks: self.allow_quirks,
            inline_style: self.inline_style,
            resolve: self.resolve.is_some(),
            import: self.import.is_some(),
            color: self.color.is_some(),
            font: self.font.is_some(),
        }
    }
}

/// Abstract state of a stylesheet handle: the bytes streamed so far and
/// whether the build has been declared done.
pub struct CssStylesheetView {
    pub data: Seq<u8>,
    pub done: bool,
}

/// The state an append moves a sheet to: the same sheet with the chunk's
/// bytes at the end of its source.
pub open spec fn spec_append(v: CssStylesheetView, chunk: Seq<u8>) -> CssStylesheetView {
    CssStylesheetView { data: v.data + chunk, done: v.done }
}

/// The rules a finished sheet holds: what its accumulated source parses
/// to. Meaningful once the sheet's build is done, which guarantees the
/// source parses.
pub open spec fn spec_sheet_rules(v: CssStylesheetView) -> Seq<CssRuleView> {
    spec_parse_rules(v.data)->Some_0
}

/// The engine-level stylesheet object a finished handle owns: in the
/// model, the rules its source parses to.
pub type CssStylesheet = Vec<CssRule>;

/// An owning stylesheet handle. It holds the creation parameters for its
/// whole lifetime beside the engine object it owns — here the engine
/// object is the accumulated source and, once the build is done, the
/// rules that source parses to.
pub struct CssStylesheetRef {
    params: css_stylesheet_params,
    data: Vec<u8>,
    done: bool,
    rules: Vec<CssRule>,
}

impl View for CssStylesheetRef {
    type V = CssStylesheetView;

    closed spec fn view(&self) -> CssStylesheetView {
        CssStylesheetView { data: self.data@, done: self.done }
    }
}

impl CssStylesheetRef {
    /// The handle is consistent: before the build is done no rules are
    /// held, and after it the rules are exactly what the source parses
    /// to — in particular the source does parse.
    pub closed spec fn wf(&self) -> bool {
        &&& !self.done ==> self.rules@.len() == 0
        &&& self.done ==> spec_parse_rules(self.data@) is Some
        &&& self.done ==> spec_rules_view(self.rules@) == spec_sheet_rules(self@)
    }

    /// Best-effort size of the sheet: the bytes of source it holds. A
    /// non-erroring introspection, available at any point of the build.
    pub fn size(&self) -> (r: usize)
        ensures
            r == self@.data.len(),
    {
        self.data.len()
    }

    /// Streams a chunk of source into the sheet. The engine answers a
    /// mid-build append with `CSS_NEEDDATA`, which is absorbed here as
    /// success: the chunk lands at the end of the accumulated source.
    /// Appending to a finished sheet is refused and changes nothing.
    pub fn append_data(&mut self, data: &[u8]) -> (r: CssResult<()>)
        requires
            old(self).wf(),
        ensures
            final(self).wf(),
            !old(self)@.done ==> r is Ok && final(self)@ == spec_append(old(self)@, data@),
            old(self)@.done ==> r == CssResult::<()>::Err(CssError::CssInvalid) && final(self)@
                == old(self)@,
    {
        if self.done {
            return Err(CssError::CssInvalid);
        }
        let mut k: usize = 0;
        let n = data.len();
        while k < n
            invariant
                k <= n,
                n == data@.len(),
                self.data@ == old(self).data@ + data@.subrange(0, k as int),
                self.done == old(self).done,
                self.rules@ == old(self).rules@,
            decreases n - k,
        {
            self.data.push(data[k]);
            proof {
                assert(self.data@ =~= old(self).data@ + data@.subrange(0, k as int + 1));
            }
            k = k + 1;
        }
        proof {
            assert(self.data@ =~= old(self).data@ + data@);
        }
        append_status_result(CSS_NEEDDATA)
    }

    /// Declares the streamed source complete and parses it. Succeeds
    /// exactly when the accumulated bytes fit the grammar; on failure the
    /// handle is left as it was, source intact and build still open.
    /// Finishing an already finished sheet is refused.
    pub fn data_done(&mut self) -> (r: CssResult<()>)
        requires
            old(self).wf(),
        ensures
            final(self).wf(),
            !old(self)@.done && spec_parse_rules(old(self)@.data) is Some ==> r is Ok
                && final(self)@ == (CssStylesheetView { data: old(self)@.data, done: true }),
            !old(self)@.done && spec_parse_rules(old(self)@.data) is None ==> r
                == CssResult::<()>::Err(CssError::CssInvalid) && final(self)@ == old(self)@,
            old(self)@.done ==> r == CssResult::<()>::Err(CssError::CssInvalid) && final(self)@
                == old(self)@,
    {
        if self.done {
            return Err(CssError::CssInvalid);
        }
        match parse_rules(self.data.as_slice()) {
            Some(rules) => {
                self.rules = rules;
                self.done = true;
                Ok(())
            },
            None => Err(CssError::CssInvalid),
        }
    }

    /// Whether the build has been declared done.
    pub fn is_done(&self) -> (r: bool)
        ensures
            r == self@.done,
    {
        self.done
    }

    /// The engine-level sheet a finished handle owns: its parsed rules.
    pub fn ll_sheet(&self) -> (r: &CssStylesheet)
        requires
            self.wf(),
            self@.done,
        ensures
            spec_rules_view(r@) == spec_sheet_rules(self@),
    {
        &self.rules
    }
}

/// Creates a stylesheet handle from its parameters. The handle starts
/// with no source and an open build, and keeps the flattened parameters
/// alive for its whole lifetime.
pub fn css_stylesheet_create(params: CssStylesheetParams) -> (r: CssStylesheetRef)
    ensures
        r.wf(),
        r@.data == Seq::<u8>::empty(),
        !r@.done,
{
    let ll_params = params.as_ll();
    let r = CssStylesheetRef { params: ll_params, data: Vec::new(), done: false, rules: Vec::new() };
    proof {
        assert(r@.data =~= Seq::<u8>::empty());
    }
    r
}

/// Outcome of a streamed append for a given engine status: `CSS_OK` and
/// the continuation signal `CSS_NEEDDATA` both let the build go on; every
/// other defined status ends it with its typed failure kind.
pub fn append_status_result(code: css_error) -> (r: CssResult<()>)
    requires
        code <= CSS_PROPERTY_NOT_SET,
    ensures
        (code == CSS_OK || code == CSS_NEEDDATA) ==> r is Ok,
        !(code == CSS_OK || code == CSS_NEEDDATA) ==> r == CssResult::<()>::Err(
            spec_error_from_code(code)->Some_0,
        ),
{
    if code == CSS_OK || code == CSS_NEEDDATA {
        Ok(())
    } else {
        match crate::errors::css_error_from_code(code) {
            Some(e) => Err(e),
            None => Err(CssError::CssInvalid),
        }
    }
}

/// Streaming idempotence: appending two chunks one after the other moves
/// a sheet to exactly the state that appending their concatenation moves
/// it to, so any chunking of the same source builds the same sheet, and
/// everything later derived from the sheet agrees.
pub proof fn lemma_append_chunking(v: CssStylesheetView, c1: Seq<u8>, c2: Seq<u8>)
    ensures
        spec_append(spec_append(v, c1), c2) == spec_append(v, c1 + c2),
{
    assert(spec_append(spec_append(v, c1), c2).data =~= spec_append(v, c1 + c2).data);
}

/// The state a sheet reaches after appending a whole series of chunks in
/// order.
pub open spec fn spec_append_all(v: CssStylesheetView, chunks: Seq<Seq<u8>>) -> CssStylesheetView
    decreases chunks.len(),
{
    if chunks.len() == 0 {
        v
    } else {
        spec_append_all(spec_append(v, chunks[0]), chunks.subrange(1, chunks.len() as int))
    }
}

/// The concatenation of a series of chunks.
pub open spec fn spec_concat_chunks(chunks: Seq<Seq<u8>>) -> Seq<u8>
    decreases chunks.len(),
{
    if chunks.len() == 0 {
        Seq::empty()
    } else {
        chunks[0] + spec_concat_chunks(chunks.subrange(1, chunks.len() as int))
    }
}

/// Streaming idempotence for a whole series: appending any series of
/// chunks, one call each, moves a sheet to exactly the state that one
/// append of their concatenation moves it to. The sheet a build produces
/// is a function of the concatenated source alone, never of how it was
/// chunked.
pub proof fn lemma_streaming_idempotent(v: CssStylesheetView, chunks: Seq<Seq<u8>>)
    ensures
        spec_append_all(v, chunks) == spec_append(v, spec_concat_chunks(chunks)),
    decreases chunks.len(),
{
    if chunks.len() == 0 {
        assert(spec_append(v, spec_concat_chunks(chunks)).data =~= v.data);
    } else {
        let rest = chunks.subrange(1, chunks.len() as int);
        lemma_streaming_idempotent(spec_append(v, chunks[0]), rest);
        lemma_append_chunking(v, chunks[0], spec_concat_chunks(rest));
    }
}

} // verus!
