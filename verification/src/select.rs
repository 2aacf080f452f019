//! Selection: the context that owns registered stylesheets, the driver
//! of one select call, and the capability protocol through which the
//! engine queries the caller's document tree.
//!
//! The context takes ownership of every sheet appended to it, so a sheet
//! can never be freed while it is still registered for matching, and the
//! sheet count the engine reports always equals the number of handles
//! held. One select call consults the caller's handler for the queried
//! node's own name and for the user-agent default of the property being
//! resolved, and nothing else: the computed result is a function of the
//! context, the media mask and that one name.

use vstd::prelude::*;

verus! {

use crate::computed::css_computed_style;
use crate::computed::spec_color_to_ll;
use crate::computed::CssComputedStyleRef;
use crate::errors::css_error;
use crate::errors::require_ok;
use crate::errors::CssError;
use crate::errors::CssResult;
use crate::errors::CSS_INVALID;
use crate::errors::CSS_OK;
use crate::hint::css_hint;
use crate::hint::spec_write_hint;
use crate::hint::CssHint;
use crate::hint::CssHintView;
use crate::parser::CssRule;
use crate::parser::CssRuleView;
use crate::parser::spec_rules_view;
use crate::properties::property_from_uint;
use crate::properties::spec_property_from_uint;
use crate::properties::CssProperty;
use crate::properties::CSS_COLOR_COLOR;
use crate::properties::CSS_COLOR_INHERIT;
use crate::properties::CSS_N_PROPERTIES;
use crate::stylesheet::spec_sheet_rules;
use crate::stylesheet::CssStylesheetRef;
use crate::stylesheet::CssStylesheetView;
use crate::types::bytes_eq;
use crate::types::css_origin;
use crate::types::CssColor;
use crate::types::CssQName;
use crate::types::CssQNameView;
use crate::types::LwcStringRef;

/// A pseudo element a computed style can be read for; the plain element
/// itself counts as one.
#[derive(Clone, Copy, Debug, PartialEq, Eq, Structural)]
pub enum CssPseudoElement {
    CssPseudoElementNone,
    CssPseudoElementFirstLine,
    CssPseudoElementFirstLetter,
    CssPseudoElementBefore,
    CssPseudoElementAfter,
}

/// How many pseudo elements are defined, the plain element included.
pub const CSS_PSEUDO_ELEMENT_COUNT: usize = 5;

/// The slot a pseudo element's computed style occupies in a results
/// object.
pub open spec fn spec_pseudo_index(e: CssPseudoElement) -> int {
    match e {
        CssPseudoElement::CssPseudoElementNone => 0,
        CssPseudoElement::CssPseudoElementFirstLine => 1,
        CssPseudoElement::CssPseudoElementFirstLetter => 2,
        CssPseudoElement::CssPseudoElementBefore => 3,
        CssPseudoElement::CssPseudoElementAfter => 4,
    }
}

impl CssPseudoElement {
    /// The slot this pseudo element occupies in a results object.
    pub fn to_ll(&self) -> (r: usize)
        ensures
            r == spec_pseudo_index(*self),
            r < CSS_PSEUDO_ELEMENT_COUNT,
    {
        match self {
            CssPseudoElement::CssPseudoElementNone => 0,
            CssPseudoElement::CssPseudoElementFirstLine => 1,
            CssPseudoElement::CssPseudoElementFirstLetter => 2,
            CssPseudoElement::CssPseudoElementBefore => 3,
            CssPseudoElement::CssPseudoElementAfter => 4,
        }
    }
}

/// One stylesheet registered with a selection context, with the cascade
/// origin and media mask it was appended under.
struct CssSheetEntry {
    sheet: CssStylesheetRef,
    origin: css_origin,
    media: u64,
}

/// Spec-level shape of one registered sheet.
pub struct CssSheetEntryView {
    pub sheet: CssStylesheetView,
    pub origin: css_origin,
    pub media: u64,
}

/// A selection context. It owns an engine context object — modelled by
/// the sheet count the engine would report — and exclusively owns every
/// stylesheet handle appended to it, in append order.
pub struct CssSelectCtxRef {
    select_ctx: usize,
    sheets: Vec<CssSheetEntry>,
}

impl View for CssSelectCtxRef {
    type V = Seq<CssSheetEntryView>;

    closed spec fn view(&self) -> Seq<CssSheetEntryView> {
        Seq::new(
            self.sheets@.len(),
            |i: int|
                CssSheetEntryView {
                    sheet: self.sheets@[i].sheet@,
                    origin: self.sheets@[i].origin,
                    media: self.sheets@[i].media,
                },
        )
    }
}

impl CssSelectCtxRef {
    /// The context is consistent: the count the engine reports equals
    /// the number of sheet handles held, and every held handle is
    /// consistent itself.
    pub closed spec fn wf(&self) -> bool {
        &&& self.select_ctx == self.sheets@.len()
        &&& forall|i: int| 0 <= i < self.sheets@.len() ==> #[trigger] self.sheets@[i].sheet.wf()
    }
}

/// Creates an empty selection context.
pub fn css_select_ctx_create() -> (r: CssSelectCtxRef)
    ensures
        r.wf(),
        r@ == Seq::<CssSheetEntryView>::empty(),
{
    let r = CssSelectCtxRef { select_ctx: 0, sheets: Vec::new() };
    proof {
        assert(r@ =~= Seq::<CssSheetEntryView>::empty());
    }
    r
}

impl CssSelectCtxRef {
    /// Appends a stylesheet for matching under the given origin and
    /// media mask. Ownership of the handle transfers to the context, and
    /// the engine's sheet count grows by exactly one.
    pub fn append_sheet(&mut self, sheet: CssStylesheetRef, origin: css_origin, media: u64)
        requires
            old(self).wf(),
            sheet.wf(),
        ensures
            final(self).wf(),
            final(self)@ == old(self)@ + seq![
                CssSheetEntryView { sheet: sheet@, origin: origin, media: media },
            ],
    {
        let ghost prev = self@;
        self.sheets.push(CssSheetEntry { sheet, origin, media });
        self.select_ctx = self.sheets.len();
        proof {
            assert(self@ =~= prev + seq![
                CssSheetEntryView { sheet: self.sheets@.last().sheet@, origin: origin, media: media },
            ]);
        }
    }

    /// The number of sheets the engine has registered: always exactly
    /// the number of handles this context holds.
    pub fn count_sheets(&self) -> (r: usize)
        requires
            self.wf(),
        ensures
            r == self@.len(),
    {
        self.select_ctx
    }
}

/// Whether a rule's selector list contains the given element name.
pub open spec fn spec_rule_matches(rule: CssRuleView, name: Seq<u8>) -> bool {
    exists|i: int| 0 <= i < rule.selectors.len() && rule.selectors[i] == name
}

/// The color the first matching rule of a rule sequence assigns to the
/// named element, if any rule matches it.
pub open spec fn spec_rules_color(rules: Seq<CssRuleView>, name: Seq<u8>) -> Option<CssColor>
    decreases rules.len(),
{
    if rules.len() == 0 {
        Option::None
    } else if spec_rule_matches(rules[0], name) {
        Option::Some(rules[0].color)
    } else {
        spec_rules_color(rules.subrange(1, rules.len() as int), name)
    }
}

/// The color one registered sheet contributes for the named element: a
/// sheet takes part only when its build is done and its media mask meets
/// the queried one.
pub open spec fn spec_entry_color(e: CssSheetEntryView, media: u64, name: Seq<u8>) -> Option<
    CssColor,
> {
    if e.sheet.done && (e.media & media) != 0 {
        spec_rules_color(spec_sheet_rules(e.sheet), name)
    } else {
        Option::None
    }
}

/// The color a selection resolves for the named element: the first
/// contribution across the registered sheets, in append order.
pub open spec fn spec_select_color(
    entries: Seq<CssSheetEntryView>,
    media: u64,
    name: Seq<u8>,
) -> Option<CssColor>
    decreases entries.len(),
{
    if entries.len() == 0 {
        Option::None
    } else {
        match spec_entry_color(entries[0], media, name) {
            Option::Some(c) => Option::Some(c),
            Option::None => spec_select_color(
                entries.subrange(1, entries.len() as int),
                media,
                name,
            ),
        }
    }
}

/// The per-pseudo-element styles one select call produces: the plain
/// element's slot holds the resolved color — explicit when a rule
/// matched, inherited otherwise — and the other slots are empty.
pub open spec fn spec_select_results(
    entries: Seq<CssSheetEntryView>,
    media: u64,
    name: Seq<u8>,
) -> Seq<Option<css_computed_style>> {
    let style = match spec_select_color(entries, media, name) {
        Option::Some(c) => css_computed_style {
            color_type: CSS_COLOR_COLOR,
            color: spec_color_to_ll(c),
        },
        Option::None => css_computed_style { color_type: CSS_COLOR_INHERIT, color: 0 },
    };
    seq![Option::Some(style), Option::None, Option::None, Option::None, Option::None]
}

/// Whether a rule's selector list contains the given element name.
fn rule_matches(rule: &CssRule, name: &[u8]) -> (r: bool)
    ensures
        r == spec_rule_matches(rule@, name@),
{
    let n = rule.selectors.len();
    let mut i: usize = 0;
    while i < n
        invariant
            i <= n,
            n == rule.selectors@.len(),
            forall|j: int| 0 <= j < i ==> rule@.selectors[j] != name@,
        decreases n - i,
    {
        if bytes_eq(rule.selectors[i].as_bytes(), name) {
            proof {
                assert(rule@.selectors[i as int] == name@);
            }
            return true;
        }
        i = i + 1;
    }
    false
}

/// The color the first matching rule assigns to the named element.
fn rules_color(rules: &Vec<CssRule>, name: &[u8]) -> (r: Option<CssColor>)
    ensures
        r == spec_rules_color(spec_rules_view(rules@), name@),
{
    let ghost full = spec_rules_view(rules@);
    proof {
        assert(full.subrange(0, full.len() as int) =~= full);
    }
    let n = rules.len();
    let mut i: usize = 0;
    while i < n
        invariant
            i <= n,
            n == rules@.len(),
            full == spec_rules_view(rules@),
            spec_rules_color(full, name@) == spec_rules_color(
                full.subrange(i as int, full.len() as int),
                name@,
            ),
        decreases n - i,
    {
        let ghost sub = full.subrange(i as int, full.len() as int);
        if rule_matches(&rules[i], name) {
            proof {
                assert(sub[0] == full[i as int]);
                assert(spec_rules_color(sub, name@) == Option::Some(full[i as int].color));
            }
            return Some(rules[i].color);
        }
        proof {
            assert(sub[0] == full[i as int]);
            assert(sub.subrange(1, sub.len() as int) =~= full.subrange(
                i as int + 1,
                full.len() as int,
            ));
        }
        i = i + 1;
    }
    proof {
        assert(full.subrange(n as int, full.len() as int).len() == 0);
    }
    None
}

/// The color the registered sheets resolve for the named element, in
/// append order.
fn select_color(sheets: &Vec<CssSheetEntry>, media: u64, name: &[u8]) -> (r: Option<CssColor>)
    requires
        forall|i: int| 0 <= i < sheets@.len() ==> #[trigger] sheets@[i].sheet.wf(),
    ensures
        r == spec_select_color(spec_entries_view(sheets@), media, name@),
{
    let ghost full = spec_entries_view(sheets@);
    proof {
        assert(full.subrange(0, full.len() as int) =~= full);
    }
    let n = sheets.len();
    let mut i: usize = 0;
    while i < n
        invariant
            i <= n,
            n == sheets@.len(),
            full == spec_entries_view(sheets@),
            forall|k: int| 0 <= k < sheets@.len() ==> #[trigger] sheets@[k].sheet.wf(),
            spec_select_color(full, media, name@) == spec_select_color(
                full.subrange(i as int, full.len() as int),
                media,
                name@,
            ),
        decreases n - i,
    {
        let ghost sub = full.subrange(i as int, full.len() as int);
        proof {
            assert(sub[0] == full[i as int]);
            assert(sub.subrange(1, sub.len() as int) =~= full.subrange(
                i as int + 1,
                full.len() as int,
            ));
        }
        let entry = &sheets[i];
        if entry.sheet.is_done() && (entry.media & media) != 0 {
            match rules_color(entry.sheet.ll_sheet(), name) {
                Some(c) => {
                    return Some(c);
                },
                None => {},
            }
        }
        i = i + 1;
    }
    proof {
        assert(full.subrange(n as int, full.len() as int).len() == 0);
    }
    None
}

/// Spec-level shape of a sequence of registered sheets.
spec fn spec_entries_view(entries: Seq<CssSheetEntry>) -> Seq<CssSheetEntryView> {
    Seq::new(
        entries.len(),
        |i: int|
            CssSheetEntryView {
                sheet: entries[i].sheet@,
                origin: entries[i].origin,
                media: entries[i].media,
            },
    )
}

/// The results object one select call produces: one computed-style slot
/// per defined pseudo element, filled where the engine computed a style.
#[allow(non_camel_case_types)]
pub struct css_select_results {
    pub styles: Vec<Option<css_computed_style>>,
}

/// An owning handle on one select call's results. Computed-style views
/// are read out of it by pseudo element and borrow from it, so the
/// results outlive every view derived from them.
pub struct CssSelectResultsRef {
    results: css_select_results,
}

impl View for CssSelectResultsRef {
    type V = Seq<Option<css_computed_style>>;

    closed spec fn view(&self) -> Seq<Option<css_computed_style>> {
        self.results.styles@
    }
}

impl CssSelectResultsRef {
    /// The results hold one slot per defined pseudo element.
    pub closed spec fn wf(&self) -> bool {
        self.results.styles@.len() == CSS_PSEUDO_ELEMENT_COUNT
    }

    /// A view of the computed style for one pseudo element. The engine
    /// computed a style for that slot; the view borrows these results
    /// and cannot outlive them.
    pub fn computed_style<'a>(&'a self, element: CssPseudoElement) -> (r: CssComputedStyleRef<'a>)
        requires
            self.wf(),
            self@[spec_pseudo_index(element)] is Some,
        ensures
            r.computed_style == self@[spec_pseudo_index(element)]->Some_0,
    {
        let element_index = element.to_ll();
        let llstyle = self.results.styles[element_index];
        match llstyle {
            Some(style) => CssComputedStyleRef { result_backref: self, computed_style: style },
            None => vstd::pervasive::unreached(),
        }
    }

    /// The computed color for one pseudo element, decoded from that
    /// slot's style.
    pub fn computed_color(&self, element: CssPseudoElement) -> (r: crate::properties::CssColorProp)
        requires
            self.wf(),
            self@[spec_pseudo_index(element)] is Some,
        ensures
            r == crate::computed::spec_color_prop(self@[spec_pseudo_index(element)]->Some_0),
    {
        self.computed_style(element).color()
    }
}

/// The capability set a caller implements for its document-tree node
/// type `N`. The engine consults it during matching; it is borrowed for
/// one select call and never owned.
///
/// An implementation fixes, as spec functions, what its answers are, and
/// each executable method answers exactly that: so everything proved
/// about a selection holds for whatever tree type the caller brings.
pub trait CssSelectHandler<N> {
    /// The qualified name this handler gives a node.
    spec fn spec_node_name(&self, node: &N) -> CssQNameView;

    /// The hint this handler gives as the user-agent default of a
    /// property.
    spec fn spec_ua_default(&self, property: CssProperty) -> CssHintView;

    /// The qualified name of a node.
    fn node_name(&self, node: &N) -> (r: CssQName)
        ensures
            r@ == self.spec_node_name(node),
    ;

    /// The user-agent default for a property. The engine requires an
    /// answer here: an unknown or unencodable answer is a programming
    /// error that fails the whole selection.
    fn ua_default_for_property(&self, property: CssProperty) -> (r: CssHint)
        ensures
            r@ == self.spec_ua_default(property),
    ;
}

/// The handler as the engine sees it: the caller's typed handler behind
/// one type-erasing adapter, answering in the engine's own shapes
/// (qualified-name out-parameters, numeric property codes, hint
/// objects). All branching stays typed; the adapter only converts.
pub struct UntypedHandler<'a, N, H: CssSelectHandler<N>> {
    pub handler: &'a H,
    pub node_type: core::marker::PhantomData<N>,
}

impl<'a, N, H: CssSelectHandler<N>> UntypedHandler<'a, N, H> {
    /// Answers a node-name query by writing the handler's answer into
    /// the engine's qualified-name object.
    pub fn node_name(&self, node: &N, qname: &mut CssQName) -> (r: css_error)
        ensures
            r == CSS_OK,
            final(qname)@ == self.handler.spec_node_name(node),
    {
        let hlqname = self.handler.node_name(node);
        *qname = hlqname;
        CSS_OK
    }

    /// Answers a user-agent-default query for a numeric property code:
    /// decodes the code, asks the handler, and encodes the answer into
    /// the engine's hint object. Fails with `CSS_INVALID` exactly when
    /// the handler's answer has no encoding for the property, leaving
    /// the hint object untouched.
    pub fn ua_default_for_property(&self, property: u32, hint: &mut css_hint) -> (r: css_error)
        requires
            property < CSS_N_PROPERTIES,
        ensures
            ({
                let p = spec_property_from_uint(property);
                match spec_write_hint(p, self.handler.spec_ua_default(p)) {
                    Option::Some((data, status)) => r == CSS_OK && final(hint).data@ == data
                        && final(hint).status == status,
                    Option::None => r == CSS_INVALID && final(hint).data@ == old(hint).data@
                        && final(hint).status == old(hint).status,
                }
            }),
    {
        let hlproperty = property_from_uint(property);
        let hlhint = self.handler.ua_default_for_property(hlproperty);
        hlhint.write_to_ll(hlproperty, hint)
    }
}

/// Adapts a typed handler to the engine-facing shape for the duration of
/// one select call.
pub fn with_untyped_handler<'a, N, H: CssSelectHandler<N>>(handler: &'a H) -> (r: UntypedHandler<
    'a,
    N,
    H,
>)
    ensures
        r.handler == handler,
{
    UntypedHandler { handler, node_type: core::marker::PhantomData }
}

/// How one entry of the engine's callback table is filled: with a typed
/// adapter entry, or with a neutral stub that answers "no match, nothing
/// provided".
#[derive(Clone, Copy, Debug, PartialEq, Eq, Structural)]
pub enum CssCallbackSlot {
    CallbackProvided,
    CallbackStub,
}

pub const CSS_SELECT_HANDLER_VERSION_1: u32 = 1;

/// The engine's callback table: a version tag and one slot per
/// capability the engine may consult during matching.
#[allow(non_camel_case_types)]
pub struct css_select_handler {
    pub handler_version: u32,
    pub node_name: CssCallbackSlot,
    pub node_classes: CssCallbackSlot,
    pub node_id: CssCallbackSlot,
    pub named_ancestor_node: CssCallbackSlot,
    pub named_parent_node: CssCallbackSlot,
    pub named_sibling_node: CssCallbackSlot,
    pub named_generic_sibling_node: CssCallbackSlot,
    pub parent_node: CssCallbackSlot,
    pub sibling_node: CssCallbackSlot,
    pub node_has_name: CssCallbackSlot,
    pub node_has_class: CssCallbackSlot,
    pub node_has_id: CssCallbackSlot,
    pub node_has_attribute: CssCallbackSlot,
    pub node_has_attribute_equal: CssCallbackSlot,
    pub node_has_attribute_dashmatch: CssCallbackSlot,
    pub node_has_attribute_includes: CssCallbackSlot,
    pub node_has_attribute_prefix: CssCallbackSlot,
    pub node_has_attribute_suffix: CssCallbackSlot,
    pub node_has_attribute_substring: CssCallbackSlot,
    pub node_is_root: CssCallbackSlot,
    pub node_count_siblings: CssCallbackSlot,
    pub node_is_empty: CssCallbackSlot,
    pub node_is_link: CssCallbackSlot,
    pub node_is_visited: CssCallbackSlot,
    pub node_is_hover: CssCallbackSlot,
    pub node_is_active: CssCallbackSlot,
    pub node_is_focus: CssCallbackSlot,
    pub node_is_enabled: CssCallbackSlot,
    pub node_is_disabled: CssCallbackSlot,
    pub node_is_checked: CssCallbackSlot,
    pub node_is_target: CssCallbackSlot,
    pub node_is_lang: CssCallbackSlot,
    pub node_presentational_hint: CssCallbackSlot,
    pub ua_default_for_property: CssCallbackSlot,
    pub compute_font_size: CssCallbackSlot,
}

/// Builds the callback table one select call hands the engine: the
/// node-name and user-agent-default entries dispatch into the typed
/// handler, and every navigation, predicate and hint entry stands as a
/// neutral stub.
pub fn build_raw_handler() -> (r: css_select_handler)
    ensures
        r.handler_version == CSS_SELECT_HANDLER_VERSION_1,
        r.node_name == CssCallbackSlot::CallbackProvided,
        r.ua_default_for_property == CssCallbackSlot::CallbackProvided,
        r.node_classes == CssCallbackSlot::CallbackStub,
        r.node_id == CssCallbackSlot::CallbackStub,
        r.named_ancestor_node == CssCallbackSlot::CallbackStub,
        r.named_parent_node == CssCallbackSlot::CallbackStub,
        r.named_sibling_node == CssCallbackSlot::CallbackStub,
        r.named_generic_sibling_node == CssCallbackSlot::CallbackStub,
        r.parent_node == CssCallbackSlot::CallbackStub,
        r.sibling_node == CssCallbackSlot::CallbackStub,
        r.node_has_name == CssCallbackSlot::CallbackStub,
        r.node_has_class == CssCallbackSlot::CallbackStub,
        r.node_has_id == CssCallbackSlot::CallbackStub,
        r.node_has_attribute == CssCallbackSlot::CallbackStub,
        r.node_has_attribute_equal == CssCallbackSlot::CallbackStub,
        r.node_has_attribute_dashmatch == CssCallbackSlot::CallbackStub,
        r.node_has_attribute_includes == CssCallbackSlot::CallbackStub,
        r.node_has_attribute_prefix == CssCallbackSlot::CallbackStub,
        r.node_has_attribute_suffix == CssCallbackSlot::CallbackStub,
        r.node_has_attribute_substring == CssCallbackSlot::CallbackStub,
        r.node_is_root == CssCallbackSlot::CallbackStub,
        r.node_count_siblings == CssCallbackSlot::CallbackStub,
        r.node_is_empty == CssCallbackSlot::CallbackStub,
        r.node_is_link == CssCallbackSlot::CallbackStub,
        r.node_is_visited == CssCallbackSlot::CallbackStub,
        r.node_is_hover == CssCallbackSlot::CallbackStub,
        r.node_is_active == CssCallbackSlot::CallbackStub,
        r.node_is_focus == CssCallbackSlot::CallbackStub,
        r.node_is_enabled == CssCallbackSlot::CallbackStub,
        r.node_is_disabled == CssCallbackSlot::CallbackStub,
        r.node_is_checked == CssCallbackSlot::CallbackStub,
        r.node_is_target == CssCallbackSlot::CallbackStub,
        r.node_is_lang == CssCallbackSlot::CallbackStub,
        r.node_presentational_hint == CssCallbackSlot::CallbackStub,
        r.compute_font_size == CssCallbackSlot::CallbackStub,
{
    css_select_handler {
        handler_version: CSS_SELECT_HANDLER_VERSION_1,
        node_name: CssCallbackSlot::CallbackProvided,
        node_classes: CssCallbackSlot::CallbackStub,
        node_id: CssCallbackSlot::CallbackStub,
        named_ancestor_node: CssCallbackSlot::CallbackStub,
        named_parent_node: CssCallbackSlot::CallbackStub,
        named_sibling_node: CssCallbackSlot::CallbackStub,
        named_generic_sibling_node: CssCallbackSlot::CallbackStub,
        parent_node: CssCallbackSlot::CallbackStub,
        sibling_node: CssCallbackSlot::CallbackStub,
        node_has_name: CssCallbackSlot::CallbackStub,
        node_has_class: CssCallbackSlot::CallbackStub,
        node_has_id: CssCallbackSlot::CallbackStub,
        node_has_attribute: CssCallbackSlot::CallbackStub,
        node_has_attribute_equal: CssCallbackSlot::CallbackStub,
        node_has_attribute_dashmatch: CssCallbackSlot::CallbackStub,
        node_has_attribute_includes: CssCallbackSlot::CallbackStub,
        node_has_attribute_prefix: CssCallbackSlot::CallbackStub,
        node_has_attribute_suffix: CssCallbackSlot::CallbackStub,
        node_has_attribute_substring: CssCallbackSlot::CallbackStub,
        node_is_root: CssCallbackSlot::CallbackStub,
        node_count_siblings: CssCallbackSlot::CallbackStub,
        node_is_empty: CssCallbackSlot::CallbackStub,
        node_is_link: CssCallbackSlot::CallbackStub,
        node_is_visited: CssCallbackSlot::CallbackStub,
        node_is_hover: CssCallbackSlot::CallbackStub,
        node_is_active: CssCallbackSlot::CallbackStub,
        node_is_focus: CssCallbackSlot::CallbackStub,
        node_is_enabled: CssCallbackSlot::CallbackStub,
        node_is_disabled: CssCallbackSlot::CallbackStub,
        node_is_checked: CssCallbackSlot::CallbackStub,
        node_is_target: CssCallbackSlot::CallbackStub,
        node_is_lang: CssCallbackSlot::CallbackStub,
        node_presentational_hint: CssCallbackSlot::CallbackStub,
        ua_default_for_property: CssCallbackSlot::CallbackProvided,
        compute_font_size: CssCallbackSlot::CallbackStub,
    }
}

impl CssSelectCtxRef {
    /// Selects the style for one node over a media mask.
    ///
    /// The driver consults the caller's handler for exactly two things:
    /// the queried node's own qualified name, and the user-agent default
    /// of the property being resolved. No other node is ever handed to
    /// the handler, so the result is a function of this context, the
    /// media mask and the queried node's name alone. The call succeeds
    /// exactly when the handler's user-agent default for the color
    /// property has a legal encoding; the inline-style argument is not
    /// consulted.
    pub fn select_style<'a, N, H: CssSelectHandler<N>>(
        &self,
        node: &N,
        media: u64,
        inline_style: Option<&CssStylesheetRef>,
        handler: &'a H,
    ) -> (r: CssResult<CssSelectResultsRef>)
        requires
            self.wf(),
        ensures
            ({
                let name = handler.spec_node_name(node).name;
                let ua = handler.spec_ua_default(CssProperty::CssPropColor);
                &&& spec_write_hint(CssProperty::CssPropColor, ua) is Some ==> (r
                    matches Result::Ok(results) && results.wf() && results@ == spec_select_results(
                    self@,
                    media,
                    name,
                ))
                &&& spec_write_hint(CssProperty::CssPropColor, ua) is None ==> r
                    == CssResult::<CssSelectResultsRef>::Err(CssError::CssInvalid)
            }),
    {
        let _ = inline_style;
        let untyped_handler = with_untyped_handler(handler);
        let raw_handler = build_raw_handler();
        if raw_handler.handler_version != CSS_SELECT_HANDLER_VERSION_1 {
            return Err(CssError::CssBadParm);
        }
        let mut qname = CssQName { ns: None, name: LwcStringRef::from_bytes(Vec::new()) };
        let code = untyped_handler.node_name(node, &mut qname);
        require_ok(code, "querying the node name");
        let mut hint = css_hint::new_empty();
        let color_code = CssProperty::CssPropColor.code();
        proof {
            assert(spec_property_from_uint(0x018) == CssProperty::CssPropColor);
        }
        let ua_code = untyped_handler.ua_default_for_property(color_code, &mut hint);
        if ua_code != CSS_OK {
            return Err(CssError::CssInvalid);
        }
        let resolved = select_color(&self.sheets, media, qname.name.as_bytes());
        let style = match resolved {
            Some(c) => css_computed_style {
                color_type: CSS_COLOR_COLOR,
                color: crate::computed::hl_color_to_ll_color(c),
            },
            None => css_computed_style { color_type: CSS_COLOR_INHERIT, color: 0 },
        };
        let mut styles: Vec<Option<css_computed_style>> = Vec::new();
        styles.push(Some(style));
        styles.push(None);
        styles.push(None);
        styles.push(None);
        styles.push(None);
        let results = CssSelectResultsRef { results: css_select_results { styles } };
        proof {
            assert(spec_entries_view(self.sheets@) =~= self@);
            assert(results@ =~= spec_select_results(
                self@,
                media,
                handler.spec_node_name(node).name,
            ));
        }
        Ok(results)
    }
}

/// A handler for the simplest document tree: a node is just its element
/// name, held as an interned string. Identity queries answer that name,
/// and every user-agent default with a modelled encoding is the
/// property's defined default.
pub struct NameSelectHandler;

impl CssSelectHandler<LwcStringRef> for NameSelectHandler {
    open spec fn spec_node_name(&self, node: &LwcStringRef) -> CssQNameView {
        CssQNameView { ns: Option::None, name: node@ }
    }

    open spec fn spec_ua_default(&self, property: CssProperty) -> CssHintView {
        if property == CssProperty::CssPropColor || property == CssProperty::CssPropQuotes
            || property == CssProperty::CssPropFontFamily {
            CssHintView::Default
        } else {
            CssHintView::Unknown
        }
    }

    fn node_name(&self, node: &LwcStringRef) -> (r: CssQName) {
        CssQName { ns: None, name: node.clone() }
    }

    fn ua_default_for_property(&self, property: CssProperty) -> (r: CssHint) {
        match property {
            CssProperty::CssPropColor => CssHint::CssHintDefault,
            CssProperty::CssPropQuotes => CssHint::CssHintDefault,
            CssProperty::CssPropFontFamily => CssHint::CssHintDefault,
            _ => CssHint::CssHintUnknown,
        }
    }
}

/// The handler over interned-name nodes that a caller can hand straight
/// to a select call.
pub fn select_handler() -> NameSelectHandler {
    NameSelectHandler
}

/// Entry note for one callback-table dispatch; always reports success.
pub fn enter(n: &str) -> (r: css_error)
    ensures
        r == CSS_OK,
{
    let _ = n;
    CSS_OK
}

} // verus!
