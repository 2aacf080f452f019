//! The entries behind the engine's callback table.
//!
//! Two entries dispatch into the caller's typed handler through the
//! type-erasing adapter: the node-name query and the user-agent default
//! query. The presentational-hint entry answers that no hint is set.
//! Every other entry is a neutral stub: it reports success and answers
//! "no match, no node, nothing provided", which is the engine's contract
//! for capabilities a handler does not implement.

use vstd::prelude::*;

verus! {

use crate::errors::css_error;
use crate::errors::CSS_OK;
use crate::errors::CSS_PROPERTY_NOT_SET;
use crate::hint::css_hint;
use crate::hint::spec_write_hint;
use crate::properties::spec_property_from_uint;
use crate::properties::CSS_N_PROPERTIES;
use crate::select::enter;
use crate::select::CssSelectHandler;
use crate::select::UntypedHandler;
use crate::types::CssQName;
use crate::types::LwcStringRef;

/// Node-name query: dispatches into the typed handler and writes its
/// answer into the engine's qualified-name object.
pub fn node_name<N, H: CssSelectHandler<N>>(
    pw: &UntypedHandler<'_, N, H>,
    node: &N,
    qname: &mut CssQName,
) -> (r: css_error)
    ensures
        r == CSS_OK,
        final(qname)@ == pw.handler.spec_node_name(node),
{
    enter("node_name");
    pw.node_name(node, qname)
}

/// Class-list query: not provided; answers an empty class list.
pub fn node_classes<N>(node: &N, classes: &mut Vec<LwcStringRef>, n_classes: &mut u32) -> (r:
    css_error)
    ensures
        r == CSS_OK,
        final(classes)@.len() == 0,
        *final(n_classes) == 0,
{
    let _ = node;
    classes.clear();
    *n_classes = 0;
    enter("node_classes")
}

/// Id query: not provided; answers that the node has no id.
pub fn node_id<N>(node: &N, id: &mut Option<LwcStringRef>) -> (r: css_error)
    ensures
        r == CSS_OK,
        *final(id) is None,
{
    let _ = node;
    *id = None;
    enter("node_id")
}

/// Named-ancestor navigation: not provided; answers that no such
/// ancestor exists.
pub fn named_ancestor_node<N>(node: &N, qname: &CssQName, parent: &mut Option<N>) -> (r: css_error)
    ensures
        r == CSS_OK,
        *final(parent) is None,
{
    let _ = node;
    let _ = qname;
    *parent = None;
    enter("named_ancestor_node")
}

/// Named-parent navigation: not provided; answers that no such parent
/// exists.
pub fn named_parent_node<N>(node: &N, qname: &CssQName, parent: &mut Option<N>) -> (r: css_error)
    ensures
        r == CSS_OK,
        *final(parent) is None,
{
    let _ = node;
    let _ = qname;
    *parent = None;
    enter("named_parent_node")
}

/// Named-sibling navigation: not provided; answers that no such sibling
/// exists.
pub fn named_sibling_node<N>(node: &N, qname: &CssQName, sibling: &mut Option<N>) -> (r: css_error)
    ensures
        r == CSS_OK,
        *final(sibling) is None,
{
    let _ = node;
    let _ = qname;
    *sibling = None;
    enter("named_sibling_node")
}

/// Named generic-sibling navigation: not provided; answers that no such
/// sibling exists.
pub fn named_generic_sibling_node<N>(node: &N, qname: &CssQName, sibling: &mut Option<N>) -> (r:
    css_error)
    ensures
        r == CSS_OK,
        *final(sibling) is None,
{
    let _ = node;
    let _ = qname;
    *sibling = None;
    enter("named_generic_sibling_node")
}

/// Parent navigation: not provided; answers that the node has no parent.
pub fn parent_node<N>(node: &N, parent: &mut Option<N>) -> (r: css_error)
    ensures
        r == CSS_OK,
        *final(parent) is None,
{
    let _ = node;
    *parent = None;
    enter("parent_node")
}

/// Sibling navigation: not provided; answers that the node has no
/// preceding sibling.
pub fn sibling_node<N>(node: &N, sibling: &mut Option<N>) -> (r: css_error)
    ensures
        r == CSS_OK,
        *final(sibling) is None,
{
    let _ = node;
    *sibling = None;
    enter("sibling_node")
}

/// Name predicate: not provided; answers no match.
pub fn node_has_name<N>(node: &N, qname: &CssQName, match_: &mut bool) -> (r: css_error)
    ensures
        r == CSS_OK,
        *final(match_) == false,
{
    let _ = node;
    let _ = qname;
    *match_ = false;
    enter("node_has_name")
}

/// Class predicate: not provided; answers no match.
pub fn node_has_class<N>(node: &N, name: &LwcStringRef, match_: &mut bool) -> (r: css_error)
    ensures
        r == CSS_OK,
        *final(match_) == false,
{
    let _ = node;
    let _ = name;
    *match_ = false;
    enter("node_has_class")
}

/// Id predicate: not provided; answers no match.
pub fn node_has_id<N>(node: &N, name: &LwcStringRef, match_: &mut bool) -> (r: css_error)
    ensures
        r == CSS_OK,
        *final(match_) == false,
{
    let _ = node;
    let _ = name;
    *match_ = false;
    enter("node_has_id")
}

/// Attribute-presence predicate: not provided; answers no match.
pub fn node_has_attribute<N>(node: &N, qname: &CssQName, match_: &mut bool) -> (r: css_error)
    ensures
        r == CSS_OK,
        *final(match_) == false,
{
    let _ = node;
    let _ = qname;
    *match_ = false;
    enter("node_has_attribute")
}

/// Attribute-equality predicate: not provided; answers no match.
pub fn node_has_attribute_equal<N>(
    node: &N,
    qname: &CssQName,
    value: &LwcStringRef,
    match_: &mut bool,
) -> (r: css_error)
    ensures
        r == CSS_OK,
        *final(match_) == false,
{
    let _ = node;
    let _ = qname;
    let _ = value;
    *match_ = false;
    enter("node_has_attribute_equal")
}

/// Attribute dash-match predicate: not provided; answers no match.
pub fn node_has_attribute_dashmatch<N>(
    node: &N,
    qname: &CssQName,
    value: &LwcStringRef,
    match_: &mut bool,
) -> (r: css_error)
    ensures
        r == CSS_OK,
        *final(match_) == false,
{
    let _ = node;
    let _ = qname;
    let _ = value;
    *match_ = false;
    enter("node_has_attribute_dashmatch")
}

/// Attribute word-list predicate: not provided; answers no match.
pub fn node_has_attribute_includes<N>(
    node: &N,
    qname: &CssQName,
    value: &LwcStringRef,
    match_: &mut bool,
) -> (r: css_error)
    ensures
        r == CSS_OK,
        *final(match_) == false,
{
    let _ = node;
    let _ = qname;
    let _ = value;
    *match_ = false;
    enter("node_has_attribute_includes")
}

/// Attribute prefix predicate: not provided; answers no match.
pub fn node_has_attribute_prefix<N>(
    node: &N,
    qname: &CssQName,
    value: &LwcStringRef,
    match_: &mut bool,
) -> (r: css_error)
    ensures
        r == CSS_OK,
        *final(match_) == false,
{
    let _ = node;
    let _ = qname;
    let _ = value;
    *match_ = false;
    enter("node_has_attribute_prefix")
}

/// Attribute suffix predicate: not provided; answers no match.
pub fn node_has_attribute_suffix<N>(
    node: &N,
    qname: &CssQName,
    value: &LwcStringRef,
    match_: &mut bool,
) -> (r: css_error)
    ensures
        r == CSS_OK,
        *final(match_) == false,
{
    let _ = node;
    let _ = qname;
    let _ = value;
    *match_ = false;
    enter("node_has_attribute_suffix")
}

/// Attribute substring predicate: not provided; answers no match.
pub fn node_has_attribute_substring<N>(
    node: &N,
    qname: &CssQName,
    value: &LwcStringRef,
    match_: &mut bool,
) -> (r: css_error)
    ensures
        r == CSS_OK,
        *final(match_) == false,
{
    let _ = node;
    let _ = qname;
    let _ = value;
    *match_ = false;
    enter("node_has_attribute_substring")
}

/// Root predicate: not provided; answers no match.
pub fn node_is_root<N>(node: &N, match_: &mut bool) -> (r: css_error)
    ensures
        r == CSS_OK,
        *final(match_) == false,
{
    let _ = node;
    *match_ = false;
    enter("node_is_root")
}

/// Sibling count: not provided; answers zero siblings.
pub fn node_count_siblings<N>(node: &N, same_name: bool, after: bool, count: &mut i32) -> (r:
    css_error)
    ensures
        r == CSS_OK,
        *final(count) == 0,
{
    let _ = node;
    let _ = same_name;
    let _ = after;
    *count = 0;
    enter("node_count_siblings")
}

/// Emptiness predicate: not provided; answers no match.
pub fn node_is_empty<N>(node: &N, match_: &mut bool) -> (r: css_error)
    ensures
        r == CSS_OK,
        *final(match_) == false,
{
    let _ = node;
    *match_ = false;
    enter("node_is_empty")
}

/// Link predicate: not provided; answers no match.
pub fn node_is_link<N>(node: &N, match_: &mut bool) -> (r: css_error)
    ensures
        r == CSS_OK,
        *final(match_) == false,
{
    let _ = node;
    *match_ = false;
    enter("node_is_link")
}

/// Visited predicate: not provided; answers no match.
pub fn node_is_visited<N>(node: &N, match_: &mut bool) -> (r: css_error)
    ensures
        r == CSS_OK,
        *final(match_) == false,
{
    let _ = node;
    *match_ = false;
    enter("node_is_visited")
}

/// Hover predicate: not provided; answers no match.
pub fn node_is_hover<N>(node: &N, match_: &mut bool) -> (r: css_error)
    ensures
        r == CSS_OK,
        *final(match_) == false,
{
    let _ = node;
    *match_ = false;
    enter("node_is_hover")
}

/// Active predicate: not provided; answers no match.
pub fn node_is_active<N>(node: &N, match_: &mut bool) -> (r: css_error)
    ensures
        r == CSS_OK,
        *final(match_) == false,
{
    let _ = node;
    *match_ = false;
    enter("node_is_active")
}

/// Focus predicate: not provided; answers no match.
pub fn node_is_focus<N>(node: &N, match_: &mut bool) -> (r: css_error)
    ensures
        r == CSS_OK,
        *final(match_) == false,
{
    let _ = node;
    *match_ = false;
    enter("node_is_focus")
}

/// Enabled predicate: not provided; answers no match.
pub fn node_is_enabled<N>(node: &N, match_: &mut bool) -> (r: css_error)
    ensures
        r == CSS_OK,
        *final(match_) == false,
{
    let _ = node;
    *match_ = false;
    enter("node_is_enabled")
}

/// Disabled predicate: not provided; answers no match.
pub fn node_is_disabled<N>(node: &N, match_: &mut bool) -> (r: css_error)
    ensures
        r == CSS_OK,
        *final(match_) == false,
{
    let _ = node;
    *match_ = false;
    enter("node_is_disabled")
}

/// Checked predicate: not provided; answers no match.
pub fn node_is_checked<N>(node: &N, match_: &mut bool) -> (r: css_error)
    ensures
        r == CSS_OK,
        *final(match_) == false,
{
    let _ = node;
    *match_ = false;
    enter("node_is_checked")
}

/// Target predicate: not provided; answers no match.
pub fn node_is_target<N>(node: &N, match_: &mut bool) -> (r: css_error)
    ensures
        r == CSS_OK,
        *final(match_) == false,
{
    let _ = node;
    *match_ = false;
    enter("node_is_target")
}

/// Language predicate: not provided; answers no match.
pub fn node_is_lang<N>(node: &N, lang: &LwcStringRef, match_: &mut bool) -> (r: css_error)
    ensures
        r == CSS_OK,
        *final(match_) == false,
{
    let _ = node;
    let _ = lang;
    *match_ = false;
    enter("node_is_lang")
}

/// Presentational-hint query: the node provides no markup-derived hint
/// for any property, which is a valid expected answer, not a failure.
pub fn node_presentational_hint<N>(node: &N, property: u32) -> (r: css_error)
    ensures
        r == CSS_PROPERTY_NOT_SET,
{
    let _ = node;
    let _ = property;
    enter("node_presentational_hint");
    CSS_PROPERTY_NOT_SET
}

/// User-agent-default query: dispatches into the typed handler and
/// encodes its answer into the engine's hint object.
pub fn ua_default_for_property<N, H: CssSelectHandler<N>>(
    pw: &UntypedHandler<'_, N, H>,
    property: u32,
    hint: &mut css_hint,
) -> (r: css_error)
    requires
        property < CSS_N_PROPERTIES,
    ensures
        ({
            let p = spec_property_from_uint(property);
            match spec_write_hint(p, pw.handler.spec_ua_default(p)) {
                Option::Some((data, status)) => r == CSS_OK && final(hint).data@ == data
                    && final(hint).status == status,
                Option::None => r == crate::errors::CSS_INVALID && final(hint).data@
                    == old(hint).data@ && final(hint).status == old(hint).status,
            }
        }),
{
    enter("ua_default_for_property");
    pw.ua_default_for_property(property, hint)
}

/// Font-size computation step: not provided; leaves the size hint as it
/// is and reports success.
pub fn compute_font_size(parent: &css_hint, size: &mut css_hint) -> (r: css_error)
    ensures
        r == CSS_OK,
        final(size).data@ == old(size).data@,
        final(size).status == old(size).status,
{
    let _ = parent;
    enter("compute_font_size")
}

} // verus!
