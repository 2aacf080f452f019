use netsurfcss::errors::CSS_OK;
use netsurfcss::errors::CSS_PROPERTY_NOT_SET;
use netsurfcss::hint::css_hint;
use netsurfcss::hint::CssHintData;
use netsurfcss::properties::CssProperty;
use netsurfcss::properties::CSS_COLOR_COLOR;
use netsurfcss::raw_handler;
use netsurfcss::select::build_raw_handler;
use netsurfcss::select::enter;
use netsurfcss::select::select_handler;
use netsurfcss::select::with_untyped_handler;
use netsurfcss::select::CssCallbackSlot;
use netsurfcss::select::CSS_SELECT_HANDLER_VERSION_1;
use netsurfcss::types::from_rust_string;
use netsurfcss::types::CssQName;
use netsurfcss::types::LwcStringRef;

#[test]
fn table_provides_the_two_typed_entries() {
    let table = build_raw_handler();
    assert_eq!(table.handler_version, CSS_SELECT_HANDLER_VERSION_1);
    assert_eq!(table.node_name, CssCallbackSlot::CallbackProvided);
    assert_eq!(table.ua_default_for_property, CssCallbackSlot::CallbackProvided);
    assert_eq!(table.node_classes, CssCallbackSlot::CallbackStub);
    assert_eq!(table.named_ancestor_node, CssCallbackSlot::CallbackStub);
    assert_eq!(table.parent_node, CssCallbackSlot::CallbackStub);
    assert_eq!(table.node_is_link, CssCallbackSlot::CallbackStub);
    assert_eq!(table.node_presentational_hint, CssCallbackSlot::CallbackStub);
    assert_eq!(table.compute_font_size, CssCallbackSlot::CallbackStub);
    assert_eq!(enter("anything"), CSS_OK);
}

#[test]
fn untyped_adapter_answers_node_name() {
    let handler = select_handler();
    let adapter = with_untyped_handler(&handler);
    let node = from_rust_string("h1");
    let mut qname = CssQName { ns: None, name: from_rust_string("") };
    assert_eq!(adapter.node_name(&node, &mut qname), CSS_OK);
    assert!(qname.ns.is_none());
    assert_eq!(qname.name.as_bytes(), b"h1");
}

#[test]
fn untyped_adapter_encodes_the_ua_default() {
    let handler = select_handler();
    let adapter = with_untyped_handler(&handler);
    let mut hint = css_hint::new_empty();
    let code = adapter.ua_default_for_property(CssProperty::CssPropColor.code(), &mut hint);
    assert_eq!(code, CSS_OK);
    assert_eq!(hint.status, CSS_COLOR_COLOR);
    match hint.data {
        CssHintData::HintColor(packed) => assert_eq!(packed, 0xFF000000),
        _ => panic!("the color default must carry a packed color"),
    }
}

#[test]
fn stub_entries_answer_neutrally() {
    let node = from_rust_string("div");
    let qname = CssQName { ns: None, name: from_rust_string("p") };
    let value = from_rust_string("x");

    let mut classes: Vec<LwcStringRef> = vec![from_rust_string("stale")];
    let mut n_classes = 7u32;
    assert_eq!(raw_handler::node_classes(&node, &mut classes, &mut n_classes), CSS_OK);
    assert!(classes.is_empty());
    assert_eq!(n_classes, 0);

    let mut id = Some(from_rust_string("stale"));
    assert_eq!(raw_handler::node_id(&node, &mut id), CSS_OK);
    assert!(id.is_none());

    let mut out: Option<LwcStringRef> = Some(from_rust_string("stale"));
    assert_eq!(raw_handler::named_parent_node(&node, &qname, &mut out), CSS_OK);
    assert!(out.is_none());
    let mut out: Option<LwcStringRef> = Some(from_rust_string("stale"));
    assert_eq!(raw_handler::parent_node(&node, &mut out), CSS_OK);
    assert!(out.is_none());
    let mut out: Option<LwcStringRef> = Some(from_rust_string("stale"));
    assert_eq!(raw_handler::sibling_node(&node, &mut out), CSS_OK);
    assert!(out.is_none());

    let mut matched = true;
    assert_eq!(raw_handler::node_has_name(&node, &qname, &mut matched), CSS_OK);
    assert!(!matched);
    let mut matched = true;
    assert_eq!(raw_handler::node_has_class(&node, &value, &mut matched), CSS_OK);
    assert!(!matched);
    let mut matched = true;
    assert_eq!(raw_handler::node_has_attribute_equal(&node, &qname, &value, &mut matched), CSS_OK);
    assert!(!matched);
    let mut matched = true;
    assert_eq!(raw_handler::node_is_root(&node, &mut matched), CSS_OK);
    assert!(!matched);
    let mut matched = true;
    assert_eq!(raw_handler::node_is_link(&node, &mut matched), CSS_OK);
    assert!(!matched);
    let mut matched = true;
    assert_eq!(raw_handler::node_is_lang(&node, &value, &mut matched), CSS_OK);
    assert!(!matched);

    let mut count = -3i32;
    assert_eq!(raw_handler::node_count_siblings(&node, true, false, &mut count), CSS_OK);
    assert_eq!(count, 0);

    assert_eq!(raw_handler::node_presentational_hint(&node, 0), CSS_PROPERTY_NOT_SET);

    let parent = css_hint::new_empty();
    let mut size = css_hint::new_empty();
    assert_eq!(raw_handler::compute_font_size(&parent, &mut size), CSS_OK);
    assert_eq!(size.status, 0);
}
