//! End-to-end rendering and dispatch scenarios on the component runtime.

use revue::framework::ComponentRuntime;
use revue::templating::{Attribute, Node, NodeData, Template};
use revue::vdom::DomNode;
use revue::Root;

fn text(content: &str) -> Node {
    Node {
        data: NodeData::Text {
            content: content.to_string(),
        },
        children: vec![],
    }
}

fn element(tag: &str, attributes: Vec<(&str, Attribute)>, children: Vec<Node>) -> Node {
    Node {
        data: NodeData::Element {
            tag: tag.to_string(),
            attributes: attributes
                .into_iter()
                .map(|(k, a)| (k.to_string(), a))
                .collect(),
        },
        children,
    }
}

/// Content equality of presentation trees (dispatchers compared by their
/// message).
fn dom_eq(a: &DomNode, b: &DomNode) -> bool {
    match (a, b) {
        (DomNode::Text(x), DomNode::Text(y)) => x == y,
        (
            DomNode::Element {
                tag: ta,
                attributes: aa,
                listeners: la,
                children: ca,
            },
            DomNode::Element {
                tag: tb,
                attributes: ab,
                listeners: lb,
                children: cb,
            },
        ) => {
            ta == tb
                && aa == ab
                && la.len() == lb.len()
                && la
                    .iter()
                    .zip(lb.iter())
                    .all(|(x, y)| x.0 == y.0 && x.1.message == y.1.message)
                && ca.len() == cb.len()
                && ca.iter().zip(cb.iter()).all(|(x, y)| dom_eq(x, y))
        }
        _ => false,
    }
}

#[test]
fn scenario_a_paragraph_with_text() {
    let template: Template = vec![element("p", vec![], vec![text("hello")])];
    let mut rt = ComponentRuntime::new(Root::new(), template);
    let doms = rt.render().expect("render should succeed");
    assert_eq!(doms.len(), 1);
    match &doms[0] {
        DomNode::Element {
            tag,
            attributes,
            listeners,
            children,
        } => {
            assert_eq!(tag, "p");
            assert!(attributes.is_empty());
            assert!(listeners.is_empty());
            assert_eq!(children.len(), 1);
            match &children[0] {
                DomNode::Text(content) => assert_eq!(content, "hello"),
                _ => panic!("expected a text presentation node"),
            }
        }
        _ => panic!("expected an element presentation node"),
    }
}

#[test]
fn static_attribute_passes_through() {
    let template: Template = vec![element(
        "p",
        vec![("class", Attribute::Static("hello".to_string()))],
        vec![],
    )];
    let mut rt = ComponentRuntime::new(Root::new(), template);
    let doms = rt.render().expect("render should succeed");
    match &doms[0] {
        DomNode::Element { attributes, .. } => {
            assert_eq!(attributes, &vec![("class".to_string(), "hello".to_string())]);
        }
        _ => panic!("expected an element presentation node"),
    }
}

#[test]
fn dynamic_attribute_resolves_from_component() {
    let template: Template = vec![element(
        "span",
        vec![("data-count", Attribute::Dynamic("count".to_string()))],
        vec![],
    )];
    let mut rt = ComponentRuntime::new(Root { count: 41 }, template);
    let doms = rt.render().expect("render should succeed");
    match &doms[0] {
        DomNode::Element { attributes, .. } => {
            assert_eq!(
                attributes,
                &vec![("data-count".to_string(), "41".to_string())]
            );
        }
        _ => panic!("expected an element presentation node"),
    }
}

#[test]
fn missing_key_fails_whole_render() {
    let template: Template = vec![element(
        "p",
        vec![("class", Attribute::Dynamic("missing".to_string()))],
        vec![],
    )];
    let mut rt = ComponentRuntime::new(Root::new(), template);
    let err = rt.render().expect_err("render should fail");
    assert_eq!(err.key, "missing");
    assert!(rt.vdom.is_empty(), "no view tree kept from the failed render");
}

#[test]
fn missing_key_deep_in_tree_fails() {
    let template: Template = vec![element(
        "div",
        vec![],
        vec![element(
            "p",
            vec![("class", Attribute::Dynamic("missing".to_string()))],
            vec![],
        )],
    )];
    let mut rt = ComponentRuntime::new(Root::new(), template);
    let err = rt.render().expect_err("render should fail");
    assert_eq!(err.key, "missing");
}

#[test]
fn scenario_b_click_increments_and_sets_dirty() {
    let template: Template = vec![element(
        "button",
        vec![("click", Attribute::Handler("increment".to_string()))],
        vec![text("+")],
    )];
    let mut rt = ComponentRuntime::new(Root::new(), template);
    let doms = rt.render().expect("render should succeed");
    let (event, dispatcher) = match &doms[0] {
        DomNode::Element {
            tag,
            listeners,
            children,
            ..
        } => {
            assert_eq!(tag, "button");
            assert_eq!(children.len(), 1);
            assert_eq!(listeners.len(), 1);
            (listeners[0].0.clone(), listeners[0].1.clone())
        }
        _ => panic!("expected an element presentation node"),
    };
    assert_eq!(event, "click");
    assert_eq!(dispatcher.message, "increment");

    rt.clear_dirty();
    assert!(!rt.is_dirty());
    rt.dispatch(&dispatcher);
    assert_eq!(rt.component.as_ref().unwrap().count, 1);
    assert!(rt.is_dirty(), "a render-significant change must set the dirty signal");
}

#[test]
fn each_dispatch_handles_exactly_once() {
    let template: Template = vec![element(
        "button",
        vec![("click", Attribute::Handler("increment".to_string()))],
        vec![],
    )];
    let mut rt = ComponentRuntime::new(Root::new(), template);
    let doms = rt.render().expect("render should succeed");
    let dispatcher = match &doms[0] {
        DomNode::Element { listeners, .. } => listeners[0].1.clone(),
        _ => panic!("expected an element presentation node"),
    };
    rt.dispatch(&dispatcher);
    assert_eq!(rt.component.as_ref().unwrap().count, 1);
    rt.dispatch(&dispatcher);
    rt.dispatch(&dispatcher);
    assert_eq!(rt.component.as_ref().unwrap().count, 3);
}

#[test]
fn unknown_message_leaves_state_and_dirty_alone() {
    let template: Template = vec![element(
        "button",
        vec![("click", Attribute::Handler("unknown".to_string()))],
        vec![],
    )];
    let mut rt = ComponentRuntime::new(Root::new(), template);
    let doms = rt.render().expect("render should succeed");
    let dispatcher = match &doms[0] {
        DomNode::Element { listeners, .. } => listeners[0].1.clone(),
        _ => panic!("expected an element presentation node"),
    };
    rt.clear_dirty();
    rt.dispatch(&dispatcher);
    assert_eq!(rt.component.as_ref().unwrap().count, 0);
    assert!(!rt.is_dirty(), "a non-significant dispatch must not set the dirty signal");
}

#[test]
fn empty_template_renders_no_roots() {
    let template: Template = vec![];
    let mut rt = ComponentRuntime::new(Root::new(), template);
    let doms = rt.render().expect("render should succeed");
    assert!(doms.is_empty());
    assert!(rt.dirty.dirty, "a fresh runtime starts dirty for the initial render");
}

#[test]
fn render_is_idempotent_without_state_change() {
    let template: Template = vec![element(
        "p",
        vec![("data-count", Attribute::Dynamic("count".to_string()))],
        vec![text("body")],
    )];
    let mut rt = ComponentRuntime::new(Root { count: 3 }, template);
    let first = rt.render().expect("render should succeed");
    let second = rt.render().expect("render should succeed");
    assert_eq!(first.len(), second.len());
    for (a, b) in first.iter().zip(second.iter()) {
        assert!(dom_eq(a, b), "two renders with unchanged state must agree");
    }
}

#[test]
fn dispatch_on_destroyed_runtime_is_noop() {
    let template: Template = vec![element(
        "button",
        vec![("click", Attribute::Handler("increment".to_string()))],
        vec![],
    )];
    let mut rt = ComponentRuntime::new(Root::new(), template);
    let doms = rt.render().expect("render should succeed");
    let dispatcher = match &doms[0] {
        DomNode::Element { listeners, .. } => listeners[0].1.clone(),
        _ => panic!("expected an element presentation node"),
    };
    rt.destroy();
    rt.clear_dirty();
    rt.dispatch(&dispatcher);
    assert!(rt.component.is_none());
    assert!(!rt.dirty.dirty, "a dropped dispatch must not set the dirty signal");
}
