//! Unit tests of the smaller pieces: decimal rendering, message parsing,
//! realization of single nodes, and template copies.

use revue::digits::i32_to_string;
use revue::framework::{Component, Lookup};
use revue::templating::{duplicate_nodes, Attribute, Node, NodeData};
use revue::vdom::{VAttribute, VNodeData};
use revue::{Msg, Root};

#[test]
fn decimal_rendering() {
    assert_eq!(i32_to_string(0), "0");
    assert_eq!(i32_to_string(7), "7");
    assert_eq!(i32_to_string(12), "12");
    assert_eq!(i32_to_string(410), "410");
    assert_eq!(i32_to_string(-3), "-3");
    assert_eq!(i32_to_string(-100), "-100");
    assert_eq!(i32_to_string(i32::MAX), "2147483647");
    assert_eq!(i32_to_string(i32::MIN), "-2147483648");
}

#[test]
fn message_parsing() {
    assert!(matches!(
        Msg::from_str("increment".to_string()),
        Some(Msg::Increment)
    ));
    assert!(Msg::from_str("decrement".to_string()).is_none());
    assert!(Msg::from_str("".to_string()).is_none());
}

#[test]
fn root_component_contract() {
    let mut root = Root::new();
    assert_eq!(root.count, 0);
    assert_eq!(root.lookup(&"count".to_string()), Some("0".to_string()));
    assert_eq!(root.lookup(&"other".to_string()), None);
    assert!(root.handle("increment".to_string()));
    assert_eq!(root.count, 1);
    assert_eq!(root.lookup(&"count".to_string()), Some("1".to_string()));
    assert!(!root.handle("noop".to_string()));
    assert_eq!(root.count, 1);
}

#[test]
fn realize_single_node_resolves_and_binds() {
    let node = Node {
        data: NodeData::Element {
            tag: "p".to_string(),
            attributes: vec![
                ("class".to_string(), Attribute::Static("hello".to_string())),
                (
                    "data-count".to_string(),
                    Attribute::Dynamic("count".to_string()),
                ),
                (
                    "click".to_string(),
                    Attribute::Handler("increment".to_string()),
                ),
            ],
        },
        children: vec![],
    };
    let v = node.realize(&Root { count: 5 }).expect("realize should succeed");
    match &v.data {
        VNodeData::Element { tag, attributes } => {
            assert_eq!(tag, "p");
            assert_eq!(attributes.len(), 3);
            assert_eq!(attributes[0].0, "class");
            assert!(matches!(&attributes[0].1, VAttribute::Attribute(s) if s == "hello"));
            assert_eq!(attributes[1].0, "data-count");
            assert!(matches!(&attributes[1].1, VAttribute::Attribute(s) if s == "5"));
            assert_eq!(attributes[2].0, "click");
            assert!(
                matches!(&attributes[2].1, VAttribute::Handler(d) if d.message == "increment")
            );
        }
        _ => panic!("expected an element view node"),
    }
    assert!(v.children.is_empty());
}

#[test]
fn realize_missing_key_names_the_key() {
    let node = Node {
        data: NodeData::Element {
            tag: "p".to_string(),
            attributes: vec![(
                "class".to_string(),
                Attribute::Dynamic("absent".to_string()),
            )],
        },
        children: vec![],
    };
    let err = node.realize(&Root::new()).expect_err("realize should fail");
    assert_eq!(err.key, "absent");
}

#[test]
fn template_copies_preserve_content() {
    let template = vec![Node {
        data: NodeData::Element {
            tag: "div".to_string(),
            attributes: vec![("id".to_string(), Attribute::Static("a".to_string()))],
        },
        children: vec![Node {
            data: NodeData::Text {
                content: "inner".to_string(),
            },
            children: vec![],
        }],
    }];
    let copy = duplicate_nodes(&template);
    assert_eq!(copy.len(), 1);
    assert_eq!(copy[0].data.tag().unwrap(), &"div");
    let attrs = copy[0].data.attributes().unwrap();
    assert_eq!(attrs[0].0, "id");
    assert_eq!(attrs[0].1.value(), &"a");
    assert_eq!(copy[0].children[0].data.content().unwrap(), &"inner");
}
