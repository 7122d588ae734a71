//! Extraction of templates from markup parsed by the host's HTML parser.

use html5ever::tendril::TendrilSink;
use markup5ever_rcdom as rcdom;

use revue::html::{extract_html, RawNode, RawNodeData};
use revue::templating::{Attribute, Attributes};

fn raw_node(node: &rcdom::Handle) -> RawNode {
    let children = node.children.borrow().iter().map(raw_node).collect();
    match &node.data {
        rcdom::NodeData::Element { name, attrs, .. } => RawNode {
            data: RawNodeData::Element {
                tag: name.local.to_string(),
                attrs: attrs
                    .borrow()
                    .iter()
                    .map(|a| (a.name.local.to_string(), a.value.to_string()))
                    .collect(),
            },
            children,
        },
        rcdom::NodeData::Text { contents } => RawNode {
            data: RawNodeData::Text {
                content: contents.borrow().to_string(),
            },
            children,
        },
        _ => panic!("Unhandled NodeData type"),
    }
}

fn parse_to_raw(input: &str) -> Vec<RawNode> {
    let opts = html5ever::driver::ParseOpts {
        tree_builder: html5ever::tree_builder::TreeBuilderOpts {
            drop_doctype: true,
            ..Default::default()
        },
        ..Default::default()
    };
    let dom = html5ever::parse_document(rcdom::RcDom::default(), opts)
        .from_utf8()
        .read_from(&mut input.as_bytes())
        .expect("could not parse html input");
    let roots = dom.document.children.borrow().iter().map(raw_node).collect();
    roots
}

fn attr<'a>(attrs: &'a Attributes, key: &str) -> &'a Attribute {
    &attrs
        .iter()
        .find(|p| p.0 == key)
        .expect("attribute key not found")
        .1
}

#[test]
fn extract_html_basic() {
    let dom = extract_html(&parse_to_raw("<p></p>"));
    assert_eq!(dom.len(), 1);
    assert_eq!(dom[0].data.tag().unwrap(), &"p");
}

#[test]
fn extract_html_basic_nested() {
    let dom = extract_html(&parse_to_raw("<div><p></p></div>"));
    assert_eq!(dom.len(), 1);
    assert_eq!(dom[0].data.tag().unwrap(), &"div");
    assert_eq!(dom[0].children.len(), 1);
    assert_eq!(dom[0].children[0].data.tag().unwrap(), &"p");
}

#[test]
fn extract_html_static_attribute() {
    let dom = extract_html(&parse_to_raw("<p class=\"hello\"></p>"));
    assert_eq!(dom.len(), 1);
    let attrs = dom[0].data.attributes().unwrap();
    assert_eq!(attr(attrs, "class").value(), &"hello");
    assert!(matches!(attr(attrs, "class"), Attribute::Static(_)));
}

#[test]
fn extract_html_dynamic_attribute() {
    let dom = extract_html(&parse_to_raw("<p :class=\"hello\"></p>"));
    assert_eq!(dom.len(), 1);
    let attrs = dom[0].data.attributes().unwrap();
    assert_eq!(attr(attrs, "class").value(), &"hello");
    assert!(matches!(attr(attrs, "class"), Attribute::Dynamic(_)));
}

#[test]
fn extract_html_handler_attribute() {
    let dom = extract_html(&parse_to_raw("<p @click=\"on-click\"></p>"));
    assert_eq!(dom.len(), 1);
    let attrs = dom[0].data.attributes().unwrap();
    assert_eq!(attr(attrs, "click").value(), &"on-click");
    assert!(matches!(attr(attrs, "click"), Attribute::Handler(_)));
}

#[test]
fn extract_html_text_node() {
    let dom = extract_html(&parse_to_raw("<p>im a text</p>"));
    assert_eq!(dom.len(), 1);
    assert_eq!(dom[0].children.len(), 1);
    assert_eq!(dom[0].children[0].data.content().unwrap(), &"im a text");
}

#[test]
fn extract_attribute_prefixes() {
    let (name, a) = revue::html::extract_attribute(&":key".to_string(), &"v".to_string());
    assert_eq!(name, "key");
    assert!(matches!(a, Attribute::Dynamic(v) if v == "v"));

    let (name, a) = revue::html::extract_attribute(&"@click".to_string(), &"go".to_string());
    assert_eq!(name, "click");
    assert!(matches!(a, Attribute::Handler(v) if v == "go"));

    let (name, a) = revue::html::extract_attribute(&"id".to_string(), &"x".to_string());
    assert_eq!(name, "id");
    assert!(matches!(a, Attribute::Static(v) if v == "x"));

    let (name, a) = revue::html::extract_attribute(&"".to_string(), &"x".to_string());
    assert_eq!(name, "");
    assert!(matches!(a, Attribute::Static(v) if v == "x"));
}

#[test]
fn extract_flattens_wrapper_elements() {
    // A `body` wrapper contributes its extracted children in place of the
    // accumulated siblings, as the parser always nests real content under
    // `html`/`head`/`body`.
    let raw = vec![RawNode {
        data: RawNodeData::Element {
            tag: "html".to_string(),
            attrs: vec![],
        },
        children: vec![RawNode {
            data: RawNodeData::Element {
                tag: "body".to_string(),
                attrs: vec![],
            },
            children: vec![RawNode {
                data: RawNodeData::Element {
                    tag: "p".to_string(),
                    attrs: vec![],
                },
                children: vec![],
            }],
        }],
    }];
    let dom = extract_html(&raw);
    assert_eq!(dom.len(), 1);
    assert_eq!(dom[0].data.tag().unwrap(), &"p");
}

#[test]
fn extract_attributes_later_key_replaces_earlier() {
    let raw = vec![
        ("class".to_string(), "a".to_string()),
        (":class".to_string(), "count".to_string()),
    ];
    let attrs = revue::html::extract_attributes(&raw);
    assert_eq!(attrs.len(), 1);
    assert_eq!(attrs[0].0, "class");
    assert!(matches!(&attrs[0].1, Attribute::Dynamic(v) if v == "count"));
}
