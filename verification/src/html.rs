//! Extraction of a [`Template`] from a parsed markup tree.
//!
//! Markup parsing itself is the business of an external collaborator (the
//! host's HTML parser); it hands the library a [`RawNode`] tree holding the
//! plain tag names, attribute pairs and text contents that extraction
//! reads.  Extraction classifies each raw attribute by its name prefix
//! (none for `Static`, `:` for `Dynamic`, `@` for `Handler`) and flattens
//! the parser's `html`/`head`/`body` wrapper elements away.

use vstd::prelude::*;

use crate::templating::{
    Attribute, AttributeModel, Attributes, Node, NodeData, NodeDataModel, NodeModel, Template,
};

verus! {

/// A node of the parsed markup tree, reduced to the plain values that
/// extraction reads: tag name and attribute name/value pairs for elements,
/// content for text.
#[derive(Debug)]
pub struct RawNode {
    pub data: RawNodeData,
    pub children: Vec<RawNode>,
}

/// The two raw node shapes that extraction handles.
#[derive(Debug)]
pub enum RawNodeData {
    Element { tag: String, attrs: Vec<(String, String)> },
    Text { content: String },
}

/// Mathematical model of a [`RawNodeData`].
pub enum RawNodeDataModel {
    Element { tag: Seq<char>, attrs: Seq<(Seq<char>, Seq<char>)> },
    Text { content: Seq<char> },
}

/// Mathematical model of a [`RawNode`].
pub struct RawNodeModel {
    pub data: RawNodeDataModel,
    pub children: Seq<RawNodeModel>,
}

impl View for RawNodeData {
    type V = RawNodeDataModel;

    open spec fn view(&self) -> RawNodeDataModel {
        match self {
            RawNodeData::Element { tag, attrs } => RawNodeDataModel::Element {
                tag: tag@,
                attrs: attrs.deep_view(),
            },
            RawNodeData::Text { content } => RawNodeDataModel::Text { content: content@ },
        }
    }
}

impl DeepView for RawNodeData {
    type V = RawNodeDataModel;

    open spec fn deep_view(&self) -> RawNodeDataModel {
        self.view()
    }
}

impl RawNode {
    pub open spec fn model(self) -> RawNodeModel
        decreases self,
    {
        RawNodeModel { data: self.data@, children: RawNode::models(self.children@) }
    }

    pub open spec fn models(ns: Seq<RawNode>) -> Seq<RawNodeModel>
        decreases ns,
    {
        if ns.len() == 0 {
            Seq::empty()
        } else {
            RawNode::models(ns.drop_last()).push(ns.last().model())
        }
    }
}

impl View for RawNode {
    type V = RawNodeModel;

    open spec fn view(&self) -> RawNodeModel {
        self.model()
    }
}

impl DeepView for RawNode {
    type V = RawNodeModel;

    open spec fn deep_view(&self) -> RawNodeModel {
        self.model()
    }
}

/// What extraction turns one raw attribute pair into: the name prefix
/// selects the attribute kind and is stripped from the name.
pub open spec fn extract_attr_model(k: Seq<char>, v: Seq<char>) -> (Seq<char>, AttributeModel) {
    if k.len() > 0 && k[0] == ':' {
        (k.drop_first(), AttributeModel::Dynamic(v))
    } else if k.len() > 0 && k[0] == '@' {
        (k.drop_first(), AttributeModel::Handler(v))
    } else {
        (k, AttributeModel::Static(v))
    }
}

/// Some attribute of the list already uses this key.
pub open spec fn has_attr_key(attrs: Seq<(Seq<char>, AttributeModel)>, k: Seq<char>) -> bool {
    exists|i: int| 0 <= i < attrs.len() && attrs[i].0 == k
}

/// The position of the attribute using this key; meaningful where the key
/// occurs and the keys are unique.
pub open spec fn attr_key_index(attrs: Seq<(Seq<char>, AttributeModel)>, k: Seq<char>) -> int {
    choose|i: int| 0 <= i < attrs.len() && attrs[i].0 == k
}

/// No two attributes of the list share a key.
pub open spec fn unique_keys(attrs: Seq<(Seq<char>, AttributeModel)>) -> bool {
    forall|i: int, j: int| 0 <= i < j < attrs.len() ==> attrs[i].0 != attrs[j].0
}

/// Insert an attribute keyed by name: a later attribute with an already
/// used key replaces the earlier one in place, as insertion into a map
/// keyed by name would.
pub open spec fn upsert_attr_model(
    attrs: Seq<(Seq<char>, AttributeModel)>,
    k: Seq<char>,
    a: AttributeModel,
) -> Seq<(Seq<char>, AttributeModel)> {
    if has_attr_key(attrs, k) {
        attrs.update(attr_key_index(attrs, k), (k, a))
    } else {
        attrs.push((k, a))
    }
}

/// What extraction turns a raw attribute list into: each pair classified
/// by its prefix and inserted keyed by the stripped name.
pub open spec fn extract_attrs_model(
    raw: Seq<(Seq<char>, Seq<char>)>,
) -> Seq<(Seq<char>, AttributeModel)>
    decreases raw,
{
    if raw.len() == 0 {
        Seq::empty()
    } else {
        let prev = extract_attrs_model(raw.drop_last());
        let p = extract_attr_model(raw.last().0, raw.last().1);
        upsert_attr_model(prev, p.0, p.1)
    }
}

/// The wrapper elements that the markup parser inserts around the actual
/// template content and that extraction flattens away.
pub open spec fn wrapper_tag(tag: Seq<char>) -> bool {
    tag == "html"@ || tag == "head"@ || tag == "body"@
}

/// What extraction does with one raw child, given the nodes accumulated
/// from its earlier siblings: a wrapper element replaces the accumulation
/// with its own extracted children; any other element, and text, is
/// appended.
pub open spec fn extract_step_model(acc: Seq<NodeModel>, child: RawNodeModel) -> Seq<NodeModel>
    decreases child,
{
    let sub = extract_nodes_model(child.children);
    match child.data {
        RawNodeDataModel::Element { tag, attrs } => {
            if wrapper_tag(tag) {
                sub
            } else {
                acc.push(
                    NodeModel {
                        data: NodeDataModel::Element {
                            tag: tag,
                            attributes: extract_attrs_model(attrs),
                        },
                        children: sub,
                    },
                )
            }
        },
        RawNodeDataModel::Text { content } => acc.push(
            NodeModel { data: NodeDataModel::Text { content: content }, children: sub },
        ),
    }
}

/// What extraction turns a list of raw siblings into, walked left to
/// right.
pub open spec fn extract_nodes_model(ns: Seq<RawNodeModel>) -> Seq<NodeModel>
    decreases ns,
{
    if ns.len() == 0 {
        Seq::empty()
    } else {
        extract_step_model(extract_nodes_model(ns.drop_last()), ns.last())
    }
}

/// `RawNode::models` keeps the length.
pub proof fn lemma_raw_models_len(ns: Seq<RawNode>)
    ensures
        RawNode::models(ns).len() == ns.len(),
    decreases ns.len(),
{
    if ns.len() > 0 {
        lemma_raw_models_len(ns.drop_last());
    }
}

/// `RawNode::models` maps the sequence elementwise.
pub proof fn lemma_raw_models_index(ns: Seq<RawNode>, i: int)
    requires
        0 <= i < ns.len(),
    ensures
        RawNode::models(ns).len() == ns.len(),
        RawNode::models(ns)[i] == ns[i].model(),
    decreases ns.len(),
{
    lemma_raw_models_len(ns);
    if i < ns.len() - 1 {
        lemma_raw_models_index(ns.drop_last(), i);
    }
}

/// Extraction over a raw sibling list extended by one node performs one
/// more step.
pub proof fn lemma_extract_nodes_model_push(ns: Seq<RawNodeModel>, n: RawNodeModel)
    ensures
        extract_nodes_model(ns.push(n)) == extract_step_model(extract_nodes_model(ns), n),
{
    assert(ns.push(n).drop_last() =~= ns);
}

/// Classification over a raw attribute list extended by one pair performs
/// one more upsert.
pub proof fn lemma_extract_attrs_model_push(
    raw: Seq<(Seq<char>, Seq<char>)>,
    p: (Seq<char>, Seq<char>),
)
    ensures
        extract_attrs_model(raw.push(p)) == ({
            let q = extract_attr_model(p.0, p.1);
            upsert_attr_model(extract_attrs_model(raw), q.0, q.1)
        }),
{
    assert(raw.push(p).drop_last() =~= raw);
}

/// Classify one raw attribute pair by its name prefix: `:name` binds
/// dynamically under key `name`, `@name` binds a handler listening for
/// event type `name`, a bare name is a static value.
pub fn extract_attribute(name: &String, value: &String) -> (r: (String, Attribute))
    ensures
        r.deep_view() == extract_attr_model(name@, value@),
{
    let len = name.as_str().unicode_len();
    if len == 0 {
        return (name.clone(), Attribute::Static(value.clone()));
    }
    let c = name.as_str().get_char(0);
    if c == ':' {
        let rest = name.as_str().substring_char(1, len).to_owned();
        (rest, Attribute::Dynamic(value.clone()))
    } else if c == '@' {
        let rest = name.as_str().substring_char(1, len).to_owned();
        (rest, Attribute::Handler(value.clone()))
    } else {
        (name.clone(), Attribute::Static(value.clone()))
    }
}

/// Insert one classified attribute, replacing in place any earlier
/// attribute of the same name.
fn upsert_attribute(attrs: &mut Attributes, name: String, attr: Attribute)
    requires
        unique_keys(old(attrs).deep_view()),
    ensures
        final(attrs).deep_view() == upsert_attr_model(old(attrs).deep_view(), name@, attr@),
        unique_keys(final(attrs).deep_view()),
{
    let ghost dv = attrs.deep_view();
    let ghost nm = name@;
    let ghost am = attr@;
    let mut i: usize = 0;
    while i < attrs.len()
        invariant
            i <= attrs.len(),
            dv == attrs.deep_view(),
            dv == old(attrs).deep_view(),
            nm == name@,
            am == attr@,
            dv.len() == attrs@.len(),
            unique_keys(dv),
            forall|j: int| 0 <= j < i ==> dv[j].0 != nm,
        decreases attrs.len() - i,
    {
        if attrs[i].0 == name {
            proof {
                assert(dv[i as int].0 == nm);
                assert(has_attr_key(dv, nm));
                let c = attr_key_index(dv, nm);
                assert(0 <= c < dv.len() && dv[c].0 == nm);
                if c < i as int {
                    assert(dv[c].0 != dv[i as int].0);
                } else if c > i as int {
                    assert(dv[i as int].0 != dv[c].0);
                }
                assert(c == i as int);
            }
            attrs.set(i, (name, attr));
            proof {
                assert(attrs.deep_view() =~= dv.update(i as int, (nm, am)));
                assert forall|p: int, q: int|
                    0 <= p < q < attrs.deep_view().len() implies attrs.deep_view()[p].0
                    != attrs.deep_view()[q].0 by {
                    assert(attrs.deep_view()[p].0 == dv[p].0);
                    assert(attrs.deep_view()[q].0 == dv[q].0);
                }
            }
            return ;
        }
        i += 1;
    }
    proof {
        assert(!has_attr_key(dv, nm));
    }
    attrs.push((name, attr));
    proof {
        assert(attrs.deep_view() =~= dv.push((nm, am)));
    }
}

/// Classify a whole raw attribute list, keeping the classified attributes
/// keyed by their stripped names.
pub fn extract_attributes(raw: &Vec<(String, String)>) -> (r: Attributes)
    ensures
        r.deep_view() == extract_attrs_model(raw.deep_view()),
        unique_keys(r.deep_view()),
{
    let ghost dv = raw.deep_view();
    let mut out: Attributes = Vec::new();
    let mut i: usize = 0;
    while i < raw.len()
        invariant
            i <= raw.len(),
            dv == raw.deep_view(),
            dv.len() == raw@.len(),
            out.deep_view() == extract_attrs_model(dv.take(i as int)),
            unique_keys(out.deep_view()),
        decreases raw.len() - i,
    {
        let pair = &raw[i];
        let classified = extract_attribute(&pair.0, &pair.1);
        proof {
            assert(dv[i as int] == (pair.0@, pair.1@));
            assert(dv.take(i + 1) =~= dv.take(i as int).push(dv[i as int]));
            lemma_extract_attrs_model_push(dv.take(i as int), dv[i as int]);
        }
        upsert_attribute(&mut out, classified.0, classified.1);
        i += 1;
    }
    proof {
        assert(dv.take(dv.len() as int) =~= dv);
    }
    out
}

/// Extract template nodes from a list of raw siblings, left to right: the
/// parser's `html`/`head`/`body` wrappers are flattened to their extracted
/// children, other elements keep their tag and classified attributes, text
/// passes through; children are extracted recursively first.
pub fn extract_children(children: &Vec<RawNode>) -> (t: Template)
    ensures
        Node::models(t@) == extract_nodes_model(RawNode::models(children@)),
    decreases *children,
{
    let ghost rm = RawNode::models(children@);
    let mut res: Template = Vec::new();
    let mut i: usize = 0;
    proof {
        lemma_raw_models_len(children@);
    }
    while i < children.len()
        invariant
            i <= children.len(),
            rm == RawNode::models(children@),
            rm.len() == children@.len(),
            Node::models(res@) == extract_nodes_model(rm.take(i as int)),
        decreases children.len() - i,
    {
        let child = &children[i];
        proof {
            lemma_raw_models_index(children@, i as int);
            assert(rm.take(i + 1) =~= rm.take(i as int).push(rm[i as int]));
            lemma_extract_nodes_model_push(rm.take(i as int), rm[i as int]);
        }
        let sub = extract_children(&child.children);
        match &child.data {
            RawNodeData::Element { tag, attrs } => {
                if *tag == String::from_str("html") || *tag == String::from_str("head") || *tag
                    == String::from_str("body") {
                    res = sub;
                } else {
                    let node = Node {
                        data: NodeData::Element {
                            tag: tag.clone(),
                            attributes: extract_attributes(attrs),
                        },
                        children: sub,
                    };
                    let ghost nmod = node@;
                    let ghost prev = res@;
                    res.push(node);
                    proof {
                        assert(res@.drop_last() =~= prev);
                        assert(Node::models(res@) == Node::models(prev).push(nmod));
                    }
                }
            },
            RawNodeData::Text { content } => {
                let node = Node {
                    data: NodeData::Text { content: content.clone() },
                    children: sub,
                };
                let ghost nmod = node@;
                let ghost prev = res@;
                res.push(node);
                proof {
                    assert(res@.drop_last() =~= prev);
                    assert(Node::models(res@) == Node::models(prev).push(nmod));
                }
            },
        }
        i += 1;
    }
    proof {
        assert(rm.take(rm.len() as int) =~= rm);
    }
    res
}

/// Extract a template from the root children of a parsed markup document.
pub fn extract_html(document: &Vec<RawNode>) -> (t: Template)
    ensures
        Node::models(t@) == extract_nodes_model(RawNode::models(document@)),
{
    extract_children(document)
}

} // verus!
