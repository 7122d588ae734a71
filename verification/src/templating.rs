//! The template model: an immutable node tree with attribute specifications,
//! together with the specification of realization, which binds a template
//! against a component's lookup capability to produce a view tree.

use vstd::prelude::*;

use crate::framework::{lookup_model, ConfigurationError, Lookup};
use crate::vdom::{
    Dispatcher, DispatcherModel, VAttribute, VAttributeModel, VAttributes, VNode, VNodeData,
    VNodeDataModel, VNodeModel,
};

verus! {

/// How an attribute in the template binds at realization time: a literal
/// value, a value looked up from the component, or an event handler that
/// dispatches a message.
#[derive(Debug, Clone)]
pub enum Attribute {
    Static(String),
    Dynamic(String),
    Handler(String),
}

/// Mathematical model of an [`Attribute`].
pub enum AttributeModel {
    Static(Seq<char>),
    Dynamic(Seq<char>),
    Handler(Seq<char>),
}

impl View for Attribute {
    type V = AttributeModel;

    open spec fn view(&self) -> AttributeModel {
        match self {
            Attribute::Static(v) => AttributeModel::Static(v@),
            Attribute::Dynamic(v) => AttributeModel::Dynamic(v@),
            Attribute::Handler(v) => AttributeModel::Handler(v@),
        }
    }
}

impl DeepView for Attribute {
    type V = AttributeModel;

    open spec fn deep_view(&self) -> AttributeModel {
        self.view()
    }
}

impl Attribute {
    /// The payload carried by the attribute, whatever its kind.
    pub fn value(&self) -> (v: &String)
        ensures
            match self@ {
                AttributeModel::Static(x) => v@ == x,
                AttributeModel::Dynamic(x) => v@ == x,
                AttributeModel::Handler(x) => v@ == x,
            },
    {
        match self {
            Attribute::Static(v) => v,
            Attribute::Dynamic(v) => v,
            Attribute::Handler(v) => v,
        }
    }

    /// An owned copy, equal in model to the original.
    pub fn duplicate(&self) -> (a: Attribute)
        ensures
            a@ == self@,
    {
        match self {
            Attribute::Static(v) => Attribute::Static(v.clone()),
            Attribute::Dynamic(v) => Attribute::Dynamic(v.clone()),
            Attribute::Handler(v) => Attribute::Handler(v.clone()),
        }
    }
}

/// Attributes of a template element, keyed by attribute name.  The order is
/// the order in which the attributes were extracted from the markup.
pub type Attributes = Vec<(String, Attribute)>;

/// The two node shapes of the template tree.
#[derive(Debug, Clone)]
pub enum NodeData {
    Element { tag: String, attributes: Attributes },
    Text { content: String },
}

/// Mathematical model of a [`NodeData`].
pub enum NodeDataModel {
    Element { tag: Seq<char>, attributes: Seq<(Seq<char>, AttributeModel)> },
    Text { content: Seq<char> },
}

impl View for NodeData {
    type V = NodeDataModel;

    open spec fn view(&self) -> NodeDataModel {
        match self {
            NodeData::Element { tag, attributes } => NodeDataModel::Element {
                tag: tag@,
                attributes: attributes.deep_view(),
            },
            NodeData::Text { content } => NodeDataModel::Text { content: content@ },
        }
    }
}

impl DeepView for NodeData {
    type V = NodeDataModel;

    open spec fn deep_view(&self) -> NodeDataModel {
        self.view()
    }
}

impl NodeData {
    /// The element's tag, or nothing for a text node.
    pub fn tag(&self) -> (t: Option<&String>)
        ensures
            (self@ matches NodeDataModel::Element { tag, .. } ==> t matches Some(s) && s@ == tag),
            (self@ matches NodeDataModel::Text { .. } ==> t is None),
    {
        match self {
            NodeData::Element { tag, .. } => Some(tag),
            NodeData::Text { .. } => None,
        }
    }

    /// The element's attributes, or nothing for a text node.
    pub fn attributes(&self) -> (r: Option<&Attributes>)
        ensures
            (self@ matches NodeDataModel::Element { attributes, .. } ==> r matches Some(a)
                && a.deep_view() == attributes),
            (self@ matches NodeDataModel::Text { .. } ==> r is None),
    {
        match self {
            NodeData::Element { attributes, .. } => Some(attributes),
            NodeData::Text { .. } => None,
        }
    }

    /// The text node's content, or nothing for an element.
    pub fn content(&self) -> (c: Option<&String>)
        ensures
            (self@ matches NodeDataModel::Text { content } ==> c matches Some(s) && s@ == content),
            (self@ matches NodeDataModel::Element { .. } ==> c is None),
    {
        match self {
            NodeData::Text { content } => Some(content),
            NodeData::Element { .. } => None,
        }
    }

    /// An owned copy, equal in model to the original.
    pub fn duplicate(&self) -> (d: NodeData)
        ensures
            d@ == self@,
    {
        match self {
            NodeData::Text { content } => NodeData::Text { content: content.clone() },
            NodeData::Element { tag, attributes } => {
                let ghost dv = attributes.deep_view();
                let mut out: Attributes = Vec::new();
                let mut i: usize = 0;
                while i < attributes.len()
                    invariant
                        i <= attributes.len(),
                        dv == attributes.deep_view(),
                        dv.len() == attributes@.len(),
                        out.deep_view() == dv.take(i as int),
                    decreases attributes.len() - i,
                {
                    let pair = &attributes[i];
                    let ghost prev = out.deep_view();
                    out.push((pair.0.clone(), pair.1.duplicate()));
                    proof {
                        assert(out.deep_view() =~= prev.push(dv[i as int]));
                        assert(dv.take(i + 1) =~= dv.take(i as int).push(dv[i as int]));
                    }
                    i += 1;
                }
                proof {
                    assert(dv.take(dv.len() as int) =~= dv);
                }
                NodeData::Element { tag: tag.clone(), attributes: out }
            },
        }
    }
}

/// A node of the template tree.
#[derive(Debug)]
pub struct Node {
    pub data: NodeData,
    pub children: Vec<Node>,
}

/// Mathematical model of a [`Node`].
pub struct NodeModel {
    pub data: NodeDataModel,
    pub children: Seq<NodeModel>,
}

impl Node {
    pub open spec fn model(self) -> NodeModel
        decreases self,
    {
        NodeModel { data: self.data@, children: Node::models(self.children@) }
    }

    pub open spec fn models(ns: Seq<Node>) -> Seq<NodeModel>
        decreases ns,
    {
        if ns.len() == 0 {
            Seq::empty()
        } else {
            Node::models(ns.drop_last()).push(ns.last().model())
        }
    }
}

impl View for Node {
    type V = NodeModel;

    open spec fn view(&self) -> NodeModel {
        self.model()
    }
}

impl DeepView for Node {
    type V = NodeModel;

    open spec fn deep_view(&self) -> NodeModel {
        self.model()
    }
}

/// A template: the ordered list of root nodes extracted from the markup.
pub type Template = Vec<Node>;

/// The lookup capability of a component, as a mathematical function from
/// keys to optional displayable values.
pub type LookupFn = spec_fn(Seq<char>) -> Option<Seq<char>>;

/// What realization turns one attribute into.  A `Dynamic` attribute is
/// meaningful only where its key resolves; [`attr_model_resolves`] says when
/// that is.
pub open spec fn realize_attr_model(a: AttributeModel, lk: LookupFn) -> VAttributeModel {
    match a {
        AttributeModel::Static(v) => VAttributeModel::Attribute(v),
        AttributeModel::Dynamic(key) => VAttributeModel::Attribute(lk(key).unwrap()),
        AttributeModel::Handler(m) => VAttributeModel::Handler(DispatcherModel { message: m }),
    }
}

/// Whether one attribute can be realized under the given lookup capability.
pub open spec fn attr_model_resolves(a: AttributeModel, lk: LookupFn) -> bool {
    a matches AttributeModel::Dynamic(key) ==> lk(key) is Some
}

/// What realization turns an attribute list into, keys and order kept.
pub open spec fn realize_attrs_model(
    attrs: Seq<(Seq<char>, AttributeModel)>,
    lk: LookupFn,
) -> Seq<(Seq<char>, VAttributeModel)>
    decreases attrs,
{
    if attrs.len() == 0 {
        Seq::empty()
    } else {
        realize_attrs_model(attrs.drop_last(), lk).push(
            (attrs.last().0, realize_attr_model(attrs.last().1, lk)),
        )
    }
}

/// Whether every attribute of the list can be realized.
pub open spec fn attrs_resolve(attrs: Seq<(Seq<char>, AttributeModel)>, lk: LookupFn) -> bool {
    forall|i: int|
        0 <= i < attrs.len() ==> attr_model_resolves(#[trigger] attrs[i].1, lk)
}

/// What realization turns the data of one node into.
pub open spec fn realize_data_model(d: NodeDataModel, lk: LookupFn) -> VNodeDataModel {
    match d {
        NodeDataModel::Element { tag, attributes } => VNodeDataModel::Element {
            tag: tag,
            attributes: realize_attrs_model(attributes, lk),
        },
        NodeDataModel::Text { content } => VNodeDataModel::Text { content: content },
    }
}

/// Whether the data of one node can be realized.
pub open spec fn data_resolves(d: NodeDataModel, lk: LookupFn) -> bool {
    match d {
        NodeDataModel::Element { tag, attributes } => attrs_resolve(attributes, lk),
        NodeDataModel::Text { content } => true,
    }
}

/// What realization turns a whole node into: children in template order.
pub open spec fn realize_node_model(n: NodeModel, lk: LookupFn) -> VNodeModel
    decreases n,
{
    VNodeModel { data: realize_data_model(n.data, lk), children: realize_nodes_model(n.children, lk) }
}

/// What realization turns a list of sibling nodes into.
pub open spec fn realize_nodes_model(ns: Seq<NodeModel>, lk: LookupFn) -> Seq<VNodeModel>
    decreases ns,
{
    if ns.len() == 0 {
        Seq::empty()
    } else {
        realize_nodes_model(ns.drop_last(), lk).push(realize_node_model(ns.last(), lk))
    }
}

/// Whether every `Dynamic` key in the node's subtree resolves under `lk`.
pub open spec fn node_resolves(n: NodeModel, lk: LookupFn) -> bool
    decreases n,
{
    data_resolves(n.data, lk) && nodes_resolve(n.children, lk)
}

/// Whether every `Dynamic` key in a list of subtrees resolves under `lk`.
pub open spec fn nodes_resolve(ns: Seq<NodeModel>, lk: LookupFn) -> bool
    decreases ns,
{
    if ns.len() == 0 {
        true
    } else {
        nodes_resolve(ns.drop_last(), lk) && node_resolves(ns.last(), lk)
    }
}

/// Some attribute of the list names `k` as a `Dynamic` key and `lk` does
/// not resolve it.
pub open spec fn attrs_have_key_unresolved(
    attrs: Seq<(Seq<char>, AttributeModel)>,
    lk: LookupFn,
    k: Seq<char>,
) -> bool {
    &&& lk(k) is None
    &&& exists|i: int| 0 <= i < attrs.len() && attrs[i].1 == AttributeModel::Dynamic(k)
}

/// The node's data names `k` as a `Dynamic` key and `lk` does not resolve it.
pub open spec fn data_has_missing_key(d: NodeDataModel, lk: LookupFn, k: Seq<char>) -> bool {
    d matches NodeDataModel::Element { attributes, .. } && attrs_have_key_unresolved(
        attributes,
        lk,
        k,
    )
}

/// Some node of the subtree names `k` as a `Dynamic` key that `lk` does not
/// resolve.
pub open spec fn node_has_missing_key(n: NodeModel, lk: LookupFn, k: Seq<char>) -> bool
    decreases n,
{
    data_has_missing_key(n.data, lk, k) || nodes_have_missing_key(n.children, lk, k)
}

/// Some node of one of the subtrees names `k` as a `Dynamic` key that `lk`
/// does not resolve.
pub open spec fn nodes_have_missing_key(ns: Seq<NodeModel>, lk: LookupFn, k: Seq<char>) -> bool
    decreases ns,
{
    if ns.len() == 0 {
        false
    } else {
        nodes_have_missing_key(ns.drop_last(), lk, k) || node_has_missing_key(ns.last(), lk, k)
    }
}

/// The view node mirrors the template node's shape: same node kind, and
/// children of the same count, in the same order, mirroring recursively.
pub open spec fn same_shape(t: NodeModel, v: VNodeModel) -> bool
    decreases t,
{
    &&& match (t.data, v.data) {
        (NodeDataModel::Element { .. }, VNodeDataModel::Element { .. }) => true,
        (NodeDataModel::Text { .. }, VNodeDataModel::Text { .. }) => true,
        _ => false,
    }
    &&& same_shapes(t.children, v.children)
}

/// Two node lists mirror each other's shape elementwise.
pub open spec fn same_shapes(ts: Seq<NodeModel>, vs: Seq<VNodeModel>) -> bool
    decreases ts,
{
    &&& ts.len() == vs.len()
    &&& ts.len() > 0 ==> same_shapes(ts.drop_last(), vs.drop_last()) && same_shape(
        ts.last(),
        vs.last(),
    )
}

/// Realization preserves the template's shape: whatever the lookup
/// capability, the view tree of a realized node has the same node kind,
/// child count and child order as the template node.  Together with
/// [`Node::realize`]'s contract this says that where every `Dynamic` key
/// resolves, realization succeeds and yields a view tree identical in
/// shape to the template.
pub proof fn lemma_realize_preserves_shape(n: NodeModel, lk: LookupFn)
    ensures
        same_shape(n, realize_node_model(n, lk)),
    decreases n,
{
    lemma_realize_nodes_preserve_shape(n.children, lk);
}

/// Realization preserves the shape of every node of a sibling list.
pub proof fn lemma_realize_nodes_preserve_shape(ns: Seq<NodeModel>, lk: LookupFn)
    ensures
        same_shapes(ns, realize_nodes_model(ns, lk)),
    decreases ns,
{
    if ns.len() > 0 {
        lemma_realize_nodes_preserve_shape(ns.drop_last(), lk);
        lemma_realize_preserves_shape(ns.last(), lk);
        assert(realize_nodes_model(ns, lk).drop_last() =~= realize_nodes_model(
            ns.drop_last(),
            lk,
        ));
    }
}

/// `Node::models` maps the sequence elementwise.
pub proof fn lemma_node_models_index(ns: Seq<Node>, i: int)
    requires
        0 <= i < ns.len(),
    ensures
        Node::models(ns).len() == ns.len(),
        Node::models(ns)[i] == ns[i].model(),
    decreases ns.len(),
{
    lemma_node_models_len(ns);
    if i < ns.len() - 1 {
        lemma_node_models_index(ns.drop_last(), i);
    }
}

/// `Node::models` keeps the length.
pub proof fn lemma_node_models_len(ns: Seq<Node>)
    ensures
        Node::models(ns).len() == ns.len(),
    decreases ns.len(),
{
    if ns.len() > 0 {
        lemma_node_models_len(ns.drop_last());
    }
}

/// Realizing an attribute list extended by one attribute extends the result
/// by that attribute's realization.
pub proof fn lemma_realize_attrs_model_push(
    attrs: Seq<(Seq<char>, AttributeModel)>,
    p: (Seq<char>, AttributeModel),
    lk: LookupFn,
)
    ensures
        realize_attrs_model(attrs.push(p), lk) == realize_attrs_model(attrs, lk).push(
            (p.0, realize_attr_model(p.1, lk)),
        ),
{
    assert(attrs.push(p).drop_last() =~= attrs);
}

/// Realizing a node list extended by one node extends the result by that
/// node's realization.
pub proof fn lemma_realize_nodes_model_push(ns: Seq<NodeModel>, n: NodeModel, lk: LookupFn)
    ensures
        realize_nodes_model(ns.push(n), lk) == realize_nodes_model(ns, lk).push(
            realize_node_model(n, lk),
        ),
{
    assert(ns.push(n).drop_last() =~= ns);
}

/// Resolution over a node list extended by one node.
pub proof fn lemma_nodes_resolve_push(ns: Seq<NodeModel>, n: NodeModel, lk: LookupFn)
    ensures
        nodes_resolve(ns.push(n), lk) == (nodes_resolve(ns, lk) && node_resolves(n, lk)),
{
    assert(ns.push(n).drop_last() =~= ns);
}

/// If every subtree of the list resolves, so does each single one.
pub proof fn lemma_nodes_resolve_index(ns: Seq<NodeModel>, lk: LookupFn, i: int)
    requires
        0 <= i < ns.len(),
        nodes_resolve(ns, lk),
    ensures
        node_resolves(ns[i], lk),
    decreases ns.len(),
{
    if i < ns.len() - 1 {
        lemma_nodes_resolve_index(ns.drop_last(), lk, i);
    }
}

/// A missing key in one subtree is a missing key of the whole list.
pub proof fn lemma_nodes_have_missing_key_index(
    ns: Seq<NodeModel>,
    lk: LookupFn,
    k: Seq<char>,
    i: int,
)
    requires
        0 <= i < ns.len(),
        node_has_missing_key(ns[i], lk, k),
    ensures
        nodes_have_missing_key(ns, lk, k),
    decreases ns.len(),
{
    if i < ns.len() - 1 {
        lemma_nodes_have_missing_key_index(ns.drop_last(), lk, k, i);
    }
}

/// Realize one attribute: a `Static` value passes through, a `Dynamic` key
/// is resolved through the component's lookup, a `Handler` message is bound
/// into a fresh dispatcher.
fn realize_attribute<C: Lookup>(name: &String, attr: &Attribute, component: &C) -> (r: Result<
    (String, VAttribute),
    ConfigurationError,
>)
    ensures
        match r {
            Ok(p) => {
                &&& attr_model_resolves(attr@, lookup_model(*component))
                &&& p.0@ == name@
                &&& p.1@ == realize_attr_model(attr@, lookup_model(*component))
            },
            Err(e) => {
                &&& attr@ == AttributeModel::Dynamic(e.key@)
                &&& lookup_model(*component)(e.key@) is None
            },
        },
{
    match attr {
        Attribute::Static(value) => Ok((name.clone(), VAttribute::Attribute(value.clone()))),
        Attribute::Dynamic(key) => match component.lookup(key) {
            Some(v) => Ok((name.clone(), VAttribute::Attribute(v))),
            None => Err(ConfigurationError { key: key.clone() }),
        },
        Attribute::Handler(message) => Ok(
            (name.clone(), VAttribute::Handler(Dispatcher { message: message.clone() })),
        ),
    }
}

/// Realize an attribute list in order.  Fails fatally on the first
/// unresolvable `Dynamic` key.
fn realize_attributes<C: Lookup>(attrs: &Attributes, component: &C) -> (r: Result<
    VAttributes,
    ConfigurationError,
>)
    ensures
        match r {
            Ok(ras) => {
                &&& attrs_resolve(attrs.deep_view(), lookup_model(*component))
                &&& ras.deep_view() == realize_attrs_model(
                    attrs.deep_view(),
                    lookup_model(*component),
                )
            },
            Err(e) => attrs_have_key_unresolved(
                attrs.deep_view(),
                lookup_model(*component),
                e.key@,
            ),
        },
{
    let ghost lk = lookup_model(*component);
    let ghost dv = attrs.deep_view();
    let mut out: VAttributes = Vec::new();
    let mut i: usize = 0;
    while i < attrs.len()
        invariant
            i <= attrs.len(),
            dv == attrs.deep_view(),
            lk == lookup_model(*component),
            dv.len() == attrs@.len(),
            out.deep_view() == realize_attrs_model(dv.take(i as int), lk),
            forall|j: int| 0 <= j < i ==> attr_model_resolves(#[trigger] dv[j].1, lk),
        decreases attrs.len() - i,
    {
        let pair = &attrs[i];
        match realize_attribute(&pair.0, &pair.1, component) {
            Ok(p) => {
                proof {
                    assert(dv[i as int] == (pair.0@, pair.1@));
                    assert(dv.take(i + 1) =~= dv.take(i as int).push(dv[i as int]));
                    lemma_realize_attrs_model_push(dv.take(i as int), dv[i as int], lk);
                }
                let ghost prev = out.deep_view();
                let ghost pm = p.deep_view();
                out.push(p);
                proof {
                    assert(out.deep_view() =~= prev.push(pm));
                }
            },
            Err(e) => {
                proof {
                    assert(dv[i as int].1 == AttributeModel::Dynamic(e.key@));
                }
                return Err(e);
            },
        }
        i += 1;
    }
    proof {
        assert(dv.take(dv.len() as int) =~= dv);
    }
    Ok(out)
}

impl Node {
    /// Bind this template node against a component: text passes through,
    /// element attributes are realized one by one, children recursively in
    /// template order.  An unresolvable `Dynamic` key anywhere in the
    /// subtree fails the whole realization with a `ConfigurationError`
    /// naming that key.
    pub fn realize<C: Lookup>(&self, component: &C) -> (r: Result<VNode, ConfigurationError>)
        ensures
            match r {
                Ok(v) => {
                    &&& node_resolves(self@, lookup_model(*component))
                    &&& v@ == realize_node_model(self@, lookup_model(*component))
                },
                Err(e) => {
                    &&& !node_resolves(self@, lookup_model(*component))
                    &&& node_has_missing_key(self@, lookup_model(*component), e.key@)
                },
            },
        decreases *self,
    {
        let ghost lk = lookup_model(*component);
        let data = match &self.data {
            NodeData::Text { content } => VNodeData::Text { content: content.clone() },
            NodeData::Element { tag, attributes } => {
                match realize_attributes(attributes, component) {
                    Ok(ras) => VNodeData::Element { tag: tag.clone(), attributes: ras },
                    Err(e) => {
                        return Err(e);
                    },
                }
            },
        };
        match realize_children(&self.children, component) {
            Ok(children) => {
                let v = VNode { data, children };
                proof {
                    assert(v@.data == realize_data_model(self@.data, lk));
                }
                Ok(v)
            },
            Err(e) => Err(e),
        }
    }
}

/// Realize a list of sibling template nodes in order.  Fails fatally on the
/// first unresolvable `Dynamic` key.
pub fn realize_children<C: Lookup>(nodes: &Vec<Node>, component: &C) -> (r: Result<
    Vec<VNode>,
    ConfigurationError,
>)
    ensures
        match r {
            Ok(vs) => {
                &&& nodes_resolve(Node::models(nodes@), lookup_model(*component))
                &&& VNode::models(vs@) == realize_nodes_model(
                    Node::models(nodes@),
                    lookup_model(*component),
                )
            },
            Err(e) => {
                &&& !nodes_resolve(Node::models(nodes@), lookup_model(*component))
                &&& nodes_have_missing_key(Node::models(nodes@), lookup_model(*component), e.key@)
            },
        },
    decreases *nodes,
{
    let ghost lk = lookup_model(*component);
    let ghost ms = Node::models(nodes@);
    let mut out: Vec<VNode> = Vec::new();
    let mut i: usize = 0;
    proof {
        lemma_node_models_len(nodes@);
    }
    while i < nodes.len()
        invariant
            i <= nodes.len(),
            ms == Node::models(nodes@),
            lk == lookup_model(*component),
            ms.len() == nodes@.len(),
            VNode::models(out@) == realize_nodes_model(ms.take(i as int), lk),
            nodes_resolve(ms.take(i as int), lk),
        decreases nodes.len() - i,
    {
        let node = &nodes[i];
        proof {
            lemma_node_models_index(nodes@, i as int);
        }
        match node.realize(component) {
            Ok(v) => {
                proof {
                    assert(ms.take(i + 1) =~= ms.take(i as int).push(ms[i as int]));
                    lemma_realize_nodes_model_push(ms.take(i as int), ms[i as int], lk);
                    lemma_nodes_resolve_push(ms.take(i as int), ms[i as int], lk);
                    assert(VNode::models(out@.push(v)) == VNode::models(out@).push(v@)) by {
                        assert(out@.push(v).drop_last() =~= out@);
                    }
                }
                out.push(v);
            },
            Err(e) => {
                proof {
                    if nodes_resolve(ms, lk) {
                        lemma_nodes_resolve_index(ms, lk, i as int);
                    }
                    lemma_nodes_have_missing_key_index(ms, lk, e.key@, i as int);
                }
                return Err(e);
            },
        }
        i += 1;
    }
    proof {
        assert(ms.take(ms.len() as int) =~= ms);
    }
    Ok(out)
}

impl Node {
    /// An owned copy of the whole subtree, equal in model to the original.
    /// The template of a runtime is built once and shared by value; a
    /// driver constructing several runtimes over one template copies it
    /// with this.
    pub fn duplicate(&self) -> (n: Node)
        ensures
            n@ == self@,
        decreases *self,
    {
        Node { data: self.data.duplicate(), children: duplicate_nodes(&self.children) }
    }
}

/// An owned copy of a node list, equal in model to the original.
pub fn duplicate_nodes(ns: &Vec<Node>) -> (r: Vec<Node>)
    ensures
        Node::models(r@) == Node::models(ns@),
    decreases *ns,
{
    let ghost ms = Node::models(ns@);
    let mut out: Vec<Node> = Vec::new();
    let mut i: usize = 0;
    proof {
        lemma_node_models_len(ns@);
    }
    while i < ns.len()
        invariant
            i <= ns.len(),
            ms == Node::models(ns@),
            ms.len() == ns@.len(),
            Node::models(out@) == ms.take(i as int),
        decreases ns.len() - i,
    {
        let node = &ns[i];
        proof {
            lemma_node_models_index(ns@, i as int);
        }
        let copy = node.duplicate();
        proof {
            assert(ms.take(i + 1) =~= ms.take(i as int).push(ms[i as int]));
            assert(Node::models(out@.push(copy)) == Node::models(out@).push(copy@)) by {
                assert(out@.push(copy).drop_last() =~= out@);
            }
        }
        out.push(copy);
        i += 1;
    }
    proof {
        assert(ms.take(ms.len() as int) =~= ms);
    }
    out
}

} // verus!
