//! The view tree produced by each render, and its materialization into
//! plain presentation nodes that a host-specific driver can attach.

use vstd::prelude::*;

verus! {

/// A callback bound to a platform event during realization.  It carries the
/// message that, when the event fires, is forwarded to the owning runtime's
/// component through [`crate::framework::ComponentRuntime::dispatch`].  It
/// holds no reference to the component or the dirty signal: the runtime owns
/// both, and a dispatcher outliving its runtime is dispatched as a no-op.
#[derive(Debug, Clone)]
pub struct Dispatcher {
    pub message: String,
}

/// Mathematical model of a [`Dispatcher`].
pub struct DispatcherModel {
    pub message: Seq<char>,
}

impl View for Dispatcher {
    type V = DispatcherModel;

    open spec fn view(&self) -> DispatcherModel {
        DispatcherModel { message: self.message@ }
    }
}

impl DeepView for Dispatcher {
    type V = DispatcherModel;

    open spec fn deep_view(&self) -> DispatcherModel {
        self.view()
    }
}

impl Dispatcher {
    /// An owned copy, equal to the original.
    pub fn duplicate(&self) -> (d: Dispatcher)
        ensures
            d == *self,
    {
        Dispatcher { message: self.message.clone() }
    }
}

/// A resolved attribute of the view tree: a literal value, or an event
/// binding carrying its dispatcher.
#[derive(Debug)]
pub enum VAttribute {
    Attribute(String),
    Handler(Dispatcher),
}

/// Mathematical model of a [`VAttribute`].
pub enum VAttributeModel {
    Attribute(Seq<char>),
    Handler(DispatcherModel),
}

impl View for VAttribute {
    type V = VAttributeModel;

    open spec fn view(&self) -> VAttributeModel {
        match self {
            VAttribute::Attribute(v) => VAttributeModel::Attribute(v@),
            VAttribute::Handler(d) => VAttributeModel::Handler(d@),
        }
    }
}

impl DeepView for VAttribute {
    type V = VAttributeModel;

    open spec fn deep_view(&self) -> VAttributeModel {
        self.view()
    }
}

/// Resolved attributes of a view element, keyed by attribute name, in
/// template order.
pub type VAttributes = Vec<(String, VAttribute)>;

/// The two node shapes of the view tree.
#[derive(Debug)]
pub enum VNodeData {
    Element { tag: String, attributes: VAttributes },
    Text { content: String },
}

/// Mathematical model of a [`VNodeData`].
pub enum VNodeDataModel {
    Element { tag: Seq<char>, attributes: Seq<(Seq<char>, VAttributeModel)> },
    Text { content: Seq<char> },
}

impl View for VNodeData {
    type V = VNodeDataModel;

    open spec fn view(&self) -> VNodeDataModel {
        match self {
            VNodeData::Element { tag, attributes } => VNodeDataModel::Element {
                tag: tag@,
                attributes: attributes.deep_view(),
            },
            VNodeData::Text { content } => VNodeDataModel::Text { content: content@ },
        }
    }
}

impl DeepView for VNodeData {
    type V = VNodeDataModel;

    open spec fn deep_view(&self) -> VNodeDataModel {
        self.view()
    }
}

/// A node of the view tree produced by one render.
#[derive(Debug)]
pub struct VNode {
    pub data: VNodeData,
    pub children: Vec<VNode>,
}

/// Mathematical model of a [`VNode`].
pub struct VNodeModel {
    pub data: VNodeDataModel,
    pub children: Seq<VNodeModel>,
}

impl VNode {
    pub open spec fn model(self) -> VNodeModel
        decreases self,
    {
        VNodeModel { data: self.data@, children: VNode::models(self.children@) }
    }

    pub open spec fn models(ns: Seq<VNode>) -> Seq<VNodeModel>
        decreases ns,
    {
        if ns.len() == 0 {
            Seq::empty()
        } else {
            VNode::models(ns.drop_last()).push(ns.last().model())
        }
    }
}

impl View for VNode {
    type V = VNodeModel;

    open spec fn view(&self) -> VNodeModel {
        self.model()
    }
}

impl DeepView for VNode {
    type V = VNodeModel;

    open spec fn deep_view(&self) -> VNodeModel {
        self.model()
    }
}

/// The view tree of one render: the ordered list of view roots.
pub type VDom = Vec<VNode>;

/// A plain presentation node.  A driver walks this tree and attaches it to
/// the host display system: literal attributes through a set-attribute
/// primitive, listeners through an add-listener primitive keyed by the event
/// type, children appended in order after the node's own attributes and
/// listeners.
#[derive(Debug)]
pub enum DomNode {
    Text(String),
    Element {
        tag: String,
        attributes: Vec<(String, String)>,
        listeners: Vec<(String, Dispatcher)>,
        children: Vec<DomNode>,
    },
}

/// Mathematical model of a [`DomNode`].
pub enum DomNodeModel {
    Text(Seq<char>),
    Element {
        tag: Seq<char>,
        attributes: Seq<(Seq<char>, Seq<char>)>,
        listeners: Seq<(Seq<char>, DispatcherModel)>,
        children: Seq<DomNodeModel>,
    },
}

impl DomNode {
    pub open spec fn model(self) -> DomNodeModel
        decreases self,
    {
        match self {
            DomNode::Text(content) => DomNodeModel::Text(content@),
            DomNode::Element { tag, attributes, listeners, children } => DomNodeModel::Element {
                tag: tag@,
                attributes: attributes.deep_view(),
                listeners: listeners.deep_view(),
                children: DomNode::models(children@),
            },
        }
    }

    pub open spec fn models(ns: Seq<DomNode>) -> Seq<DomNodeModel>
        decreases ns,
    {
        if ns.len() == 0 {
            Seq::empty()
        } else {
            DomNode::models(ns.drop_last()).push(ns.last().model())
        }
    }
}

impl View for DomNode {
    type V = DomNodeModel;

    open spec fn view(&self) -> DomNodeModel {
        self.model()
    }
}

impl DeepView for DomNode {
    type V = DomNodeModel;

    open spec fn deep_view(&self) -> DomNodeModel {
        self.model()
    }
}

/// The literal attributes among a view element's resolved attributes, in
/// order: what the driver hands to the set-attribute primitive.
pub open spec fn value_attrs_model(
    attrs: Seq<(Seq<char>, VAttributeModel)>,
) -> Seq<(Seq<char>, Seq<char>)>
    decreases attrs,
{
    if attrs.len() == 0 {
        Seq::empty()
    } else {
        let rest = value_attrs_model(attrs.drop_last());
        match attrs.last().1 {
            VAttributeModel::Attribute(v) => rest.push((attrs.last().0, v)),
            VAttributeModel::Handler(d) => rest,
        }
    }
}

/// The event bindings among a view element's resolved attributes, in order,
/// keyed by the event type: what the driver hands to the add-listener
/// primitive.
pub open spec fn listener_attrs_model(
    attrs: Seq<(Seq<char>, VAttributeModel)>,
) -> Seq<(Seq<char>, DispatcherModel)>
    decreases attrs,
{
    if attrs.len() == 0 {
        Seq::empty()
    } else {
        let rest = listener_attrs_model(attrs.drop_last());
        match attrs.last().1 {
            VAttributeModel::Attribute(v) => rest,
            VAttributeModel::Handler(d) => rest.push((attrs.last().0, d)),
        }
    }
}

/// What materialization turns one view node into: text nodes become text
/// presentation nodes, elements keep their tag, attributes and listeners,
/// and children are materialized in order.
pub open spec fn materialize_node_model(v: VNodeModel) -> DomNodeModel
    decreases v,
{
    match v.data {
        VNodeDataModel::Text { content } => DomNodeModel::Text(content),
        VNodeDataModel::Element { tag, attributes } => DomNodeModel::Element {
            tag: tag,
            attributes: value_attrs_model(attributes),
            listeners: listener_attrs_model(attributes),
            children: materialize_nodes_model(v.children),
        },
    }
}

/// What materialization turns a list of sibling view nodes into.
pub open spec fn materialize_nodes_model(vs: Seq<VNodeModel>) -> Seq<DomNodeModel>
    decreases vs,
{
    if vs.len() == 0 {
        Seq::empty()
    } else {
        materialize_nodes_model(vs.drop_last()).push(materialize_node_model(vs.last()))
    }
}

/// `VNode::models` keeps the length.
pub proof fn lemma_vnode_models_len(vs: Seq<VNode>)
    ensures
        VNode::models(vs).len() == vs.len(),
    decreases vs.len(),
{
    if vs.len() > 0 {
        lemma_vnode_models_len(vs.drop_last());
    }
}

/// `VNode::models` maps the sequence elementwise.
pub proof fn lemma_vnode_models_index(vs: Seq<VNode>, i: int)
    requires
        0 <= i < vs.len(),
    ensures
        VNode::models(vs).len() == vs.len(),
        VNode::models(vs)[i] == vs[i].model(),
    decreases vs.len(),
{
    lemma_vnode_models_len(vs);
    if i < vs.len() - 1 {
        lemma_vnode_models_index(vs.drop_last(), i);
    }
}

/// Splitting an attribute list extended by one resolved attribute.
pub proof fn lemma_split_attrs_push(
    attrs: Seq<(Seq<char>, VAttributeModel)>,
    p: (Seq<char>, VAttributeModel),
)
    ensures
        value_attrs_model(attrs.push(p)) == (match p.1 {
            VAttributeModel::Attribute(v) => value_attrs_model(attrs).push((p.0, v)),
            VAttributeModel::Handler(d) => value_attrs_model(attrs),
        }),
        listener_attrs_model(attrs.push(p)) == (match p.1 {
            VAttributeModel::Attribute(v) => listener_attrs_model(attrs),
            VAttributeModel::Handler(d) => listener_attrs_model(attrs).push((p.0, d)),
        }),
{
    assert(attrs.push(p).drop_last() =~= attrs);
}

/// Materializing a view node list extended by one node extends the result
/// by that node's materialization.
pub proof fn lemma_materialize_nodes_model_push(vs: Seq<VNodeModel>, v: VNodeModel)
    ensures
        materialize_nodes_model(vs.push(v)) == materialize_nodes_model(vs).push(
            materialize_node_model(v),
        ),
{
    assert(vs.push(v).drop_last() =~= vs);
}

/// Split a view element's resolved attributes into the literal attribute
/// values and the event listeners, each list in template order.
fn split_attributes(attrs: &VAttributes) -> (r: (Vec<(String, String)>, Vec<(String, Dispatcher)>))
    ensures
        r.0.deep_view() == value_attrs_model(attrs.deep_view()),
        r.1.deep_view() == listener_attrs_model(attrs.deep_view()),
{
    let ghost dv = attrs.deep_view();
    let mut values: Vec<(String, String)> = Vec::new();
    let mut listeners: Vec<(String, Dispatcher)> = Vec::new();
    let mut i: usize = 0;
    while i < attrs.len()
        invariant
            i <= attrs.len(),
            dv == attrs.deep_view(),
            dv.len() == attrs@.len(),
            values.deep_view() == value_attrs_model(dv.take(i as int)),
            listeners.deep_view() == listener_attrs_model(dv.take(i as int)),
        decreases attrs.len() - i,
    {
        let pair = &attrs[i];
        proof {
            assert(dv[i as int] == (pair.0@, pair.1@));
            assert(dv.take(i + 1) =~= dv.take(i as int).push(dv[i as int]));
            lemma_split_attrs_push(dv.take(i as int), dv[i as int]);
        }
        match &pair.1 {
            VAttribute::Attribute(v) => {
                let ghost prev = values.deep_view();
                values.push((pair.0.clone(), v.clone()));
                proof {
                    assert(values.deep_view() =~= prev.push((pair.0@, v@)));
                }
            },
            VAttribute::Handler(d) => {
                let ghost prev = listeners.deep_view();
                listeners.push((pair.0.clone(), d.duplicate()));
                proof {
                    assert(listeners.deep_view() =~= prev.push((pair.0@, d@)));
                }
            },
        }
        i += 1;
    }
    proof {
        assert(dv.take(dv.len() as int) =~= dv);
    }
    (values, listeners)
}

impl VNode {
    /// Materialize this view node into a plain presentation node: text
    /// passes through; an element keeps its tag, its literal attributes and
    /// its listeners, and materializes its children in order.
    pub fn to_dom(&self) -> (d: DomNode)
        ensures
            d@ == materialize_node_model(self@),
        decreases *self,
    {
        match &self.data {
            VNodeData::Text { content } => DomNode::Text(content.clone()),
            VNodeData::Element { tag, attributes } => {
                let split = split_attributes(attributes);
                let children = materialize_children(&self.children);
                DomNode::Element {
                    tag: tag.clone(),
                    attributes: split.0,
                    listeners: split.1,
                    children,
                }
            },
        }
    }
}

/// Materialize a list of sibling view nodes in order.
pub fn materialize_children(vs: &Vec<VNode>) -> (r: Vec<DomNode>)
    ensures
        DomNode::models(r@) == materialize_nodes_model(VNode::models(vs@)),
    decreases *vs,
{
    let ghost ms = VNode::models(vs@);
    let mut out: Vec<DomNode> = Vec::new();
    let mut i: usize = 0;
    proof {
        lemma_vnode_models_len(vs@);
    }
    while i < vs.len()
        invariant
            i <= vs.len(),
            ms == VNode::models(vs@),
            ms.len() == vs@.len(),
            DomNode::models(out@) == materialize_nodes_model(ms.take(i as int)),
        decreases vs.len() - i,
    {
        let node = &vs[i];
        proof {
            lemma_vnode_models_index(vs@, i as int);
        }
        let d = node.to_dom();
        proof {
            assert(ms.take(i + 1) =~= ms.take(i as int).push(ms[i as int]));
            lemma_materialize_nodes_model_push(ms.take(i as int), ms[i as int]);
            assert(DomNode::models(out@.push(d)) == DomNode::models(out@).push(d@)) by {
                assert(out@.push(d).drop_last() =~= out@);
            }
        }
        out.push(d);
        i += 1;
    }
    proof {
        assert(ms.take(ms.len() as int) =~= ms);
    }
    out
}

} // verus!
