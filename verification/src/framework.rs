//! Component capability traits, the shared dirty signal, and the component
//! runtime that orchestrates realization and materialization.

use vstd::prelude::*;

use crate::templating::{
    nodes_have_missing_key, nodes_resolve, realize_children, realize_nodes_model, LookupFn, Node,
    NodeModel, Template,
};
use crate::vdom::{
    materialize_children, materialize_nodes_model, Dispatcher, DomNode, VDom, VNode,
};

verus! {

/// The read accessor a component exposes for `Dynamic` attribute
/// resolution.  `spec_lookup` is the mathematical model of the accessor;
/// `lookup` must agree with it.
pub trait Lookup: Sized {
    /// What `lookup` returns, as a mathematical function of the component's
    /// state and the key.
    spec fn spec_lookup(&self, k: Seq<char>) -> Option<Seq<char>>;

    /// Resolve a key to its displayable value, or nothing where the
    /// component does not know the key.
    fn lookup(&self, k: &String) -> (r: Option<String>)
        ensures
            r.deep_view() == self.spec_lookup(k@),
    ;
}

/// The message-receiving capability of a component.  `next_state` and
/// `renders_dirty` are the mathematical model of `handle`: the state after
/// receiving a message, and whether the change is render-significant.
pub trait Component: Lookup {
    /// The component's state after handling the message.
    spec fn next_state(&self, message: Seq<char>) -> Self;

    /// Whether handling the message reports a render-significant change.
    spec fn renders_dirty(&self, message: Seq<char>) -> bool;

    /// Receive one message, mutating the component's state; the result
    /// signals that a render-significant change occurred.
    fn handle(&mut self, message: String) -> (b: bool)
        ensures
            *final(self) == old(self).next_state(message@),
            b == old(self).renders_dirty(message@),
    ;
}

/// The lookup capability of a component as a standalone mathematical
/// function, the form in which the realization specifications consume it.
pub open spec fn lookup_model<C: Lookup>(c: C) -> LookupFn {
    |k: Seq<char>| c.spec_lookup(k)
}

/// Rendering is idempotent: realizing one template against two component
/// states whose lookup outputs agree on every key yields identical view
/// trees.  Since [`ComponentRuntime::render`] neither changes the
/// component nor the template, two successive renders with no intervening
/// render-significant `handle` produce view trees of identical content.
pub proof fn lemma_realize_idempotent<C: Lookup>(template: Seq<NodeModel>, c1: C, c2: C)
    requires
        forall|k: Seq<char>| c1.spec_lookup(k) == c2.spec_lookup(k),
    ensures
        realize_nodes_model(template, lookup_model(c1)) == realize_nodes_model(
            template,
            lookup_model(c2),
        ),
{
    assert(lookup_model(c1) =~= lookup_model(c2));
}

/// Fatal realization failure: a `Dynamic` attribute names a key that the
/// component's lookup does not resolve.  The whole render is abandoned;
/// nothing is retried.
#[derive(Debug)]
pub struct ConfigurationError {
    pub key: String,
}

/// Shared flag indicating that a re-render is warranted.  It is updated by
/// dispatch outcomes and never consumed by the core itself: an external
/// driver reads it and decides when to call `render` again.
pub struct Dirty {
    pub dirty: bool,
}

impl Dirty {
    /// A fresh dirty signal starts out set, so that a driver performs the
    /// initial render.
    pub fn new() -> (d: Self)
        ensures
            d.dirty,
    {
        Self { dirty: true }
    }
}

/// Owns one component instance, the template it is bound to, the shared
/// dirty signal, and the view tree of the current render generation.
///
/// The component slot stands for the weak back-references of the event
/// dispatch path: while the runtime is live the slot is occupied, and
/// [`ComponentRuntime::dispatch`] borrows the component transiently for one
/// call; after [`ComponentRuntime::destroy`] the slot is empty and every
/// dispatcher ever handed out by this runtime dispatches as a no-op.
pub struct ComponentRuntime<C: Component> {
    pub component: Option<C>,
    pub dirty: Dirty,
    pub template: Template,
    pub vdom: VDom,
}

impl<C: Component> ComponentRuntime<C> {
    /// The runtime still owns its component: it has not been destroyed.
    pub open spec fn is_live(self) -> bool {
        self.component is Some
    }

    /// The owned component's state, meaningful while the runtime is live.
    pub open spec fn spec_component(self) -> C {
        self.component.unwrap()
    }

    /// A fresh runtime: component installed, no view tree yet, dirty signal
    /// set so that a driver performs the initial render.
    pub fn new(component: C, template: Template) -> (rt: Self)
        ensures
            rt.is_live(),
            rt.spec_component() == component,
            rt.template == template,
            rt.dirty.dirty,
            rt.vdom@ == Seq::<VNode>::empty(),
    {
        ComponentRuntime {
            component: Some(component),
            dirty: Dirty::new(),
            template: template,
            vdom: Vec::new(),
        }
    }

    /// One full render: realize every template root against the component,
    /// keep the fresh view tree, and materialize it into presentation roots
    /// for the caller to attach.  An unresolvable `Dynamic` key abandons
    /// the whole render: the previous view tree stays in place and no
    /// presentation nodes are produced.  The component's state, the
    /// template and the dirty signal are never changed by rendering.
    pub fn render(&mut self) -> (r: Result<Vec<DomNode>, ConfigurationError>)
        requires
            old(self).is_live(),
        ensures
            final(self).component == old(self).component,
            final(self).template == old(self).template,
            final(self).dirty == old(self).dirty,
            match r {
                Ok(doms) => {
                    &&& nodes_resolve(
                        Node::models(old(self).template@),
                        lookup_model(old(self).spec_component()),
                    )
                    &&& VNode::models(final(self).vdom@) == realize_nodes_model(
                        Node::models(old(self).template@),
                        lookup_model(old(self).spec_component()),
                    )
                    &&& DomNode::models(doms@) == materialize_nodes_model(
                        VNode::models(final(self).vdom@),
                    )
                },
                Err(e) => {
                    &&& !nodes_resolve(
                        Node::models(old(self).template@),
                        lookup_model(old(self).spec_component()),
                    )
                    &&& nodes_have_missing_key(
                        Node::models(old(self).template@),
                        lookup_model(old(self).spec_component()),
                        e.key@,
                    )
                    &&& final(self).vdom == old(self).vdom
                },
            },
    {
        let realized = match &self.component {
            Some(component) => realize_children(&self.template, component),
            None => vstd::pervasive::unreached(),
        };
        match realized {
            Ok(vdom) => {
                self.vdom = vdom;
                let doms = materialize_children(&self.vdom);
                Ok(doms)
            },
            Err(e) => Err(e),
        }
    }

    /// Invoke one dispatcher against this runtime.  While the runtime is
    /// live, the component handles the dispatcher's message exactly once,
    /// and the dirty signal is set exactly where the component reports a
    /// render-significant change (an already-set signal stays set).  On a
    /// destroyed runtime the event is dropped: a no-op, never a fault.
    pub fn dispatch(&mut self, d: &Dispatcher)
        ensures
            !old(self).is_live() ==> *final(self) == *old(self),
            old(self).is_live() ==> {
                &&& final(self).is_live()
                &&& final(self).spec_component() == old(self).spec_component().next_state(
                    d@.message,
                )
                &&& final(self).dirty.dirty == (old(self).dirty.dirty
                    || old(self).spec_component().renders_dirty(d@.message))
                &&& final(self).template == old(self).template
                &&& final(self).vdom == old(self).vdom
            },
    {
        match self.component.take() {
            Some(mut component) => {
                let is_dirty = component.handle(d.message.clone());
                self.component = Some(component);
                if is_dirty {
                    self.dirty.dirty = true;
                }
            },
            None => {},
        }
    }

    /// Tear the runtime down: drop the component and the current view
    /// tree.  Every dispatcher handed out by past renders is invalidated
    /// deterministically: dispatching through this runtime is a no-op from
    /// now on.
    pub fn destroy(&mut self)
        ensures
            !final(self).is_live(),
            final(self).template == old(self).template,
            final(self).dirty == old(self).dirty,
            final(self).vdom@ == Seq::<VNode>::empty(),
    {
        self.component = None;
        self.vdom = Vec::new();
    }

    /// Whether the dirty signal is set: a dispatch reported a
    /// render-significant change since the signal was last cleared.
    pub fn is_dirty(&self) -> (b: bool)
        ensures
            b == self.dirty.dirty,
    {
        self.dirty.dirty
    }

    /// Clear the dirty signal: the external driver acknowledges it, most
    /// often right before a render it decided to perform.  The core never
    /// clears the signal on its own.
    pub fn clear_dirty(&mut self)
        ensures
            !final(self).dirty.dirty,
            final(self).component == old(self).component,
            final(self).template == old(self).template,
            final(self).vdom == old(self).vdom,
    {
        self.dirty.dirty = false;
    }
}

} // verus!
