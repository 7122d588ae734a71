//! A small reactive template-realization and rendering engine.
//!
//! A static [`templating::Node`] tree (the template) is bound against a
//! stateful component implementing [`framework::Lookup`] and
//! [`framework::Component`] to produce a view tree of [`vdom::VNode`]s with
//! resolved attribute values and bound event dispatchers.  The view tree is
//! then materialized into plain presentation nodes ([`vdom::DomNode`]) that a
//! host-specific driver attaches under a mount point.

pub mod digits;
pub mod framework;
pub mod html;
pub mod templating;
pub mod vdom;

use vstd::prelude::*;

use crate::digits::{i32_to_string, int_digits};
use crate::framework::{Component, Lookup};

verus! {

/// A sample component: a counter.  It exposes its count under the lookup
/// key `count` and increments it on the message `increment`, reporting the
/// change as render-significant.
pub struct Root {
    pub count: i32,
}

impl Root {
    pub fn new() -> (r: Root)
        ensures
            r.count == 0,
    {
        Root { count: 0 }
    }
}

/// The messages the sample component understands.
pub enum Msg {
    Increment,
}

impl Msg {
    /// Parse a message string; an unknown message is no message.
    pub fn from_str(message: String) -> (m: Option<Msg>)
        ensures
            m == (if message@ == "increment"@ {
                Some(Msg::Increment)
            } else {
                None::<Msg>
            }),
    {
        if message == String::from_str("increment") {
            Some(Msg::Increment)
        } else {
            None
        }
    }
}

impl Lookup for Root {
    open spec fn spec_lookup(&self, k: Seq<char>) -> Option<Seq<char>> {
        if k == "count"@ {
            Some(int_digits(self.count as int))
        } else {
            None
        }
    }

    fn lookup(&self, k: &String) -> (r: Option<String>) {
        if *k == String::from_str("count") {
            Some(i32_to_string(self.count))
        } else {
            None
        }
    }
}

impl Component for Root {
    open spec fn next_state(&self, message: Seq<char>) -> Root {
        if message == "increment"@ {
            Root { count: vstd::wrapping::i32_specs::wrapping_add(self.count, 1) }
        } else {
            *self
        }
    }

    open spec fn renders_dirty(&self, message: Seq<char>) -> bool {
        message == "increment"@
    }

    fn handle(&mut self, message: String) -> (b: bool) {
        match Msg::from_str(message) {
            Some(Msg::Increment) => {
                self.count = self.count.wrapping_add(1);
                true
            },
            None => false,
        }
    }
}

} // verus!
