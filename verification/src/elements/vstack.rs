//! The vertical stack: an ordered multi-child container.

use vstd::prelude::*;
use crate::elements::Element;
use crate::fragment::Fragment;
use crate::view::ItemsView;
use crate::view::ViewNode;

verus! {

/// An ordered multi-child container stacking its children vertically; the
/// stacking itself is the layout collaborator's job.
pub struct VStack {
    pub frag: Fragment,
}

impl VStack {
    /// A stack with the default style and no children.
    pub fn new() -> (v: VStack)
        ensures
            v.frag_spec().style == crate::style::Style::default_spec(),
            v.frag_spec().items@ == Seq::<Element>::empty(),
            v.frag_spec().id@ == Seq::<char>::empty(),
    {
        VStack { frag: Fragment::default() }
    }

    /// Appends a child; a shorter spelling of `add_item`.
    pub fn add(self, item: Element) -> (r: VStack)
        ensures
            r.frag_spec().items@ == self.frag_spec().items@.push(item),
            r.frag_spec().style == self.frag_spec().style,
            r.frag_spec().id == self.frag_spec().id,
    {
        self.add_item(item)
    }
}

impl Default for VStack {
    /// The default stack: default style, no children.
    fn default() -> (v: VStack)
        ensures
            v.frag_spec().style == crate::style::Style::default_spec(),
            v.frag_spec().items@ == Seq::<Element>::empty(),
            v.frag_spec().id@ == Seq::<char>::empty(),
    {
        VStack::new()
    }
}

impl ViewNode for VStack {
    open spec fn frag_spec(&self) -> Fragment {
        self.frag
    }

    open spec fn with_frag(&self, f: Fragment) -> VStack {
        VStack { frag: f }
    }

    fn frag(&self) -> (f: &Fragment) {
        &self.frag
    }

    fn frag_mut(&mut self) -> (f: &mut Fragment) {
        &mut self.frag
    }
}

impl ItemsView for VStack {

}

} // verus!
