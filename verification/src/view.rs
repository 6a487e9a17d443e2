//! The view capability and the two structural roles: single-child containers
//! and ordered multi-child containers.

use vstd::prelude::*;
use crate::elements::Element;
use crate::fragment::Fragment;

verus! {

/// The view capability: every node of the UI tree embeds exactly one
/// `Fragment` and exposes it.
pub trait ViewNode: Sized {
    /// The fragment this view owns.
    spec fn frag_spec(&self) -> Fragment;

    /// This view with its fragment replaced and every other part of its
    /// state kept.
    spec fn with_frag(&self, f: Fragment) -> Self;

    /// A read-only borrow of the embedded fragment.
    fn frag(&self) -> (f: &Fragment)
        ensures
            *f == self.frag_spec(),
    ;

    /// A mutable borrow of the embedded fragment: the view afterwards is the
    /// old view with the fragment replaced by whatever the borrow wrote.
    fn frag_mut(&mut self) -> (f: &mut Fragment)
        ensures
            *f == old(self).frag_spec(),
            *final(self) == old(self).with_frag(*final(f)),
            final(self).frag_spec() == *final(f),
    ;
}

/// The single-child container role: the consuming setter replaces the unique
/// child, and the most recent replacement wins.
pub trait ItemView: ViewNode {
    /// Replaces the unique child with `item`; any previous child is dropped.
    fn set_item(self, item: Element) -> (r: Self)
        ensures
            r.frag_spec().items@ == seq![item],
            r.frag_spec().style == self.frag_spec().style,
            r.frag_spec().id == self.frag_spec().id,
            r == self.with_frag(r.frag_spec()),
    {
        let mut s = self;
        let mut items: Vec<Element> = Vec::new();
        items.push(item);
        let f = s.frag_mut();
        f.items = items;
        proof {
            assert(s.frag_spec().items@ =~= seq![item]);
        }
        s
    }

    /// A read-only borrow of the unique child, if one was set.
    fn get_item(&self) -> (r: Option<&Element>)
        ensures
            match r {
                Some(e) => self.frag_spec().items@.len() >= 1 && *e == self.frag_spec().items@[0],
                None => self.frag_spec().items@.len() == 0,
            },
    {
        let f = self.frag();
        if f.items.len() >= 1 {
            Some(&f.items[0])
        } else {
            None
        }
    }
}

/// The ordered multi-child container role: children are appended and
/// enumerated in insertion order.
pub trait ItemsView: ViewNode {
    /// Appends `item` after every child already present.
    fn add_item(self, item: Element) -> (r: Self)
        ensures
            r.frag_spec().items@ == self.frag_spec().items@.push(item),
            r.frag_spec().style == self.frag_spec().style,
            r.frag_spec().id == self.frag_spec().id,
            r == self.with_frag(r.frag_spec()),
    {
        let mut s = self;
        let f = s.frag_mut();
        f.items.push(item);
        s
    }

    /// A read-only borrow of the children, in insertion order.
    fn items(&self) -> (r: &Vec<Element>)
        ensures
            r@ == self.frag_spec().items@,
    {
        &self.frag().items
    }
}

/// Append order: appending `a`, then `b`, then `c` to any children sequence
/// leaves them at the end, in exactly that order.
pub proof fn lemma_append_order(s: Seq<Element>, a: Element, b: Element, c: Element)
    ensures
        s.push(a).push(b).push(c) == s + seq![a, b, c],
{
    assert(s.push(a).push(b).push(c) =~= s + seq![a, b, c]);
}

} // verus!
