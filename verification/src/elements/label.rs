//! The text leaf.

use vstd::prelude::*;
use vstd::string::StringExecFns;
use crate::fragment::Fragment;
use crate::view::ViewNode;

verus! {

/// A leaf view displaying a piece of text. It carries no children.
pub struct Label {
    pub frag: Fragment,
    pub text: String,
}

impl Label {
    /// The text this label displays.
    pub open spec fn text_spec(&self) -> Seq<char> {
        self.text@
    }

    /// A read-only borrow of the displayed text.
    pub fn text(&self) -> (t: &String)
        ensures
            t@ == self.text_spec(),
    {
        &self.text
    }
}

impl<'a> From<&'a str> for Label {
    /// A label displaying `value`, with the default style and no children.
    fn from(value: &'a str) -> (l: Label)
        ensures
            l.text_spec() == value@,
            l.frag_spec().style == crate::style::Style::default_spec(),
            l.frag_spec().items@ == Seq::<crate::elements::Element>::empty(),
            l.frag_spec().id@ == Seq::<char>::empty(),
    {
        Label { frag: Fragment::default(), text: String::from_str(value) }
    }
}

impl<'a> vstd::std_specs::convert::FromSpecImpl<&'a str> for Label {
    open spec fn obeys_from_spec() -> bool {
        false
    }

    open spec fn from_spec(value: &'a str) -> Label {
        arbitrary()
    }
}

impl ViewNode for Label {
    open spec fn frag_spec(&self) -> Fragment {
        self.frag
    }

    open spec fn with_frag(&self, f: Fragment) -> Label {
        Label { frag: f, text: self.text }
    }

    fn frag(&self) -> (f: &Fragment) {
        &self.frag
    }

    fn frag_mut(&mut self) -> (f: &mut Fragment) {
        &mut self.frag
    }
}

} // verus!
