//! The universal embedded record every view owns: its style, its identifier
//! for event routing, and its owned children in insertion order.

use vstd::prelude::*;
use crate::elements::Element;
use crate::style::Style;

verus! {

/// The record every view embeds: a style, an optional identifier (the empty
/// string means none), and the ordered sequence of owned children.
pub struct Fragment {
    pub style: Style,
    pub id: String,
    pub items: Vec<Element>,
}

impl Default for Fragment {
    /// The default fragment: default style, no identifier, no children.
    fn default() -> (f: Fragment)
        ensures
            f.style == Style::default_spec(),
            f.id@ == Seq::<char>::empty(),
            f.items@ == Seq::<Element>::empty(),
    {
        let f = Fragment { style: Style::default(), id: String::new(), items: Vec::new() };
        proof {
            assert(f.id@ =~= Seq::<char>::empty());
            assert(f.items@ =~= Seq::<Element>::empty());
        }
        f
    }
}

} // verus!
