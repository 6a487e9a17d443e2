//! The concrete view kinds and the tagged child value that containers own.

use vstd::prelude::*;
use crate::fragment::Fragment;
use crate::view::ViewNode;

pub mod button;
pub mod grid;
pub mod label;
pub mod vstack;

pub use button::Button;
pub use button::Handler;
pub use grid::Grid;
pub use grid::GridPosition;
pub use label::Label;
pub use vstack::VStack;

verus! {

/// A child of a container: any of the known view kinds, tagged. The tag lets
/// the layout collaborator tell a leaf from a single-child or a multi-child
/// container by matching.
pub enum Element {
    Label(Label),
    Button(Button),
    VStack(VStack),
    Grid(Grid),
}

impl From<Label> for Element {
    /// A label becomes a child value.
    fn from(value: Label) -> (e: Element)
        ensures
            e == Element::Label(value),
    {
        Element::Label(value)
    }
}

impl vstd::std_specs::convert::FromSpecImpl<Label> for Element {
    open spec fn obeys_from_spec() -> bool {
        true
    }

    open spec fn from_spec(value: Label) -> Element {
        Element::Label(value)
    }
}

impl From<Button> for Element {
    /// A button becomes a child value.
    fn from(value: Button) -> (e: Element)
        ensures
            e == Element::Button(value),
    {
        Element::Button(value)
    }
}

impl vstd::std_specs::convert::FromSpecImpl<Button> for Element {
    open spec fn obeys_from_spec() -> bool {
        true
    }

    open spec fn from_spec(value: Button) -> Element {
        Element::Button(value)
    }
}

impl From<VStack> for Element {
    /// A stack becomes a child value.
    fn from(value: VStack) -> (e: Element)
        ensures
            e == Element::VStack(value),
    {
        Element::VStack(value)
    }
}

impl vstd::std_specs::convert::FromSpecImpl<VStack> for Element {
    open spec fn obeys_from_spec() -> bool {
        true
    }

    open spec fn from_spec(value: VStack) -> Element {
        Element::VStack(value)
    }
}

impl From<Grid> for Element {
    /// A grid becomes a child value.
    fn from(value: Grid) -> (e: Element)
        ensures
            e == Element::Grid(value),
    {
        Element::Grid(value)
    }
}

impl vstd::std_specs::convert::FromSpecImpl<Grid> for Element {
    open spec fn obeys_from_spec() -> bool {
        true
    }

    open spec fn from_spec(value: Grid) -> Element {
        Element::Grid(value)
    }
}

impl ViewNode for Element {
    open spec fn frag_spec(&self) -> Fragment {
        match self {
            Element::Label(v) => v.frag_spec(),
            Element::Button(v) => v.frag_spec(),
            Element::VStack(v) => v.frag_spec(),
            Element::Grid(v) => v.frag_spec(),
        }
    }

    open spec fn with_frag(&self, f: Fragment) -> Element {
        match self {
            Element::Label(v) => Element::Label(v.with_frag(f)),
            Element::Button(v) => Element::Button(v.with_frag(f)),
            Element::VStack(v) => Element::VStack(v.with_frag(f)),
            Element::Grid(v) => Element::Grid(v.with_frag(f)),
        }
    }

    fn frag(&self) -> (f: &Fragment) {
        match self {
            Element::Label(v) => v.frag(),
            Element::Button(v) => v.frag(),
            Element::VStack(v) => v.frag(),
            Element::Grid(v) => v.frag(),
        }
    }

    fn frag_mut(&mut self) -> (f: &mut Fragment) {
        match self {
            Element::Label(v) => v.frag_mut(),
            Element::Button(v) => v.frag_mut(),
            Element::VStack(v) => v.frag_mut(),
            Element::Grid(v) => v.frag_mut(),
        }
    }
}

} // verus!
