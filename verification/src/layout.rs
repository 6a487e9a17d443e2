//! Geometry primitives: alignment, sizing values and four-sided measurements.

use vstd::prelude::*;
use crate::pixels::Px;
use crate::pixels::f32_bits_of_i32;
use crate::pixels::f32_bits_of_u32;
use crate::pixels::f32_is_inf;
use crate::pixels::nan_aware_eq_bits;
use crate::pixels::nan_aware_eq_spec;
use crate::pixels::lemma_nan_aware_eq_reflexive;
use crate::pixels::lemma_nan_aware_eq_symmetric;
use crate::pixels::px_from_i32;
use crate::pixels::px_from_u32;

verus! {

/// Alignment policy on one axis; how `Start` and `End` read is axis-dependent
/// and left to the layout collaborator.
#[derive(Clone, Copy, Debug, PartialEq, Eq, Structural, Default)]
pub enum Align {
    #[default]
    Stretch,
    Start,
    Center,
    End,
}

/// A sizing value: either the solver chooses (`Auto`) or a fixed length.
#[derive(Clone, Copy, Debug)]
pub enum Size {
    Auto,
    Fixed(Px),
}

/// What `==` on `Size` returns: `Auto` equals only `Auto`, and fixed lengths
/// are compared NaN-aware.
pub open spec fn size_eq(a: Size, b: Size) -> bool {
    match (a, b) {
        (Size::Auto, Size::Auto) => true,
        (Size::Fixed(l), Size::Fixed(r)) => nan_aware_eq_spec(l.bits, r.bits),
        _ => false,
    }
}

impl Default for Size {
    /// The default sizing value lets the solver choose.
    fn default() -> (s: Size)
        ensures
            s == Size::Auto,
    {
        Size::Auto
    }
}

impl PartialEq for Size {
    fn eq(&self, other: &Size) -> (r: bool) {
        match (self, other) {
            (Size::Auto, Size::Auto) => true,
            (Size::Fixed(l), Size::Fixed(r)) => nan_aware_eq_bits(l.bits, r.bits),
            _ => false,
        }
    }
}

impl vstd::std_specs::cmp::PartialEqSpecImpl for Size {
    open spec fn obeys_eq_spec() -> bool {
        true
    }

    open spec fn eq_spec(&self, other: &Size) -> bool {
        size_eq(*self, *other)
    }
}

impl From<Px> for Size {
    /// A length converts to the fixed sizing value that holds it.
    fn from(value: Px) -> (s: Size)
        ensures
            s == Size::Fixed(value),
    {
        Size::Fixed(value)
    }
}

impl vstd::std_specs::convert::FromSpecImpl<Px> for Size {
    open spec fn obeys_from_spec() -> bool {
        true
    }

    open spec fn from_spec(value: Px) -> Size {
        Size::Fixed(value)
    }
}

impl From<u32> for Size {
    /// A whole number of pixels converts to the fixed sizing value nearest
    /// to it.
    fn from(value: u32) -> (s: Size)
        ensures
            s == Size::Fixed(Px { bits: f32_bits_of_u32(value) }),
    {
        Size::Fixed(px_from_u32(value))
    }
}

impl vstd::std_specs::convert::FromSpecImpl<u32> for Size {
    open spec fn obeys_from_spec() -> bool {
        true
    }

    open spec fn from_spec(value: u32) -> Size {
        Size::Fixed(Px { bits: f32_bits_of_u32(value) })
    }
}

impl From<i32> for Size {
    /// A signed whole number of pixels converts to the fixed sizing value
    /// nearest to it.
    fn from(value: i32) -> (s: Size)
        ensures
            s == Size::Fixed(Px { bits: f32_bits_of_i32(value) }),
    {
        Size::Fixed(px_from_i32(value))
    }
}

impl vstd::std_specs::convert::FromSpecImpl<i32> for Size {
    open spec fn obeys_from_spec() -> bool {
        true
    }

    open spec fn from_spec(value: i32) -> Size {
        Size::Fixed(Px { bits: f32_bits_of_i32(value) })
    }
}

/// A four-sided measurement in abstract pixels.
#[derive(Clone, Copy, Debug)]
pub struct Edges {
    pub top: Px,
    pub right: Px,
    pub bottom: Px,
    pub left: Px,
}

/// What `==` on `Edges` returns: each side is compared NaN-aware.
pub open spec fn edges_eq(a: Edges, b: Edges) -> bool {
    &&& nan_aware_eq_spec(a.top.bits, b.top.bits)
    &&& nan_aware_eq_spec(a.right.bits, b.right.bits)
    &&& nan_aware_eq_spec(a.bottom.bits, b.bottom.bits)
    &&& nan_aware_eq_spec(a.left.bits, b.left.bits)
}

impl Edges {
    /// The measurement with the same length on all four sides.
    pub fn all(value: Px) -> (e: Edges)
        ensures
            e == (Edges { top: value, right: value, bottom: value, left: value }),
    {
        Edges { top: value, right: value, bottom: value, left: value }
    }

    /// The measurement with `h` on left and right and `v` on top and bottom.
    pub fn horizontal_vertical(h: Px, v: Px) -> (e: Edges)
        ensures
            e == (Edges { top: v, right: h, bottom: v, left: h }),
    {
        Edges { top: v, right: h, bottom: v, left: h }
    }
}

impl Default for Edges {
    /// The default measurement is zero on all four sides.
    fn default() -> (e: Edges)
        ensures
            e == (Edges {
                top: Px { bits: 0 },
                right: Px { bits: 0 },
                bottom: Px { bits: 0 },
                left: Px { bits: 0 },
            }),
    {
        Edges {
            top: Px { bits: 0 },
            right: Px { bits: 0 },
            bottom: Px { bits: 0 },
            left: Px { bits: 0 },
        }
    }
}

impl PartialEq for Edges {
    fn eq(&self, other: &Edges) -> (r: bool) {
        nan_aware_eq_bits(self.top.bits, other.top.bits) && nan_aware_eq_bits(
            self.right.bits,
            other.right.bits,
        ) && nan_aware_eq_bits(self.bottom.bits, other.bottom.bits) && nan_aware_eq_bits(
            self.left.bits,
            other.left.bits,
        )
    }
}

impl vstd::std_specs::cmp::PartialEqSpecImpl for Edges {
    open spec fn obeys_eq_spec() -> bool {
        true
    }

    open spec fn eq_spec(&self, other: &Edges) -> bool {
        edges_eq(*self, *other)
    }
}

impl From<Px> for Edges {
    /// A single length converts to the measurement with that length on all
    /// four sides.
    fn from(value: Px) -> (e: Edges)
        ensures
            e == (Edges { top: value, right: value, bottom: value, left: value }),
    {
        Edges::all(value)
    }
}

impl vstd::std_specs::convert::FromSpecImpl<Px> for Edges {
    open spec fn obeys_from_spec() -> bool {
        true
    }

    open spec fn from_spec(value: Px) -> Edges {
        Edges { top: value, right: value, bottom: value, left: value }
    }
}

impl From<(Px, Px)> for Edges {
    /// A pair `(h, v)` converts to the measurement with `h` on left and right
    /// and `v` on top and bottom.
    fn from(value: (Px, Px)) -> (e: Edges)
        ensures
            e == (Edges { top: value.1, right: value.0, bottom: value.1, left: value.0 }),
    {
        Edges::horizontal_vertical(value.0, value.1)
    }
}

impl vstd::std_specs::convert::FromSpecImpl<(Px, Px)> for Edges {
    open spec fn obeys_from_spec() -> bool {
        true
    }

    open spec fn from_spec(value: (Px, Px)) -> Edges {
        Edges { top: value.1, right: value.0, bottom: value.1, left: value.0 }
    }
}

impl From<(Px, Px, Px, Px)> for Edges {
    /// A quadruple converts to the measurement with the sides in the order
    /// top, right, bottom, left.
    fn from(value: (Px, Px, Px, Px)) -> (e: Edges)
        ensures
            e == (Edges { top: value.0, right: value.1, bottom: value.2, left: value.3 }),
    {
        Edges { top: value.0, right: value.1, bottom: value.2, left: value.3 }
    }
}

impl vstd::std_specs::convert::FromSpecImpl<(Px, Px, Px, Px)> for Edges {
    open spec fn obeys_from_spec() -> bool {
        true
    }

    open spec fn from_spec(value: (Px, Px, Px, Px)) -> Edges {
        Edges { top: value.0, right: value.1, bottom: value.2, left: value.3 }
    }
}

impl From<u32> for Edges {
    /// A whole number of pixels converts to the measurement with the nearest
    /// length on all four sides.
    fn from(value: u32) -> (e: Edges)
        ensures
            e == (Edges {
                top: Px { bits: f32_bits_of_u32(value) },
                right: Px { bits: f32_bits_of_u32(value) },
                bottom: Px { bits: f32_bits_of_u32(value) },
                left: Px { bits: f32_bits_of_u32(value) },
            }),
    {
        Edges::all(px_from_u32(value))
    }
}

impl vstd::std_specs::convert::FromSpecImpl<u32> for Edges {
    open spec fn obeys_from_spec() -> bool {
        true
    }

    open spec fn from_spec(value: u32) -> Edges {
        let p = Px { bits: f32_bits_of_u32(value) };
        Edges { top: p, right: p, bottom: p, left: p }
    }
}

impl From<i32> for Edges {
    /// A signed whole number of pixels converts to the measurement with the
    /// nearest length on all four sides.
    fn from(value: i32) -> (e: Edges)
        ensures
            e == (Edges {
                top: Px { bits: f32_bits_of_i32(value) },
                right: Px { bits: f32_bits_of_i32(value) },
                bottom: Px { bits: f32_bits_of_i32(value) },
                left: Px { bits: f32_bits_of_i32(value) },
            }),
    {
        Edges::all(px_from_i32(value))
    }
}

impl vstd::std_specs::convert::FromSpecImpl<i32> for Edges {
    open spec fn obeys_from_spec() -> bool {
        true
    }

    open spec fn from_spec(value: i32) -> Edges {
        let p = Px { bits: f32_bits_of_i32(value) };
        Edges { top: p, right: p, bottom: p, left: p }
    }
}

impl From<(u32, u32)> for Edges {
    /// A pair `(h, v)` of whole numbers converts as `horizontal_vertical`
    /// over the nearest lengths.
    fn from(value: (u32, u32)) -> (e: Edges)
        ensures
            e == (Edges {
                top: Px { bits: f32_bits_of_u32(value.1) },
                right: Px { bits: f32_bits_of_u32(value.0) },
                bottom: Px { bits: f32_bits_of_u32(value.1) },
                left: Px { bits: f32_bits_of_u32(value.0) },
            }),
    {
        Edges::horizontal_vertical(px_from_u32(value.0), px_from_u32(value.1))
    }
}

impl vstd::std_specs::convert::FromSpecImpl<(u32, u32)> for Edges {
    open spec fn obeys_from_spec() -> bool {
        true
    }

    open spec fn from_spec(value: (u32, u32)) -> Edges {
        let h = Px { bits: f32_bits_of_u32(value.0) };
        let v = Px { bits: f32_bits_of_u32(value.1) };
        Edges { top: v, right: h, bottom: v, left: h }
    }
}

impl From<(i32, i32)> for Edges {
    /// A pair `(h, v)` of signed whole numbers converts as
    /// `horizontal_vertical` over the nearest lengths.
    fn from(value: (i32, i32)) -> (e: Edges)
        ensures
            e == (Edges {
                top: Px { bits: f32_bits_of_i32(value.1) },
                right: Px { bits: f32_bits_of_i32(value.0) },
                bottom: Px { bits: f32_bits_of_i32(value.1) },
                left: Px { bits: f32_bits_of_i32(value.0) },
            }),
    {
        Edges::horizontal_vertical(px_from_i32(value.0), px_from_i32(value.1))
    }
}

impl vstd::std_specs::convert::FromSpecImpl<(i32, i32)> for Edges {
    open spec fn obeys_from_spec() -> bool {
        true
    }

    open spec fn from_spec(value: (i32, i32)) -> Edges {
        let h = Px { bits: f32_bits_of_i32(value.0) };
        let v = Px { bits: f32_bits_of_i32(value.1) };
        Edges { top: v, right: h, bottom: v, left: h }
    }
}

impl From<(u32, u32, u32, u32)> for Edges {
    /// A quadruple of whole numbers converts side by side, in the order top,
    /// right, bottom, left.
    fn from(value: (u32, u32, u32, u32)) -> (e: Edges)
        ensures
            e == (Edges {
                top: Px { bits: f32_bits_of_u32(value.0) },
                right: Px { bits: f32_bits_of_u32(value.1) },
                bottom: Px { bits: f32_bits_of_u32(value.2) },
                left: Px { bits: f32_bits_of_u32(value.3) },
            }),
    {
        Edges {
            top: px_from_u32(value.0),
            right: px_from_u32(value.1),
            bottom: px_from_u32(value.2),
            left: px_from_u32(value.3),
        }
    }
}

impl vstd::std_specs::convert::FromSpecImpl<(u32, u32, u32, u32)> for Edges {
    open spec fn obeys_from_spec() -> bool {
        true
    }

    open spec fn from_spec(value: (u32, u32, u32, u32)) -> Edges {
        Edges {
            top: Px { bits: f32_bits_of_u32(value.0) },
            right: Px { bits: f32_bits_of_u32(value.1) },
            bottom: Px { bits: f32_bits_of_u32(value.2) },
            left: Px { bits: f32_bits_of_u32(value.3) },
        }
    }
}

impl From<(i32, i32, i32, i32)> for Edges {
    /// A quadruple of signed whole numbers converts side by side, in the
    /// order top, right, bottom, left.
    fn from(value: (i32, i32, i32, i32)) -> (e: Edges)
        ensures
            e == (Edges {
                top: Px { bits: f32_bits_of_i32(value.0) },
                right: Px { bits: f32_bits_of_i32(value.1) },
                bottom: Px { bits: f32_bits_of_i32(value.2) },
                left: Px { bits: f32_bits_of_i32(value.3) },
            }),
    {
        Edges {
            top: px_from_i32(value.0),
            right: px_from_i32(value.1),
            bottom: px_from_i32(value.2),
            left: px_from_i32(value.3),
        }
    }
}

impl vstd::std_specs::convert::FromSpecImpl<(i32, i32, i32, i32)> for Edges {
    open spec fn obeys_from_spec() -> bool {
        true
    }

    open spec fn from_spec(value: (i32, i32, i32, i32)) -> Edges {
        Edges {
            top: Px { bits: f32_bits_of_i32(value.0) },
            right: Px { bits: f32_bits_of_i32(value.1) },
            bottom: Px { bits: f32_bits_of_i32(value.2) },
            left: Px { bits: f32_bits_of_i32(value.3) },
        }
    }
}

/// NaN-aware equality on `Edges` is reflexive on every measurement none of
/// whose sides is an infinity, sides holding NaN included.
pub proof fn lemma_edges_eq_reflexive(e: Edges)
    requires
        !f32_is_inf(e.top.bits),
        !f32_is_inf(e.right.bits),
        !f32_is_inf(e.bottom.bits),
        !f32_is_inf(e.left.bits),
    ensures
        edges_eq(e, e),
{
    lemma_nan_aware_eq_reflexive(e.top.bits);
    lemma_nan_aware_eq_reflexive(e.right.bits);
    lemma_nan_aware_eq_reflexive(e.bottom.bits);
    lemma_nan_aware_eq_reflexive(e.left.bits);
}

/// NaN-aware equality on `Edges` is symmetric.
pub proof fn lemma_edges_eq_symmetric(a: Edges, b: Edges)
    ensures
        edges_eq(a, b) == edges_eq(b, a),
{
    lemma_nan_aware_eq_symmetric(a.top.bits, b.top.bits);
    lemma_nan_aware_eq_symmetric(a.right.bits, b.right.bits);
    lemma_nan_aware_eq_symmetric(a.bottom.bits, b.bottom.bits);
    lemma_nan_aware_eq_symmetric(a.left.bits, b.left.bits);
}

/// NaN-aware equality on `Size` is reflexive on every sizing value whose
/// fixed length, if any, is not an infinity.
pub proof fn lemma_size_eq_reflexive(s: Size)
    requires
        s matches Size::Fixed(p) ==> !f32_is_inf(p.bits),
    ensures
        size_eq(s, s),
{
    if let Size::Fixed(p) = s {
        lemma_nan_aware_eq_reflexive(p.bits);
    }
}

/// NaN-aware equality on `Size` is symmetric.
pub proof fn lemma_size_eq_symmetric(a: Size, b: Size)
    ensures
        size_eq(a, b) == size_eq(b, a),
{
    if let (Size::Fixed(l), Size::Fixed(r)) = (a, b) {
        lemma_nan_aware_eq_symmetric(l.bits, r.bits);
    }
}

} // verus!
