//! The style record: the aggregate of all visual and layout properties one
//! view carries, with its defaults and its NaN-aware equality, and the
//! `Stylable` capability supplying the chainable setters.

use vstd::prelude::*;
use crate::layout::Align;
use crate::layout::Edges;
use crate::layout::Size;
use crate::layout::edges_eq;
use crate::layout::size_eq;
use crate::pixels::Px;
use crate::pixels::nan_aware_eq_bits;
use crate::pixels::nan_aware_eq_spec;
use crate::utils::Rgba;
use crate::fragment::Fragment;
use crate::view::ViewNode;

verus! {

/// The bit pattern of the 32-bit IEEE-754 value 2.0: the default padding and
/// margin on each side.
pub const DEFAULT_SPACING_BITS: u32 = 0x4000_0000;

/// The default font size.
pub const DEFAULT_FONT_SIZE: u32 = 12;

/// The aggregate of all visual and layout properties for one view.
#[derive(Clone, Copy, Debug)]
pub struct Style {
    pub width: Size,
    pub height: Size,
    pub min_width: Size,
    pub min_height: Size,
    pub max_width: Size,
    pub max_height: Size,
    pub v_align: Align,
    pub h_align: Align,
    pub padding: Edges,
    pub margin: Edges,
    pub font_size: u32,
    pub color: Rgba,
    pub background_color: Rgba,
    pub border_width: Edges,
    pub border_color: Rgba,
    pub border_radius: Px,
}

impl Style {
    /// The default style record: automatic sizing, stretched alignment,
    /// two pixels of padding and margin, a 12-point white foreground over a
    /// transparent background, and no border.
    pub open spec fn default_spec() -> Style {
        Style {
            width: Size::Auto,
            height: Size::Auto,
            min_width: Size::Auto,
            min_height: Size::Auto,
            max_width: Size::Auto,
            max_height: Size::Auto,
            v_align: Align::Stretch,
            h_align: Align::Stretch,
            padding: Edges {
                top: Px { bits: DEFAULT_SPACING_BITS },
                right: Px { bits: DEFAULT_SPACING_BITS },
                bottom: Px { bits: DEFAULT_SPACING_BITS },
                left: Px { bits: DEFAULT_SPACING_BITS },
            },
            margin: Edges {
                top: Px { bits: DEFAULT_SPACING_BITS },
                right: Px { bits: DEFAULT_SPACING_BITS },
                bottom: Px { bits: DEFAULT_SPACING_BITS },
                left: Px { bits: DEFAULT_SPACING_BITS },
            },
            font_size: DEFAULT_FONT_SIZE,
            color: Rgba { r: 255, g: 255, b: 255, a: 255 },
            background_color: Rgba { r: 0, g: 0, b: 0, a: 0 },
            border_width: Edges {
                top: Px { bits: 0 },
                right: Px { bits: 0 },
                bottom: Px { bits: 0 },
                left: Px { bits: 0 },
            },
            border_color: Rgba { r: 255, g: 255, b: 255, a: 255 },
            border_radius: Px { bits: 0 },
        }
    }
}

/// What `==` on `Style` returns: float-bearing fields are compared NaN-aware,
/// the rest exactly.
pub open spec fn style_eq(a: Style, b: Style) -> bool {
    &&& size_eq(a.width, b.width)
    &&& size_eq(a.height, b.height)
    &&& size_eq(a.min_width, b.min_width)
    &&& size_eq(a.min_height, b.min_height)
    &&& size_eq(a.max_width, b.max_width)
    &&& size_eq(a.max_height, b.max_height)
    &&& a.v_align == b.v_align
    &&& a.h_align == b.h_align
    &&& edges_eq(a.padding, b.padding)
    &&& edges_eq(a.margin, b.margin)
    &&& a.font_size == b.font_size
    &&& a.color == b.color
    &&& a.background_color == b.background_color
    &&& edges_eq(a.border_width, b.border_width)
    &&& a.border_color == b.border_color
    &&& nan_aware_eq_spec(a.border_radius.bits, b.border_radius.bits)
}

impl Default for Style {
    fn default() -> (s: Style)
        ensures
            s == Style::default_spec(),
    {
        Style {
            width: Size::Auto,
            height: Size::Auto,
            min_width: Size::Auto,
            min_height: Size::Auto,
            max_width: Size::Auto,
            max_height: Size::Auto,
            v_align: Align::Stretch,
            h_align: Align::Stretch,
            padding: Edges::all(Px { bits: DEFAULT_SPACING_BITS }),
            margin: Edges::all(Px { bits: DEFAULT_SPACING_BITS }),
            font_size: DEFAULT_FONT_SIZE,
            color: Rgba { r: 255, g: 255, b: 255, a: 255 },
            background_color: Rgba { r: 0, g: 0, b: 0, a: 0 },
            border_width: Edges::all(Px { bits: 0 }),
            border_color: Rgba { r: 255, g: 255, b: 255, a: 255 },
            border_radius: Px { bits: 0 },
        }
    }
}

impl PartialEq for Style {
    fn eq(&self, other: &Style) -> (r: bool) {
        self.width == other.width && self.height == other.height && self.min_width
            == other.min_width && self.min_height == other.min_height && self.max_width
            == other.max_width && self.max_height == other.max_height && self.v_align
            == other.v_align && self.h_align == other.h_align && self.padding == other.padding
            && self.margin == other.margin && self.font_size == other.font_size && self.color
            == other.color && self.background_color == other.background_color && self.border_width
            == other.border_width && self.border_color == other.border_color && nan_aware_eq_bits(
            self.border_radius.bits,
            other.border_radius.bits,
        )
    }
}

impl vstd::std_specs::cmp::PartialEqSpecImpl for Style {
    open spec fn obeys_eq_spec() -> bool {
        true
    }

    open spec fn eq_spec(&self, other: &Style) -> bool {
        style_eq(*self, *other)
    }
}

/// The builder capability every view has: each setter consumes the view,
/// replaces one field of the embedded fragment's style, and returns the
/// moved view; everything else is kept, so setters targeting disjoint
/// fields commute and on one field the last write wins.
pub trait Stylable: ViewNode {
    /// Replaces the whole style record.
    fn set_style(self, style: Style) -> (r: Self)
        ensures
            r.frag_spec() == (Fragment { style, ..self.frag_spec() }),
            r == self.with_frag(r.frag_spec()),
    {
        let mut s = self;
        let f = s.frag_mut();
        f.style = style;
        s
    }

    /// Replaces the width.
    fn set_width(self, width: Size) -> (r: Self)
        ensures
            r.frag_spec() == (Fragment {
                style: (Style { width, ..self.frag_spec().style }),
                ..self.frag_spec()
            }),
            r == self.with_frag(r.frag_spec()),
    {
        let mut s = self;
        let f = s.frag_mut();
        f.style.width = width;
        s
    }

    /// Replaces the height.
    fn set_height(self, height: Size) -> (r: Self)
        ensures
            r.frag_spec() == (Fragment {
                style: (Style { height, ..self.frag_spec().style }),
                ..self.frag_spec()
            }),
            r == self.with_frag(r.frag_spec()),
    {
        let mut s = self;
        let f = s.frag_mut();
        f.style.height = height;
        s
    }

    /// Replaces the minimum width.
    fn set_min_width(self, min_width: Size) -> (r: Self)
        ensures
            r.frag_spec() == (Fragment {
                style: (Style { min_width, ..self.frag_spec().style }),
                ..self.frag_spec()
            }),
            r == self.with_frag(r.frag_spec()),
    {
        let mut s = self;
        let f = s.frag_mut();
        f.style.min_width = min_width;
        s
    }

    /// Replaces the minimum height.
    fn set_min_height(self, min_height: Size) -> (r: Self)
        ensures
            r.frag_spec() == (Fragment {
                style: (Style { min_height, ..self.frag_spec().style }),
                ..self.frag_spec()
            }),
            r == self.with_frag(r.frag_spec()),
    {
        let mut s = self;
        let f = s.frag_mut();
        f.style.min_height = min_height;
        s
    }

    /// Replaces the maximum width.
    fn set_max_width(self, max_width: Size) -> (r: Self)
        ensures
            r.frag_spec() == (Fragment {
                style: (Style { max_width, ..self.frag_spec().style }),
                ..self.frag_spec()
            }),
            r == self.with_frag(r.frag_spec()),
    {
        let mut s = self;
        let f = s.frag_mut();
        f.style.max_width = max_width;
        s
    }

    /// Replaces the maximum height.
    fn set_max_height(self, max_height: Size) -> (r: Self)
        ensures
            r.frag_spec() == (Fragment {
                style: (Style { max_height, ..self.frag_spec().style }),
                ..self.frag_spec()
            }),
            r == self.with_frag(r.frag_spec()),
    {
        let mut s = self;
        let f = s.frag_mut();
        f.style.max_height = max_height;
        s
    }

    /// Replaces the padding.
    fn set_padding(self, padding: Edges) -> (r: Self)
        ensures
            r.frag_spec() == (Fragment {
                style: (Style { padding, ..self.frag_spec().style }),
                ..self.frag_spec()
            }),
            r == self.with_frag(r.frag_spec()),
    {
        let mut s = self;
        let f = s.frag_mut();
        f.style.padding = padding;
        s
    }

    /// Replaces the margin.
    fn set_margin(self, margin: Edges) -> (r: Self)
        ensures
            r.frag_spec() == (Fragment {
                style: (Style { margin, ..self.frag_spec().style }),
                ..self.frag_spec()
            }),
            r == self.with_frag(r.frag_spec()),
    {
        let mut s = self;
        let f = s.frag_mut();
        f.style.margin = margin;
        s
    }

    /// Replaces the font size.
    fn set_font_size(self, size: u32) -> (r: Self)
        ensures
            r.frag_spec() == (Fragment {
                style: (Style { font_size: size, ..self.frag_spec().style }),
                ..self.frag_spec()
            }),
            r == self.with_frag(r.frag_spec()),
    {
        let mut s = self;
        let f = s.frag_mut();
        f.style.font_size = size;
        s
    }

    /// Replaces the foreground color.
    fn set_font_color(self, color: Rgba) -> (r: Self)
        ensures
            r.frag_spec() == (Fragment {
                style: (Style { color, ..self.frag_spec().style }),
                ..self.frag_spec()
            }),
            r == self.with_frag(r.frag_spec()),
    {
        let mut s = self;
        let f = s.frag_mut();
        f.style.color = color;
        s
    }

    /// Replaces the background color.
    fn set_background_color(self, color: Rgba) -> (r: Self)
        ensures
            r.frag_spec() == (Fragment {
                style: (Style { background_color: color, ..self.frag_spec().style }),
                ..self.frag_spec()
            }),
            r == self.with_frag(r.frag_spec()),
    {
        let mut s = self;
        let f = s.frag_mut();
        f.style.background_color = color;
        s
    }

    /// Replaces the border width.
    fn set_border_width(self, width: Edges) -> (r: Self)
        ensures
            r.frag_spec() == (Fragment {
                style: (Style { border_width: width, ..self.frag_spec().style }),
                ..self.frag_spec()
            }),
            r == self.with_frag(r.frag_spec()),
    {
        let mut s = self;
        let f = s.frag_mut();
        f.style.border_width = width;
        s
    }

    /// Replaces the border color.
    fn set_border_color(self, color: Rgba) -> (r: Self)
        ensures
            r.frag_spec() == (Fragment {
                style: (Style { border_color: color, ..self.frag_spec().style }),
                ..self.frag_spec()
            }),
            r == self.with_frag(r.frag_spec()),
    {
        let mut s = self;
        let f = s.frag_mut();
        f.style.border_color = color;
        s
    }

    /// Replaces the border radius.
    fn set_border_radius(self, radius: Px) -> (r: Self)
        ensures
            r.frag_spec() == (Fragment {
                style: (Style { border_radius: radius, ..self.frag_spec().style }),
                ..self.frag_spec()
            }),
            r == self.with_frag(r.frag_spec()),
    {
        let mut s = self;
        let f = s.frag_mut();
        f.style.border_radius = radius;
        s
    }

    /// Replaces the vertical alignment.
    fn set_v_align(self, align: Align) -> (r: Self)
        ensures
            r.frag_spec() == (Fragment {
                style: (Style { v_align: align, ..self.frag_spec().style }),
                ..self.frag_spec()
            }),
            r == self.with_frag(r.frag_spec()),
    {
        let mut s = self;
        let f = s.frag_mut();
        f.style.v_align = align;
        s
    }

    /// Replaces the horizontal alignment.
    fn set_h_align(self, align: Align) -> (r: Self)
        ensures
            r.frag_spec() == (Fragment {
                style: (Style { h_align: align, ..self.frag_spec().style }),
                ..self.frag_spec()
            }),
            r == self.with_frag(r.frag_spec()),
    {
        let mut s = self;
        let f = s.frag_mut();
        f.style.h_align = align;
        s
    }
}

impl<T: ViewNode> Stylable for T {

}

/// Style setters targeting disjoint fields commute, shown for a
/// representative pair of fields: updating the width and then the height
/// of any style record meets updating them the other way round.
pub proof fn lemma_disjoint_setters_commute(s: Style, w: Size, h: Size)
    ensures
        (Style { height: h, ..(Style { width: w, ..s }) }) == (Style {
            width: w,
            ..(Style { height: h, ..s })
        }),
{
}

/// On one field the last write wins: two updates of the same field of any
/// style record leave exactly the second value, shown for the width.
pub proof fn lemma_same_setter_last_write_wins(s: Style, a: Size, b: Size)
    ensures
        (Style { width: b, ..(Style { width: a, ..s }) }) == (Style { width: b, ..s }),
{
}

} // verus!
