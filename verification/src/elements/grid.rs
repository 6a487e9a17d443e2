//! The grid: an ordered multi-child container that pairs every child with
//! placement metadata.

use vstd::prelude::*;
use crate::elements::Element;
use crate::fragment::Fragment;
use crate::view::ViewNode;

verus! {

/// Placement metadata for one grid child: the cell it starts in and how many
/// rows and columns it spans.
#[derive(Clone, Copy, Debug, PartialEq, Eq, Structural)]
pub struct GridPosition {
    pub row: u32,
    pub column: u32,
    pub row_span: u32,
    pub column_span: u32,
}

impl GridPosition {
    /// The placement starting at `(row, column)` with the default spans.
    pub fn from_row_col(row: u32, column: u32) -> (p: GridPosition)
        ensures
            p == (GridPosition { row, column, row_span: 1, column_span: 1 }),
    {
        GridPosition { row, column, row_span: 1, column_span: 1 }
    }

    /// This placement with its row span replaced.
    pub fn row_span(self, span: u32) -> (p: GridPosition)
        ensures
            p == (GridPosition { row_span: span, ..self }),
    {
        GridPosition { row_span: span, ..self }
    }

    /// This placement with its column span replaced.
    pub fn column_span(self, span: u32) -> (p: GridPosition)
        ensures
            p == (GridPosition { column_span: span, ..self }),
    {
        GridPosition { column_span: span, ..self }
    }
}

impl Default for GridPosition {
    /// The default placement: the top-left cell, spanning one row and one
    /// column.
    fn default() -> (p: GridPosition)
        ensures
            p == (GridPosition { row: 0, column: 0, row_span: 1, column_span: 1 }),
    {
        GridPosition { row: 0, column: 0, row_span: 1, column_span: 1 }
    }
}

impl From<(u32, u32)> for GridPosition {
    /// A pair `(row, column)` converts to the placement at that cell with
    /// the default spans.
    fn from(value: (u32, u32)) -> (p: GridPosition)
        ensures
            p == (GridPosition { row: value.0, column: value.1, row_span: 1, column_span: 1 }),
    {
        GridPosition { row: value.0, column: value.1, row_span: 1, column_span: 1 }
    }
}

impl vstd::std_specs::convert::FromSpecImpl<(u32, u32)> for GridPosition {
    open spec fn obeys_from_spec() -> bool {
        true
    }

    open spec fn from_spec(value: (u32, u32)) -> GridPosition {
        GridPosition { row: value.0, column: value.1, row_span: 1, column_span: 1 }
    }
}

impl From<(u32, u32, u32, u32)> for GridPosition {
    /// A quadruple converts to a placement in the order row, column, row
    /// span, column span.
    fn from(value: (u32, u32, u32, u32)) -> (p: GridPosition)
        ensures
            p == (GridPosition {
                row: value.0,
                column: value.1,
                row_span: value.2,
                column_span: value.3,
            }),
    {
        GridPosition { row: value.0, column: value.1, row_span: value.2, column_span: value.3 }
    }
}

impl vstd::std_specs::convert::FromSpecImpl<(u32, u32, u32, u32)> for GridPosition {
    open spec fn obeys_from_spec() -> bool {
        true
    }

    open spec fn from_spec(value: (u32, u32, u32, u32)) -> GridPosition {
        GridPosition { row: value.0, column: value.1, row_span: value.2, column_span: value.3 }
    }
}

/// An ordered multi-child container with grid dimensions; every child is
/// paired with its placement. Placements are not checked against the
/// dimensions: that is the layout collaborator's job.
pub struct Grid {
    pub frag: Fragment,
    pub rows: u32,
    pub cols: u32,
    pub positions: Vec<GridPosition>,
}

impl Grid {
    /// A grid keeps one placement per child, in the same order.
    pub open spec fn wf(&self) -> bool {
        self.positions@.len() == self.frag.items@.len()
    }

    /// The grid's row count.
    pub open spec fn rows_spec(&self) -> u32 {
        self.rows
    }

    /// The grid's column count.
    pub open spec fn cols_spec(&self) -> u32 {
        self.cols
    }

    /// The placements of the children, in insertion order.
    pub open spec fn positions_spec(&self) -> Seq<GridPosition> {
        self.positions@
    }

    /// The grid's row count.
    pub fn rows(&self) -> (r: u32)
        ensures
            r == self.rows_spec(),
    {
        self.rows
    }

    /// The grid's column count.
    pub fn columns(&self) -> (r: u32)
        ensures
            r == self.cols_spec(),
    {
        self.cols
    }

    /// A read-only borrow of the placements, in insertion order.
    pub fn positions(&self) -> (r: &Vec<GridPosition>)
        ensures
            r@ == self.positions_spec(),
    {
        &self.positions
    }

    /// A read-only borrow of the children, in insertion order.
    pub fn items(&self) -> (r: &Vec<Element>)
        ensures
            r@ == self.frag_spec().items@,
    {
        &self.frag.items
    }

    /// This grid with its dimensions replaced; children and placements are
    /// kept.
    pub fn rows_cols(self, rows: u32, cols: u32) -> (r: Grid)
        ensures
            r == (Grid { rows, cols, ..self }),
    {
        Grid { rows, cols, ..self }
    }

    /// This grid with its dimensions replaced; a longhand spelling of
    /// `rows_cols`.
    pub fn set_rows_columns(self, rows: u32, columns: u32) -> (r: Grid)
        ensures
            r == (Grid { rows, cols: columns, ..self }),
    {
        self.rows_cols(rows, columns)
    }

    /// Appends `item` placed at `pos` after every child already present.
    pub fn add_item(self, pos: GridPosition, item: Element) -> (r: Grid)
        ensures
            r.frag_spec().items@ == self.frag_spec().items@.push(item),
            r.positions_spec() == self.positions_spec().push(pos),
            r.frag_spec().style == self.frag_spec().style,
            r.frag_spec().id == self.frag_spec().id,
            r.rows_spec() == self.rows_spec(),
            r.cols_spec() == self.cols_spec(),
            self.wf() ==> r.wf(),
    {
        let mut s = self;
        s.frag.items.push(item);
        s.positions.push(pos);
        s
    }
}

impl Default for Grid {
    /// The default grid: default style, one row, one column, no children.
    fn default() -> (g: Grid)
        ensures
            g.frag_spec().style == crate::style::Style::default_spec(),
            g.frag_spec().items@ == Seq::<Element>::empty(),
            g.frag_spec().id@ == Seq::<char>::empty(),
            g.rows_spec() == 1,
            g.cols_spec() == 1,
            g.positions_spec() == Seq::<GridPosition>::empty(),
            g.wf(),
    {
        let g = Grid { frag: Fragment::default(), rows: 1, cols: 1, positions: Vec::new() };
        proof {
            assert(g.positions@ =~= Seq::<GridPosition>::empty());
        }
        g
    }
}

impl ViewNode for Grid {
    open spec fn frag_spec(&self) -> Fragment {
        self.frag
    }

    open spec fn with_frag(&self, f: Fragment) -> Grid {
        Grid { frag: f, rows: self.rows, cols: self.cols, positions: self.positions }
    }

    fn frag(&self) -> (f: &Fragment) {
        &self.frag
    }

    fn frag_mut(&mut self) -> (f: &mut Fragment) {
        &mut self.frag
    }
}

} // verus!
