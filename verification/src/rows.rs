//! The row model that every report in this crate produces: a table row is a
//! fixed-width sequence of cells, each cell either display text or an integer
//! rendered in decimal by the consumer.

use vstd::prelude::*;

verus! {

/// One table cell: display text, or an integer the renderer prints in decimal.
#[derive(Debug, Clone, PartialEq, Eq)]
pub enum Cell {
    Text(String),
    Num(u64),
}

/// The mathematical value of a cell: its text as a sequence of characters,
/// or its number as an unbounded integer.
pub enum CellV {
    Text(Seq<char>),
    Num(int),
}

impl View for Cell {
    type V = CellV;

    open spec fn view(&self) -> CellV {
        match self {
            Cell::Text(s) => CellV::Text(s@),
            Cell::Num(n) => CellV::Num(*n as int),
        }
    }
}

/// One report row.  `emphasis` tags title and summary rows so the renderer
/// can set them apart; it never changes the cell contents.
#[derive(Debug, Clone)]
pub struct Row {
    pub cells: Vec<Cell>,
    pub emphasis: bool,
}

impl View for Row {
    type V = Seq<CellV>;

    open spec fn view(&self) -> Seq<CellV> {
        self.cells@.map_values(|c: Cell| c@)
    }
}

impl Row {
    /// A plain (unemphasised) row over the given cells.
    pub fn plain(cells: Vec<Cell>) -> (r: Row)
        ensures
            r@ == cells@.map_values(|c: Cell| c@),
            !r.emphasis,
    {
        Row { cells, emphasis: false }
    }

    /// An emphasised row (titles, summary lines) over the given cells.
    pub fn emphasised(cells: Vec<Cell>) -> (r: Row)
        ensures
            r@ == cells@.map_values(|c: Cell| c@),
            r.emphasis,
    {
        Row { cells, emphasis: true }
    }
}

} // verus!
