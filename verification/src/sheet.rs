//! Worksheets and workbooks.
//!
//! A worksheet is a `calamine::Range` of cell values. The engine reads it one
//! cell at a time, by absolute position (row, column), both counted from zero.

use calamine::Range;
use vstd::prelude::*;

use crate::cell::{CellValue, CellView};
use crate::text::text_eq;

verus! {

/// The cells of a worksheet, by absolute position (row, column).
pub type Grid = Map<(int, int), CellView>;

/// One worksheet: a rectangle of cells somewhere on the sheet's grid.
///
/// The cells are kept in a `calamine::Range`. What it holds is known through
/// `sheet_cells` alone, and only as far as the functions below say.
#[verifier::external_body]
pub struct Worksheet {
    range: Range<CellValue>,
}

/// The cells that a worksheet holds, by absolute position (row, column).
pub uninterp spec fn sheet_cells(ws: Worksheet) -> Map<(int, int), CellView>;

impl View for Worksheet {
    type V = Grid;

    open spec fn view(&self) -> Grid {
        sheet_cells(*self)
    }
}

/// `Range::new`: a range that covers the rectangle from `start` to `end`, both
/// included, with every cell empty. The call panics where an end coordinate is
/// below its start coordinate, and it counts the cells in `u32`. Like every
/// allocation, it ends the process where the memory for the cells cannot be
/// had.
#[verifier::external_body]
fn range_new(start: (u32, u32), end: (u32, u32)) -> (ws: Worksheet)
    requires
        start.0 <= end.0,
        start.1 <= end.1,
        (end.0 - start.0 + 1) * (end.1 - start.1 + 1) <= u32::MAX,
    ensures
        sheet_cells(ws) == blank_grid(start, end),
{
    Worksheet { range: Range::new(start, end) }
}

/// `Range::empty`: a range without cells.
#[verifier::external_body]
fn range_empty() -> (ws: Worksheet)
    ensures
        sheet_cells(ws) == no_cells(),
{
    Worksheet { range: Range::empty() }
}

/// `Range::get_value`: the cell at an absolute position, or nothing where the
/// position lies outside the rectangle that the range covers.
#[verifier::external_body]
fn range_get_value(ws: &Worksheet, row: u32, col: u32) -> (r: Option<&CellValue>)
    ensures
        r is Some <==> sheet_cells(*ws).contains_key((row as int, col as int)),
        r matches Some(v) ==> v@ == sheet_cells(*ws)[(row as int, col as int)],
{
    ws.range.get_value((row, col))
}

/// `Range::set_value` at a position that the range covers already: that cell
/// takes the value, and no other cell changes.
#[verifier::external_body]
fn range_set_value(ws: &mut Worksheet, row: u32, col: u32, value: CellValue)
    requires
        sheet_cells(*old(ws)).contains_key((row as int, col as int)),
    ensures
        sheet_cells(*final(ws)) == sheet_cells(*old(ws)).insert((row as int, col as int), value@),
{
    ws.range.set_value((row, col), value)
}

/// `Range::end`: the bottom right position of the rectangle that the range
/// covers, or nothing for a range without cells. The range covers that
/// position, and no cell lies below or to the right of it.
#[verifier::external_body]
fn range_end(ws: &Worksheet) -> (r: Option<(u32, u32)>)
    ensures
        match r {
            Some((last_row, last_col)) => within(sheet_cells(*ws), last_row + 1, last_col + 1)
                && sheet_cells(*ws).contains_key((last_row as int, last_col as int)),
            None => sheet_cells(*ws) == no_cells(),
        },
{
    ws.range.end()
}

/// The grid without cells.
pub open spec fn no_cells() -> Grid {
    Map::empty()
}

/// The grid of empty cells over the rectangle from `start` to `end`, both
/// included.
pub open spec fn blank_grid(start: (u32, u32), end: (u32, u32)) -> Grid {
    Map::new(
        |p: (int, int)| start.0 <= p.0 <= end.0 && start.1 <= p.1 <= end.1,
        |p: (int, int)| CellView::Empty,
    )
}

/// Whether every cell of the grid lies above row `rows` and left of column
/// `cols`.
pub open spec fn within(g: Grid, rows: int, cols: int) -> bool {
    forall|row: int, col: int| #[trigger] g.contains_key((row, col)) ==> row < rows && col < cols
}

/// The value at a position, with the empty cell standing for a position that
/// the grid does not cover.
pub open spec fn grid_value(g: Grid, row: int, col: int) -> CellView {
    if g.contains_key((row, col)) {
        g[(row, col)]
    } else {
        CellView::Empty
    }
}

/// Whether a rectangle can be allocated: its corners are in order and its
/// cells can be counted in 32 bits.
pub open spec fn rectangle_fits(start: (u32, u32), end: (u32, u32)) -> bool {
    &&& start.0 <= end.0
    &&& start.1 <= end.1
    &&& (end.0 - start.0 + 1) * (end.1 - start.1 + 1) <= u32::MAX
}

impl Worksheet {
    /// A worksheet without cells.
    pub fn empty() -> (ws: Worksheet)
        ensures
            ws@ == no_cells(),
    {
        range_empty()
    }

    /// A worksheet of empty cells over the rectangle from `start` to `end`,
    /// both included; nothing where the rectangle does not fit.
    pub fn new(start: (u32, u32), end: (u32, u32)) -> (r: Option<Worksheet>)
        ensures
            r is Some <==> rectangle_fits(start, end),
            r matches Some(ws) ==> ws@ == blank_grid(start, end),
    {
        if start.0 > end.0 || start.1 > end.1 {
            return None;
        }
        let height: u64 = (end.0 - start.0) as u64 + 1;
        let width: u64 = (end.1 - start.1) as u64 + 1;
        if height > u32::MAX as u64 || width > u32::MAX as u64 {
            assert(height * width > u32::MAX) by (nonlinear_arith)
                requires
                    height >= 1,
                    width >= 1,
                    height > u32::MAX || width > u32::MAX,
            ;
            return None;
        }
        assert(height * width <= 0xffff_ffff * 0xffff_ffff) by (nonlinear_arith)
            requires
                height <= 0xffff_ffff,
                width <= 0xffff_ffff,
        ;
        if height * width > u32::MAX as u64 {
            return None;
        }
        Some(range_new(start, end))
    }

    /// The cell at a position, or nothing where the worksheet does not cover
    /// the position.
    pub fn get(&self, row: u32, col: u32) -> (r: Option<&CellValue>)
        ensures
            r is Some <==> self@.contains_key((row as int, col as int)),
            r matches Some(v) ==> v@ == self@[(row as int, col as int)],
    {
        range_get_value(self, row, col)
    }

    /// Writes a cell that the worksheet covers and says so; leaves the
    /// worksheet as it is, and says so, where it does not cover the position.
    pub fn set(&mut self, row: u32, col: u32, value: CellValue) -> (done: bool)
        ensures
            done == old(self)@.contains_key((row as int, col as int)),
            final(self)@ == (if done {
                old(self)@.insert((row as int, col as int), value@)
            } else {
                old(self)@
            }),
    {
        let covered = range_get_value(self, row, col).is_some();
        if covered {
            range_set_value(self, row, col, value);
        }
        covered
    }

    /// The value at a position, empty where the worksheet does not cover it.
    pub fn read(&self, row: u32, col: u32) -> (v: CellValue)
        ensures
            v@ == grid_value(self@, row as int, col as int),
    {
        match range_get_value(self, row, col) {
            Some(v) => v.clone(),
            None => CellValue::Empty,
        }
    }

    /// The extent of the worksheet: the number of rows and of columns from the
    /// origin of the sheet to its last cell. Every cell lies above that row and
    /// left of that column, and the cell in the corner before them is covered.
    /// Both are zero for a worksheet without cells.
    pub fn extent(&self) -> (r: (u64, u64))
        ensures
            r.0 <= u32::MAX + 1,
            r.1 <= u32::MAX + 1,
            within(self@, r.0 as int, r.1 as int),
            self@ == no_cells() ==> r == (0u64, 0u64),
            self@ != no_cells() ==> self@.contains_key((r.0 - 1, r.1 - 1)),
    {
        match range_end(self) {
            Some((last_row, last_col)) => (last_row as u64 + 1, last_col as u64 + 1),
            None => (0, 0),
        }
    }
}

/// A worksheet under its name.
pub struct NamedSheet {
    pub name: String,
    pub sheet: Worksheet,
}

/// An opened workbook: its worksheets, in workbook order.
pub struct Workbook {
    pub sheets: Vec<NamedSheet>,
}

/// The mathematical value of a workbook: names and grids, in workbook order.
pub type Book = Seq<(Seq<char>, Grid)>;

impl View for Workbook {
    type V = Book;

    open spec fn view(&self) -> Book {
        Seq::new(self.sheets@.len(), |i: int| (self.sheets@[i].name@, self.sheets@[i].sheet@))
    }
}

/// The position of the first worksheet at or after `from` with this name.
pub open spec fn first_named(book: Book, name: Seq<char>, from: int) -> Option<int>
    decreases book.len() - from,
{
    if from < 0 || from >= book.len() {
        None
    } else if book[from].0 == name {
        Some(from)
    } else {
        first_named(book, name, from + 1)
    }
}

/// The worksheet that a lookup by exact name finds: the first one with the
/// name, or nothing where no worksheet has it.
pub open spec fn sheet_named(book: Book, name: Seq<char>) -> Option<Grid> {
    match first_named(book, name, 0) {
        Some(i) => Some(book[i].1),
        None => None,
    }
}

/// A lookup by name finds the first worksheet with the name: one that has
/// it and before which, from `from` on, no other has it; or nothing where no
/// worksheet from `from` on has it.
pub proof fn lemma_first_named(book: Book, name: Seq<char>, from: int)
    requires
        0 <= from,
    ensures
        match first_named(book, name, from) {
            Some(i) => from <= i < book.len() && book[i].0 == name && forall|j: int|
                from <= j < i ==> book[j].0 != name,
            None => forall|j: int| from <= j < book.len() ==> book[j].0 != name,
        },
    decreases book.len() - from,
{
    if from < book.len() && book[from].0 != name {
        lemma_first_named(book, name, from + 1);
    }
}

impl Workbook {
    /// A workbook without worksheets.
    pub fn new() -> (wb: Workbook)
        ensures
            wb@ == Seq::<(Seq<char>, Grid)>::empty(),
    {
        let wb = Workbook { sheets: Vec::new() };
        assert(wb@ =~= Seq::<(Seq<char>, Grid)>::empty());
        wb
    }

    /// Adds a worksheet behind those that the workbook has.
    pub fn add_sheet(&mut self, name: String, sheet: Worksheet)
        ensures
            final(self)@ == old(self)@.push((name@, sheet@)),
    {
        self.sheets.push(NamedSheet { name, sheet });
        assert(self@ =~= old(self)@.push((name@, sheet@)));
    }

    /// Looks a worksheet up by its exact name; the first one wins where
    /// several carry the name.
    pub fn worksheet_range(&self, name: &str) -> (r: Option<&Worksheet>)
        ensures
            r is Some <==> sheet_named(self@, name@) is Some,
            r matches Some(ws) ==> sheet_named(self@, name@) == Some(ws@),
    {
        let mut i: usize = 0;
        while i < self.sheets.len()
            invariant
                i <= self.sheets.len(),
                first_named(self@, name@, 0) == first_named(self@, name@, i as int),
            decreases self.sheets.len() - i,
        {
            if text_eq(self.sheets[i].name.as_str(), name) {
                return Some(&self.sheets[i].sheet);
            }
            i += 1;
        }
        None
    }
}

} // verus!
