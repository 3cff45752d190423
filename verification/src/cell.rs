//! The typed value of one worksheet cell.

use vstd::prelude::*;

verus! {

/// The error that a cell can hold in place of a value.
#[derive(Clone, Copy, PartialEq, Eq, Debug)]
pub enum CellError {
    Div0,
    NA,
    Name,
    Null,
    Num,
    Ref,
    Value,
    GettingData,
}

/// What a worksheet cell holds.
///
/// A floating-point number is carried as its decimal text, exactly as it is
/// to be written out; the engine never computes with it.
#[derive(PartialEq, Eq, Debug)]
pub enum CellValue {
    Empty,
    Text(String),
    Number(String),
    Integer(i64),
    Boolean(bool),
    ErrorCode(CellError),
}

/// The mathematical value of a cell.
pub enum CellView {
    Empty,
    Text(Seq<char>),
    Number(Seq<char>),
    Integer(int),
    Boolean(bool),
    ErrorCode(CellError),
}

impl View for CellValue {
    type V = CellView;

    open spec fn view(&self) -> CellView {
        match *self {
            CellValue::Empty => CellView::Empty,
            CellValue::Text(s) => CellView::Text(s@),
            CellValue::Number(s) => CellView::Number(s@),
            CellValue::Integer(i) => CellView::Integer(i as int),
            CellValue::Boolean(b) => CellView::Boolean(b),
            CellValue::ErrorCode(e) => CellView::ErrorCode(e),
        }
    }
}

impl DeepView for CellValue {
    type V = CellView;

    open spec fn deep_view(&self) -> CellView {
        self@
    }
}

impl Clone for CellValue {
    fn clone(&self) -> (res: Self)
        ensures
            res == *self,
    {
        match self {
            CellValue::Empty => CellValue::Empty,
            CellValue::Text(s) => CellValue::Text(s.clone()),
            CellValue::Number(s) => CellValue::Number(s.clone()),
            CellValue::Integer(i) => CellValue::Integer(*i),
            CellValue::Boolean(b) => CellValue::Boolean(*b),
            CellValue::ErrorCode(e) => CellValue::ErrorCode(*e),
        }
    }
}

impl Default for CellValue {
    fn default() -> (res: Self)
        ensures
            res == CellValue::Empty,
    {
        CellValue::Empty
    }
}

impl CellView {
    /// Whether a cell with this value marks its row as carrying data: every
    /// value does, but the empty cell, an error and the empty text.
    pub open spec fn is_active(self) -> bool {
        match self {
            CellView::Empty => false,
            CellView::ErrorCode(_) => false,
            CellView::Text(s) => s.len() > 0,
            _ => true,
        }
    }
}

impl CellValue {
    /// Whether this value marks its row as carrying data.
    pub fn is_active(&self) -> (b: bool)
        ensures
            b == self@.is_active(),
    {
        match self {
            CellValue::Empty => false,
            CellValue::ErrorCode(_) => false,
            CellValue::Text(s) => !s.as_str().is_empty(),
            _ => true,
        }
    }

    /// A text cell.
    pub fn text(s: &str) -> (v: CellValue)
        ensures
            v@ == CellView::Text(s@),
    {
        CellValue::Text(s.to_owned())
    }
}

/// The text that stands in a column for a value that was never recorded.
pub open spec fn na_text() -> Seq<char> {
    seq!['N', 'A']
}

/// The cell that stands in a column for a value that was never recorded.
pub fn na_cell() -> (v: CellValue)
    ensures
        v@ == CellView::Text(na_text()),
{
    proof {
        reveal_strlit("NA");
    }
    let v = CellValue::text("NA");
    assert("NA"@ =~= na_text());
    v
}

} // verus!
