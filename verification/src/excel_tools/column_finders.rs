//! Finding a column by the text of its header.

use vstd::prelude::*;

use crate::cell::{na_cell, na_text, CellValue, CellView};
use crate::sheet::{grid_value, within, Grid, Worksheet};
use crate::text::{is_prefix_of, text_eq, text_starts_with};

verus! {

/// How a header, or any other text cell, is held against an expected text.
#[derive(Clone, Copy, PartialEq, Eq, Debug)]
pub enum MatchMethod {
    StartsWith(&'static str),
    Exact(&'static str),
}

/// The mathematical value of a `MatchMethod`.
pub enum MatchView {
    StartsWith(Seq<char>),
    Exact(Seq<char>),
}

impl View for MatchMethod {
    type V = MatchView;

    open spec fn view(&self) -> MatchView {
        match *self {
            MatchMethod::StartsWith(p) => MatchView::StartsWith(p@),
            MatchMethod::Exact(p) => MatchView::Exact(p@),
        }
    }
}

impl MatchView {
    /// Whether a text satisfies the predicate.
    pub open spec fn accepts(self, text: Seq<char>) -> bool {
        match self {
            MatchView::StartsWith(p) => is_prefix_of(p, text),
            MatchView::Exact(p) => text == p,
        }
    }

    /// Whether a cell satisfies the predicate: it holds text, and the text
    /// does.
    pub open spec fn accepts_cell(self, v: CellView) -> bool {
        match v {
            CellView::Text(s) => self.accepts(s),
            _ => false,
        }
    }
}

impl MatchMethod {
    /// Whether a text satisfies the predicate.
    pub fn accepts(&self, text: &str) -> (b: bool)
        ensures
            b == self@.accepts(text@),
    {
        match self {
            MatchMethod::StartsWith(p) => text_starts_with(text, p),
            MatchMethod::Exact(p) => text_eq(text, p),
        }
    }

    /// Whether a cell satisfies the predicate.
    pub fn accepts_cell(&self, v: &CellValue) -> (b: bool)
        ensures
            b == self@.accepts_cell(v@),
    {
        match v {
            CellValue::Text(s) => self.accepts(s.as_str()),
            _ => false,
        }
    }
}

/// The number of columns that a position can name.
pub open spec fn column_space() -> int {
    0x1_0000_0000
}

/// Whether the header cell of a column satisfies the predicate.
pub open spec fn header_hit(g: Grid, m: MatchView, header_row: int, col: int) -> bool {
    g.contains_key((header_row, col)) && m.accepts_cell(g[(header_row, col)])
}

/// The first column at or after `from` whose header satisfies the predicate.
pub open spec fn first_hit(g: Grid, m: MatchView, header_row: int, from: int) -> Option<int>
    decreases column_space() - from,
{
    if from < 0 || from >= column_space() {
        None
    } else if header_hit(g, m, header_row, from) {
        Some(from)
    } else {
        first_hit(g, m, header_row, from + 1)
    }
}

/// The column that a header search selects: the leftmost one whose header
/// satisfies the predicate.
pub open spec fn matched_column(g: Grid, m: MatchView, header_row: int) -> Option<int> {
    first_hit(g, m, header_row, 0)
}

/// The column that a header search realizes. Where a header matches, the cells
/// of that column in the rows `offset ..= offset + row_count`; where none
/// does, `row_count` times the text "NA".
pub open spec fn header_column(
    g: Grid,
    m: MatchView,
    header_row: int,
    row_count: nat,
    offset: int,
) -> Seq<CellView> {
    match matched_column(g, m, header_row) {
        Some(c) => Seq::new(row_count + 1, |k: int| grid_value(g, offset + k, c)),
        None => Seq::new(row_count, |k: int| CellView::Text(na_text())),
    }
}

/// What `first_hit` finds: a column that satisfies the predicate and left of
/// which, from `from` on, none does; or nothing where no column from `from` on
/// satisfies it.
pub proof fn lemma_first_hit(g: Grid, m: MatchView, header_row: int, from: int)
    requires
        0 <= from,
    ensures
        match first_hit(g, m, header_row, from) {
            Some(c) => {
                &&& from <= c < column_space()
                &&& header_hit(g, m, header_row, c)
                &&& forall|j: int| from <= j < c ==> !header_hit(g, m, header_row, j)
            },
            None => forall|j: int|
                from <= j < column_space() ==> !header_hit(g, m, header_row, j),
        },
    decreases column_space() - from,
{
    if from < column_space() && !header_hit(g, m, header_row, from) {
        lemma_first_hit(g, m, header_row, from + 1);
    }
}

/// Where the headers of two columns both satisfy the predicate, the search
/// selects the leftmost column that does: a column at or left of the left
/// one, and the left one itself where no header left of it satisfies the
/// predicate.
pub proof fn lemma_leftmost_header_wins(
    g: Grid,
    m: MatchView,
    header_row: int,
    left: int,
    right: int,
)
    requires
        0 <= left < right < column_space(),
        header_hit(g, m, header_row, left),
        header_hit(g, m, header_row, right),
    ensures
        matched_column(g, m, header_row) is Some,
        matched_column(g, m, header_row)->0 <= left,
        matched_column(g, m, header_row) != Some(right),
        header_hit(g, m, header_row, matched_column(g, m, header_row)->0),
        (forall|j: int| 0 <= j < left ==> !header_hit(g, m, header_row, j)) ==> matched_column(
            g,
            m,
            header_row,
        ) == Some(left),
{
    lemma_first_hit(g, m, header_row, 0);
}

/// Where no header satisfies the predicate, the search realizes `row_count`
/// times the text "NA", whatever the worksheet holds below the headers.
pub proof fn lemma_header_miss(
    g: Grid,
    m: MatchView,
    header_row: int,
    row_count: nat,
    offset: int,
)
    requires
        forall|col: int| 0 <= col < column_space() ==> !header_hit(g, m, header_row, col),
    ensures
        header_column(g, m, header_row, row_count, offset) == Seq::new(
            row_count,
            |k: int| CellView::Text(na_text()),
        ),
{
    lemma_first_hit(g, m, header_row, 0);
}

/// No column at or right of a bound on the grid is found.
proof fn lemma_no_hit_beyond(g: Grid, m: MatchView, header_row: int, from: int, cols: int)
    requires
        0 <= cols <= from,
        forall|row: int, col: int| #[trigger] g.contains_key((row, col)) ==> col < cols,
    ensures
        first_hit(g, m, header_row, from) is None,
    decreases column_space() - from,
{
    if from < column_space() {
        lemma_no_hit_beyond(g, m, header_row, from + 1, cols);
    }
}

/// Finds the leftmost column whose header satisfies the predicate.
pub fn find_header_column(ws: &Worksheet, match_method: MatchMethod, header_row: u32) -> (r:
    Option<u32>)
    ensures
        r is Some <==> matched_column(ws@, match_method@, header_row as int) is Some,
        r matches Some(c) ==> matched_column(ws@, match_method@, header_row as int) == Some(
            c as int,
        ),
{
    let (_, cols) = ws.extent();
    let mut col: u64 = 0;
    while col < cols
        invariant
            col <= cols <= u32::MAX + 1,
            within(ws@, u32::MAX + 1, cols as int),
            first_hit(ws@, match_method@, header_row as int, 0) == first_hit(
                ws@,
                match_method@,
                header_row as int,
                col as int,
            ),
        decreases cols - col,
    {
        let hit = match ws.get(header_row, col as u32) {
            Some(v) => match_method.accepts_cell(v),
            None => false,
        };
        if hit {
            return Some(col as u32);
        }
        col += 1;
    }
    proof {
        lemma_no_hit_beyond(ws@, match_method@, header_row as int, col as int, cols as int);
    }
    None
}

/// Realizes the column under the leftmost header that satisfies
/// `match_method`: its cells in the rows from `start_offset` (1 where none is
/// given) to `start_offset + row_count`, both included, with the empty cell
/// for a position that the worksheet does not cover. Where no header
/// satisfies it, the column is `row_count` times the text "NA".
pub fn header_match(
    ws: &Worksheet,
    match_method: MatchMethod,
    header_row: u32,
    row_count: u32,
    start_offset: Option<u32>,
) -> (column: Vec<CellValue>)
    ensures
        column.deep_view() == header_column(
            ws@,
            match_method@,
            header_row as int,
            row_count as nat,
            match start_offset {
                Some(offset) => offset as int,
                None => 1,
            },
        ),
{
    let range_offset: u32 = match start_offset {
        Some(offset) => offset,
        None => 1,
    };
    let mut column: Vec<CellValue> = Vec::new();
    match find_header_column(ws, match_method, header_row) {
        Some(col) => {
            let mut k: u64 = 0;
            while k <= row_count as u64
                invariant
                    k <= row_count + 1,
                    column.len() == k,
                    forall|i: int|
                        0 <= i < k ==> (#[trigger] column[i])@ == grid_value(
                            ws@,
                            range_offset + i,
                            col as int,
                        ),
                decreases row_count + 1 - k,
            {
                let row: u64 = range_offset as u64 + k;
                let value = if row <= u32::MAX as u64 {
                    ws.read(row as u32, col)
                } else {
                    let _ = ws.extent();
                    CellValue::Empty
                };
                column.push(value);
                k += 1;
            }
            assert(column.deep_view() =~= Seq::new(
                (row_count + 1) as nat,
                |k: int| grid_value(ws@, range_offset + k, col as int),
            ));
        },
        None => {
            let mut k: u32 = 0;
            while k < row_count
                invariant
                    k <= row_count,
                    column.len() == k,
                    forall|i: int|
                        0 <= i < k ==> (#[trigger] column[i])@ == CellView::Text(na_text()),
                decreases row_count - k,
            {
                column.push(na_cell());
                k += 1;
            }
            assert(column.deep_view() =~= Seq::new(
                row_count as nat,
                |k: int| CellView::Text(na_text()),
            ));
        },
    }
    column
}

} // verus!
