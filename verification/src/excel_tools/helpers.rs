//! The extraction engine: how columns are addressed, how a sheet's layout is
//! resolved against a workbook, which rows carry data, and how the realized
//! columns are joined into rows.

use vstd::prelude::*;

use crate::cell::{CellValue, CellView};
use crate::excel_tools::column_finders::{header_column, header_match, MatchMethod, MatchView};
use crate::sheet::{grid_value, sheet_named, Book, Grid, Workbook, Worksheet};

verus! {

/// One way to address a column of a worksheet.
#[derive(PartialEq, Eq, Debug)]
pub enum ColIndexer {
    /// The column with this index, from row 1 down.
    Index(u32),
    /// A constant, for a value that a layout never recorded.
    DefaultValue(CellValue),
    /// One fixed cell, for a fact that holds once per file.
    CellValue { row: u32, col: u32 },
    /// The leftmost column whose header, in row 0, satisfies the predicate.
    HeaderSearch(MatchMethod),
}

/// The mathematical value of a `ColIndexer`.
pub enum IndexerView {
    Index(int),
    DefaultValue(CellView),
    CellValue { row: int, col: int },
    HeaderSearch(MatchView),
}

impl View for ColIndexer {
    type V = IndexerView;

    open spec fn view(&self) -> IndexerView {
        match *self {
            ColIndexer::Index(n) => IndexerView::Index(n as int),
            ColIndexer::DefaultValue(v) => IndexerView::DefaultValue(v@),
            ColIndexer::CellValue { row, col } => IndexerView::CellValue {
                row: row as int,
                col: col as int,
            },
            ColIndexer::HeaderSearch(m) => IndexerView::HeaderSearch(m@),
        }
    }
}

impl DeepView for ColIndexer {
    type V = IndexerView;

    open spec fn deep_view(&self) -> IndexerView {
        self@
    }
}

impl Clone for ColIndexer {
    fn clone(&self) -> (res: Self)
        ensures
            res == *self,
    {
        match self {
            ColIndexer::Index(n) => ColIndexer::Index(*n),
            ColIndexer::DefaultValue(v) => ColIndexer::DefaultValue(v.clone()),
            ColIndexer::CellValue { row, col } => ColIndexer::CellValue { row: *row, col: *col },
            ColIndexer::HeaderSearch(m) => ColIndexer::HeaderSearch(*m),
        }
    }
}

/// A worksheet to read, with the names of the output columns and, for each of
/// them, how its column is addressed.
#[derive(PartialEq, Eq, Debug)]
pub struct Sheet {
    pub sheet_name: &'static str,
    pub col_names: Vec<&'static str>,
    pub col_indexers: Vec<ColIndexer>,
}

/// The mathematical value of a `Sheet`.
pub struct SheetView {
    pub sheet_name: Seq<char>,
    pub col_names: Seq<Seq<char>>,
    pub col_indexers: Seq<IndexerView>,
}

impl View for Sheet {
    type V = SheetView;

    open spec fn view(&self) -> SheetView {
        SheetView {
            sheet_name: self.sheet_name@,
            col_names: self.col_names.deep_view(),
            col_indexers: self.col_indexers.deep_view(),
        }
    }
}

impl DeepView for Sheet {
    type V = SheetView;

    open spec fn deep_view(&self) -> SheetView {
        self@
    }
}

impl SheetView {
    /// Every output column has its indexer.
    pub open spec fn wf(self) -> bool {
        self.col_indexers.len() == self.col_names.len()
    }
}

/// The test that tells a layout apart: one fixed cell holds text that
/// satisfies a predicate.
#[derive(Clone, Copy, PartialEq, Eq, Debug)]
pub struct CellCheck {
    pub row: u32,
    pub col: u32,
    pub expected: MatchMethod,
}

/// The mathematical value of a `CellCheck`.
pub struct CheckView {
    pub row: int,
    pub col: int,
    pub expected: MatchView,
}

impl View for CellCheck {
    type V = CheckView;

    open spec fn view(&self) -> CheckView {
        CheckView { row: self.row as int, col: self.col as int, expected: self.expected@ }
    }
}

impl CheckView {
    /// Whether a worksheet passes the test.
    pub open spec fn holds(self, g: Grid) -> bool {
        g.contains_key((self.row, self.col)) && self.expected.accepts_cell(g[(self.row, self.col)])
    }
}

impl CellCheck {
    /// Whether a worksheet passes the test.
    pub fn holds(&self, ws: &Worksheet) -> (b: bool)
        ensures
            b == self@.holds(ws@),
    {
        match ws.get(self.row, self.col) {
            Some(v) => self.expected.accepts_cell(v),
            None => false,
        }
    }
}

/// One layout that a sheet may have: the worksheet to probe and the test that
/// it must pass, then the worksheet to read and how its columns are addressed.
#[derive(PartialEq, Eq, Debug)]
pub struct PotentialSheet {
    pub sheet_name: &'static str,
    pub col_indexers: Vec<ColIndexer>,
    pub sheet_for_val: &'static str,
    pub validator: CellCheck,
}

/// The mathematical value of a `PotentialSheet`.
pub struct CandidateView {
    pub sheet_name: Seq<char>,
    pub col_indexers: Seq<IndexerView>,
    pub sheet_for_val: Seq<char>,
    pub validator: CheckView,
}

impl View for PotentialSheet {
    type V = CandidateView;

    open spec fn view(&self) -> CandidateView {
        CandidateView {
            sheet_name: self.sheet_name@,
            col_indexers: self.col_indexers.deep_view(),
            sheet_for_val: self.sheet_for_val@,
            validator: self.validator@,
        }
    }
}

impl DeepView for PotentialSheet {
    type V = CandidateView;

    open spec fn deep_view(&self) -> CandidateView {
        self@
    }
}

/// The layouts that a sheet has had, in priority order, under the output
/// column names that they share.
#[derive(PartialEq, Eq, Debug)]
pub struct SheetSelector {
    pub col_names: Vec<&'static str>,
    pub potential_sheets: Vec<PotentialSheet>,
}

/// The mathematical value of a `SheetSelector`.
pub struct SelectorView {
    pub col_names: Seq<Seq<char>>,
    pub potential_sheets: Seq<CandidateView>,
}

impl View for SheetSelector {
    type V = SelectorView;

    open spec fn view(&self) -> SelectorView {
        SelectorView {
            col_names: self.col_names.deep_view(),
            potential_sheets: self.potential_sheets.deep_view(),
        }
    }
}

impl SelectorView {
    /// Every layout addresses as many columns as there are output names.
    pub open spec fn wf(self) -> bool {
        forall|i: int|
            0 <= i < self.potential_sheets.len() ==> (
            #[trigger] self.potential_sheets[i]).col_indexers.len() == self.col_names.len()
    }
}

/// One sheet of an extraction plan: a fixed layout, or a choice among layouts.
#[derive(PartialEq, Eq, Debug)]
pub enum SheetExtractor {
    Single(Sheet),
    Multi(SheetSelector),
}

/// The mathematical value of a `SheetExtractor`.
pub enum ExtractorView {
    Single(SheetView),
    Multi(SelectorView),
}

impl View for SheetExtractor {
    type V = ExtractorView;

    open spec fn view(&self) -> ExtractorView {
        match *self {
            SheetExtractor::Single(s) => ExtractorView::Single(s@),
            SheetExtractor::Multi(s) => ExtractorView::Multi(s@),
        }
    }
}

impl DeepView for SheetExtractor {
    type V = ExtractorView;

    open spec fn deep_view(&self) -> ExtractorView {
        self@
    }
}

impl ExtractorView {
    /// The output column names of the sheet.
    pub open spec fn col_names(self) -> Seq<Seq<char>> {
        match self {
            ExtractorView::Single(s) => s.col_names,
            ExtractorView::Multi(s) => s.col_names,
        }
    }

    /// Every layout of the sheet addresses as many columns as there are
    /// output names.
    pub open spec fn wf(self) -> bool {
        match self {
            ExtractorView::Single(s) => s.wf(),
            ExtractorView::Multi(s) => s.wf(),
        }
    }
}

/// The plan: every one of its sheets is well formed.
pub open spec fn plan_wf(plan: Seq<ExtractorView>) -> bool {
    forall|i: int| 0 <= i < plan.len() ==> (#[trigger] plan[i]).wf()
}

/// The last row that the active-row scan reaches where no other is given.
pub const DEFAULT_LAST_ROW: u32 = 200;

/// The rows from 1 to `bottom` whose cell in column `col` is active, in
/// ascending order.
pub open spec fn active_rows(g: Grid, col: int, bottom: nat) -> Seq<u32>
    decreases bottom,
{
    if bottom == 0 {
        Seq::empty()
    } else if grid_value(g, bottom as int, col).is_active() {
        active_rows(g, col, (bottom - 1) as nat).push(bottom as u32)
    } else {
        active_rows(g, col, (bottom - 1) as nat)
    }
}

/// The active rows are exactly the rows from 1 to `bottom` whose probed cell
/// is present and neither empty, nor an error, nor the empty text; they stand
/// in ascending order. Row 0, the header, is never among them.
pub proof fn lemma_active_rows(g: Grid, col: int, bottom: nat)
    requires
        bottom <= u32::MAX,
    ensures
        forall|row: u32|
            active_rows(g, col, bottom).contains(row) <==> (1 <= row <= bottom && grid_value(
                g,
                row as int,
                col,
            ).is_active()),
        forall|i: int, j: int|
            0 <= i < j < active_rows(g, col, bottom).len() ==> active_rows(g, col, bottom)[i]
                < active_rows(g, col, bottom)[j],
        forall|i: int|
            0 <= i < active_rows(g, col, bottom).len() ==> 1 <= #[trigger] active_rows(
                g,
                col,
                bottom,
            )[i] <= bottom,
        active_rows(g, col, bottom).len() <= bottom,
    decreases bottom,
{
    if bottom > 0 {
        let prev = active_rows(g, col, (bottom - 1) as nat);
        lemma_active_rows(g, col, (bottom - 1) as nat);
        let all = active_rows(g, col, bottom);
        if grid_value(g, bottom as int, col).is_active() {
            assert(all == prev.push(bottom as u32));
            assert forall|row: u32| all.contains(row) <==> (1 <= row <= bottom && grid_value(
                g,
                row as int,
                col,
            ).is_active()) by {
                if all.contains(row) {
                    let i = choose|i: int| 0 <= i < all.len() && all[i] == row;
                    if i < prev.len() {
                        assert(prev[i] == row);
                        assert(prev.contains(row));
                    }
                }
                if 1 <= row <= bottom && grid_value(g, row as int, col).is_active() {
                    if row == bottom {
                        assert(all[prev.len() as int] == row);
                    } else {
                        assert(prev.contains(row));
                        let i = choose|i: int| 0 <= i < prev.len() && prev[i] == row;
                        assert(all[i] == row);
                    }
                }
            }
        } else {
            assert(all == prev);
        }
    } else {
        assert(active_rows(g, col, bottom).len() == 0);
    }
}

/// Finds the rows that carry data: the rows from 1 to `last_row` (200 where
/// none is given) whose cell in `search_col` is present and neither empty, nor
/// an error, nor the empty text. Row 0 is the header and is never scanned.
pub fn find_active_rows(ws: &Worksheet, search_col: u32, last_row: Option<u32>) -> (rows: Vec<u32>)
    ensures
        rows@ == active_rows(
            ws@,
            search_col as int,
            match last_row {
                Some(n) => n as nat,
                None => DEFAULT_LAST_ROW as nat,
            },
        ),
        forall|row: u32|
            rows@.contains(row) <==> (1 <= row <= (match last_row {
                Some(n) => n,
                None => DEFAULT_LAST_ROW,
            }) && grid_value(ws@, row as int, search_col as int).is_active()),
        forall|i: int, j: int| 0 <= i < j < rows.len() ==> rows[i] < rows[j],
{
    let bottom_row: u32 = match last_row {
        Some(num) => num,
        None => DEFAULT_LAST_ROW,
    };
    let mut active: Vec<u32> = Vec::new();
    let mut done: u32 = 0;
    while done < bottom_row
        invariant
            done <= bottom_row,
            active@ == active_rows(ws@, search_col as int, done as nat),
        decreases bottom_row - done,
    {
        let row_num: u32 = done + 1;
        let is_active = match ws.get(row_num, search_col) {
            Some(v) => v.is_active(),
            None => false,
        };
        if is_active {
            active.push(row_num);
        }
        done = row_num;
    }
    proof {
        lemma_active_rows(ws@, search_col as int, bottom_row as nat);
    }
    active
}

/// The column that an indexer realizes on a worksheet, for `row_count` rows.
///
/// A position that the worksheet does not cover reads as the empty cell.
pub open spec fn realized_column(g: Grid, indexer: IndexerView, row_count: nat) -> Seq<CellView> {
    match indexer {
        IndexerView::Index(n) => Seq::new(row_count, |k: int| grid_value(g, k + 1, n)),
        IndexerView::DefaultValue(v) => Seq::new(row_count, |k: int| v),
        IndexerView::CellValue { row, col } => Seq::new(
            row_count,
            |k: int| grid_value(g, row, col),
        ),
        IndexerView::HeaderSearch(m) => header_column(g, m, 0, row_count, 1),
    }
}

/// The columns that the indexers of a sheet realize, in their order.
pub open spec fn realized_columns(g: Grid, indexers: Seq<IndexerView>, row_count: nat) -> Seq<
    Seq<CellView>,
> {
    Seq::new(indexers.len(), |i: int| realized_column(g, indexers[i], row_count))
}

/// Every realized column has at least `row_count` values: exactly that many
/// but under a header that matched, where it has one more.
pub proof fn lemma_realized_length(g: Grid, indexer: IndexerView, row_count: nat)
    ensures
        realized_column(g, indexer, row_count).len() >= row_count,
        !(indexer is HeaderSearch) ==> realized_column(g, indexer, row_count).len() == row_count,
{
}

/// A constant indexer realizes `row_count` copies of its value, whatever the
/// worksheet holds.
pub proof fn lemma_default_column(g: Grid, v: CellView, row_count: nat)
    ensures
        realized_column(g, IndexerView::DefaultValue(v), row_count) == Seq::new(
            row_count,
            |k: int| v,
        ),
{
}

/// Realizes one column of a worksheet.
///
/// `Index(n)` gives the cells of column `n` in the rows `1 ..= max_row`;
/// `DefaultValue(v)` gives `max_row` copies of `v`; `CellValue` gives `max_row`
/// copies of the one cell; `HeaderSearch` gives what `header_match` finds
/// under the header in row 0, from row 1 down.
pub fn extract_column(ws: &Worksheet, col_indexer: &ColIndexer, max_row: u32) -> (column: Vec<
    CellValue,
>)
    ensures
        column.deep_view() == realized_column(ws@, col_indexer@, max_row as nat),
{
    match col_indexer {
        ColIndexer::Index(i) => {
            let mut column: Vec<CellValue> = Vec::new();
            let mut k: u32 = 0;
            while k < max_row
                invariant
                    k <= max_row,
                    column.len() == k,
                    forall|j: int|
                        0 <= j < k ==> (#[trigger] column[j])@ == grid_value(ws@, j + 1, *i as int),
                decreases max_row - k,
            {
                column.push(ws.read(k + 1, *i));
                k += 1;
            }
            assert(column.deep_view() =~= realized_column(ws@, col_indexer@, max_row as nat));
            column
        },
        ColIndexer::DefaultValue(v) => {
            let mut column: Vec<CellValue> = Vec::new();
            let mut k: u32 = 0;
            while k < max_row
                invariant
                    k <= max_row,
                    column.len() == k,
                    forall|j: int| 0 <= j < k ==> (#[trigger] column[j])@ == v@,
                decreases max_row - k,
            {
                column.push(v.clone());
                k += 1;
            }
            assert(column.deep_view() =~= realized_column(ws@, col_indexer@, max_row as nat));
            column
        },
        ColIndexer::CellValue { row, col } => {
            let value = ws.read(*row, *col);
            let mut column: Vec<CellValue> = Vec::new();
            let mut k: u32 = 0;
            while k < max_row
                invariant
                    k <= max_row,
                    column.len() == k,
                    forall|j: int| 0 <= j < k ==> (#[trigger] column[j])@ == value@,
                decreases max_row - k,
            {
                column.push(value.clone());
                k += 1;
            }
            assert(column.deep_view() =~= realized_column(ws@, col_indexer@, max_row as nat));
            column
        },
        ColIndexer::HeaderSearch(m) => header_match(ws, *m, 0, max_row, None),
    }
}

/// Realizes every column of a sheet, in the order of its indexers.
pub fn extract_sheet_columns(ws: &Worksheet, sheet: &Sheet, max_row: u32) -> (cols: Vec<
    Vec<CellValue>,
>)
    ensures
        cols.deep_view() == realized_columns(ws@, sheet@.col_indexers, max_row as nat),
{
    let mut cols: Vec<Vec<CellValue>> = Vec::new();
    let mut i: usize = 0;
    while i < sheet.col_indexers.len()
        invariant
            i <= sheet.col_indexers.len(),
            cols.len() == i,
            forall|j: int|
                0 <= j < i ==> (#[trigger] cols[j]).deep_view() == realized_column(
                    ws@,
                    sheet.col_indexers[j]@,
                    max_row as nat,
                ),
        decreases sheet.col_indexers.len() - i,
    {
        cols.push(extract_column(ws, &sheet.col_indexers[i], max_row));
        i += 1;
    }
    assert(cols.deep_view() =~= realized_columns(ws@, sheet@.col_indexers, max_row as nat));
    cols
}

/// Whether every column reaches the local position of a row: the row is not
/// 0, and each column has at least as many values as the row's number.
pub open spec fn row_covered(cols: Seq<Seq<CellView>>, row: u32) -> bool {
    &&& cols.len() > 0 ==> row >= 1
    &&& forall|j: int| 0 <= j < cols.len() ==> row <= (#[trigger] cols[j]).len()
}

/// Whether every column reaches the local position of every active row.
pub open spec fn columns_cover(cols: Seq<Seq<CellView>>, active: Seq<u32>) -> bool {
    forall|i: int| 0 <= i < active.len() ==> row_covered(cols, #[trigger] active[i])
}

/// The rows that the columns give: one for each active row `r`, holding the
/// value at the local position `r - 1` of each column, in the columns' order.
pub open spec fn assembled_rows(cols: Seq<Seq<CellView>>, active: Seq<u32>) -> Seq<Seq<CellView>> {
    Seq::new(active.len(), |i: int| Seq::new(cols.len(), |j: int| cols[j][active[i] - 1]))
}

/// Computes `row_covered`.
fn check_row_covered(cols: &Vec<Vec<CellValue>>, row: u32) -> (b: bool)
    ensures
        b == row_covered(cols.deep_view(), row),
{
    let ghost model = cols.deep_view();
    let mut j: usize = 0;
    while j < cols.len()
        invariant
            j <= cols.len(),
            model == cols.deep_view(),
            model.len() == cols.len(),
            j > 0 ==> row >= 1,
            forall|c: int| 0 <= c < j ==> row <= (#[trigger] model[c]).len(),
        decreases cols.len() - j,
    {
        assert(model[j as int].len() == cols[j as int].len());
        if row == 0 || cols[j].len() < row as usize {
            return false;
        }
        j += 1;
    }
    true
}

/// Computes `columns_cover`.
pub fn check_columns_cover(cols: &Vec<Vec<CellValue>>, active_rows: &Vec<u32>) -> (b: bool)
    ensures
        b == columns_cover(cols.deep_view(), active_rows@),
{
    let mut i: usize = 0;
    while i < active_rows.len()
        invariant
            i <= active_rows.len(),
            forall|a: int| 0 <= a < i ==> row_covered(cols.deep_view(), #[trigger] active_rows@[a]),
        decreases active_rows.len() - i,
    {
        if !check_row_covered(cols, active_rows[i]) {
            return false;
        }
        i += 1;
    }
    true
}

/// Joins realized columns into output rows: one row for each active row
/// number `r`, in their order, holding the value at the local position `r - 1`
/// of each column, in the columns' order.
///
/// The columns must reach every active row: the row count that they were
/// realized for may not be smaller than the largest active row.
pub fn rows_from_cols(cols: Vec<Vec<CellValue>>, active_rows: Vec<u32>) -> (rows: Vec<
    Vec<CellValue>,
>)
    requires
        columns_cover(cols.deep_view(), active_rows@),
    ensures
        rows.deep_view() == assembled_rows(cols.deep_view(), active_rows@),
{
    let mut rows_data: Vec<Vec<CellValue>> = Vec::new();
    let mut i: usize = 0;
    while i < active_rows.len()
        invariant
            i <= active_rows.len(),
            rows_data.len() == i,
            columns_cover(cols.deep_view(), active_rows@),
            forall|a: int|
                0 <= a < i ==> (#[trigger] rows_data[a]).deep_view() == Seq::new(
                    cols.len() as nat,
                    |j: int| cols.deep_view()[j][active_rows[a] - 1],
                ),
        decreases active_rows.len() - i,
    {
        let row = active_rows[i];
        let mut cur_row: Vec<CellValue> = Vec::new();
        let mut j: usize = 0;
        while j < cols.len()
            invariant
                j <= cols.len(),
                i < active_rows.len(),
                row == active_rows[i as int],
                cur_row.len() == j,
                columns_cover(cols.deep_view(), active_rows@),
                forall|c: int|
                    0 <= c < j ==> (#[trigger] cur_row[c])@ == cols.deep_view()[c][row - 1],
            decreases cols.len() - j,
        {
            proof {
                let model = cols.deep_view();
                assert(row_covered(model, active_rows@[i as int]));
                assert(0 <= j < model.len());
                assert(row <= model[j as int].len());
                assert(model[j as int] == cols[j as int].deep_view());
                assert(cols[j as int].deep_view()[row - 1] == cols[j as int][row - 1]@);
            }
            cur_row.push(cols[j][(row - 1) as usize].clone());
            j += 1;
        }
        assert(cur_row.deep_view() =~= Seq::new(
            cols.len() as nat,
            |j: int| cols.deep_view()[j][active_rows[i as int] - 1],
        ));
        rows_data.push(cur_row);
        i += 1;
    }
    assert(rows_data.deep_view() =~= assembled_rows(cols.deep_view(), active_rows@));
    rows_data
}

/// The output column names of a plan: those of its sheets, one after the
/// other in plan order.
pub open spec fn plan_header(plan: Seq<ExtractorView>) -> Seq<Seq<char>>
    decreases plan.len(),
{
    if plan.len() == 0 {
        Seq::empty()
    } else {
        plan_header(plan.drop_last()) + plan.last().col_names()
    }
}

/// Builds the header of a plan: the output column names of every sheet, in
/// plan order. A choice among layouts has one list of names for all of them.
pub fn make_header(sheets: &[SheetExtractor]) -> (header: Vec<&'static str>)
    ensures
        header.deep_view() == plan_header(sheets.deep_view()),
{
    let ghost plan = sheets.deep_view();
    let mut header: Vec<&'static str> = Vec::new();
    let mut i: usize = 0;
    while i < sheets.len()
        invariant
            i <= sheets.len(),
            plan == sheets.deep_view(),
            plan.len() == sheets.len(),
            header.deep_view() == plan_header(plan.take(i as int)),
        decreases sheets.len() - i,
    {
        let names: &Vec<&'static str> = match &sheets[i] {
            SheetExtractor::Multi(s) => &s.col_names,
            SheetExtractor::Single(s) => &s.col_names,
        };
        let ghost before = header.deep_view();
        assert(names.deep_view() == plan[i as int].col_names());
        let mut j: usize = 0;
        while j < names.len()
            invariant
                j <= names.len(),
                header.deep_view() == before + names.deep_view().take(j as int),
            decreases names.len() - j,
        {
            let ghost so_far = header.deep_view();
            header.push(names[j]);
            assert(header.deep_view() =~= so_far.push(names[j as int]@));
            assert(names.deep_view().take(j + 1) =~= names.deep_view().take(j as int).push(
                names[j as int]@,
            ));
            j += 1;
        }
        assert(names.deep_view().take(names.len() as int) =~= names.deep_view());
        assert(plan.take(i + 1).drop_last() =~= plan.take(i as int));
        assert(plan.take(i + 1).last() == plan[i as int]);
        i += 1;
    }
    assert(plan.take(sheets.len() as int) =~= plan);
    header
}

/// Copies a list of names.
fn clone_names(names: &Vec<&'static str>) -> (copy: Vec<&'static str>)
    ensures
        copy@ == names@,
{
    let mut copy: Vec<&'static str> = Vec::new();
    let mut i: usize = 0;
    while i < names.len()
        invariant
            i <= names.len(),
            copy@ == names@.take(i as int),
        decreases names.len() - i,
    {
        copy.push(names[i]);
        assert(copy@ =~= names@.take(i + 1));
        i += 1;
    }
    assert(names@.take(names.len() as int) =~= names@);
    copy
}

/// Copies a list of indexers.
fn clone_indexers(indexers: &Vec<ColIndexer>) -> (copy: Vec<ColIndexer>)
    ensures
        copy@ == indexers@,
{
    let mut copy: Vec<ColIndexer> = Vec::new();
    let mut i: usize = 0;
    while i < indexers.len()
        invariant
            i <= indexers.len(),
            copy@ == indexers@.take(i as int),
        decreases indexers.len() - i,
    {
        copy.push(indexers[i].clone());
        assert(copy@ =~= indexers@.take(i + 1));
        i += 1;
    }
    assert(indexers@.take(indexers.len() as int) =~= indexers@);
    copy
}

impl Clone for Sheet {
    fn clone(&self) -> (res: Self)
        ensures
            res@ == self@,
    {
        Sheet {
            sheet_name: self.sheet_name,
            col_names: clone_names(&self.col_names),
            col_indexers: clone_indexers(&self.col_indexers),
        }
    }
}

/// Whether a workbook validates a layout: it has the worksheet to probe, and
/// that worksheet passes the layout's test.
pub open spec fn candidate_valid(book: Book, cand: CandidateView) -> bool {
    match sheet_named(book, cand.sheet_for_val) {
        Some(g) => cand.validator.holds(g),
        None => false,
    }
}

/// The first layout at or after `from` that the workbook validates.
pub open spec fn first_valid(book: Book, cands: Seq<CandidateView>, from: int) -> Option<int>
    decreases cands.len() - from,
{
    if from < 0 || from >= cands.len() {
        None
    } else if candidate_valid(book, cands[from]) {
        Some(from)
    } else {
        first_valid(book, cands, from + 1)
    }
}

/// The sheet that a selector gives when its layout `i` is chosen: that
/// layout's worksheet and indexers, under the selector's column names.
pub open spec fn binding(sel: SelectorView, i: int) -> SheetView {
    SheetView {
        sheet_name: sel.potential_sheets[i].sheet_name,
        col_names: sel.col_names,
        col_indexers: sel.potential_sheets[i].col_indexers,
    }
}

/// The sheet that a selector resolves to on a workbook: the binding of the
/// first layout that the workbook validates, or nothing where it validates
/// none.
pub open spec fn resolve_selector(book: Book, sel: SelectorView) -> Option<SheetView> {
    match first_valid(book, sel.potential_sheets, 0) {
        Some(i) => Some(binding(sel, i)),
        None => None,
    }
}

/// What `first_valid` finds: a layout that the workbook validates and before
/// which, from `from` on, it validates none; or nothing where it validates
/// none from `from` on.
pub proof fn lemma_first_valid(book: Book, cands: Seq<CandidateView>, from: int)
    requires
        0 <= from,
    ensures
        match first_valid(book, cands, from) {
            Some(i) => {
                &&& from <= i < cands.len()
                &&& candidate_valid(book, cands[i])
                &&& forall|j: int| from <= j < i ==> !candidate_valid(book, #[trigger] cands[j])
            },
            None => forall|j: int|
                from <= j < cands.len() ==> !candidate_valid(book, #[trigger] cands[j]),
        },
    decreases cands.len() - from,
{
    if from < cands.len() && !candidate_valid(book, cands[from]) {
        lemma_first_valid(book, cands, from + 1);
    }
}

/// Where the workbook does not validate a selector's first layout and does
/// validate its second, the selector resolves to the second layout's binding.
pub proof fn lemma_cascade_falls_through(book: Book, sel: SelectorView)
    requires
        sel.potential_sheets.len() >= 2,
        !candidate_valid(book, sel.potential_sheets[0]),
        candidate_valid(book, sel.potential_sheets[1]),
    ensures
        resolve_selector(book, sel) == Some(binding(sel, 1)),
{
    assert(first_valid(book, sel.potential_sheets, 0) == first_valid(
        book,
        sel.potential_sheets,
        1,
    ));
}

/// Resolves a selector against a workbook: the layouts are tried in their
/// order, a layout whose probe worksheet is missing counts as a miss, and the
/// first layout whose test passes gives the sheet.
pub fn sheet_from_selector(wb: &Workbook, selector: &SheetSelector) -> (r: Option<Sheet>)
    ensures
        match r {
            Some(sheet) => resolve_selector(wb@, selector@) == Some(sheet@),
            None => resolve_selector(wb@, selector@) is None,
        },
{
    let ghost cands = selector@.potential_sheets;
    let mut i: usize = 0;
    while i < selector.potential_sheets.len()
        invariant
            i <= selector.potential_sheets.len(),
            cands == selector@.potential_sheets,
            cands.len() == selector.potential_sheets.len(),
            first_valid(wb@, cands, 0) == first_valid(wb@, cands, i as int),
        decreases selector.potential_sheets.len() - i,
    {
        let p_sheet = &selector.potential_sheets[i];
        assert(cands[i as int] == p_sheet@);
        let valid = match wb.worksheet_range(p_sheet.sheet_for_val) {
            Some(ws) => p_sheet.validator.holds(ws),
            None => false,
        };
        if valid {
            let sheet = Sheet {
                sheet_name: p_sheet.sheet_name,
                col_names: clone_names(&selector.col_names),
                col_indexers: clone_indexers(&p_sheet.col_indexers),
            };
            assert(sheet@ == binding(selector@, i as int));
            return Some(sheet);
        }
        i += 1;
    }
    None
}

/// The sheet that one sheet of a plan resolves to: a fixed layout is its own
/// answer, a choice among layouts is resolved against the workbook.
pub open spec fn resolve_extractor(book: Book, e: ExtractorView) -> Option<SheetView> {
    match e {
        ExtractorView::Single(s) => Some(s),
        ExtractorView::Multi(s) => resolve_selector(book, s),
    }
}

/// Whether every sheet of the plan resolves on the workbook.
pub open spec fn plan_resolves(book: Book, plan: Seq<ExtractorView>) -> bool {
    forall|i: int| 0 <= i < plan.len() ==> resolve_extractor(book, #[trigger] plan[i]) is Some
}

/// The sheets that a plan resolves to on a workbook, in plan order: all of
/// them, or nothing where one of them does not resolve.
pub open spec fn resolve_plan(book: Book, plan: Seq<ExtractorView>) -> Option<Seq<SheetView>> {
    if plan_resolves(book, plan) {
        Some(Seq::new(plan.len(), |i: int| resolve_extractor(book, plan[i]).unwrap()))
    } else {
        None
    }
}

/// One sheet that does not resolve fails the whole plan, whatever the others
/// do.
pub proof fn lemma_all_or_nothing(book: Book, plan: Seq<ExtractorView>, failing: int)
    requires
        0 <= failing < plan.len(),
        resolve_extractor(book, plan[failing]) is None,
    ensures
        resolve_plan(book, plan) is None,
{
}

/// A well-formed plan resolves to well-formed sheets: each has as many
/// indexers as output column names, and those names are the plan's.
pub proof fn lemma_resolved_wf(book: Book, plan: Seq<ExtractorView>)
    requires
        plan_wf(plan),
        resolve_plan(book, plan) is Some,
    ensures
        forall|i: int|
            0 <= i < plan.len() ==> {
                &&& (#[trigger] resolve_plan(book, plan).unwrap()[i]).wf()
                &&& resolve_plan(book, plan).unwrap()[i].col_names == plan[i].col_names()
            },
{
    let sheets = resolve_plan(book, plan).unwrap();
    assert forall|i: int| 0 <= i < plan.len() implies {
        &&& (#[trigger] sheets[i]).wf()
        &&& sheets[i].col_names == plan[i].col_names()
    } by {
        assert(plan[i].wf());
        assert(resolve_extractor(book, plan[i]) is Some);
        match plan[i] {
            ExtractorView::Single(s) => {},
            ExtractorView::Multi(s) => {
                lemma_first_valid(book, s.potential_sheets, 0);
            },
        }
    }
}

/// Resolves every sheet of a plan against a workbook. The workbook must
/// match every sheet: where one does not resolve, the whole plan fails.
pub fn validate_extractors(wb: &Workbook, extractors: &[SheetExtractor]) -> (r: Option<Vec<Sheet>>)
    ensures
        match r {
            Some(sheets) => resolve_plan(wb@, extractors.deep_view()) == Some(sheets.deep_view()),
            None => resolve_plan(wb@, extractors.deep_view()) is None,
        },
{
    let ghost plan = extractors.deep_view();
    let mut sheets: Vec<Sheet> = Vec::new();
    let mut i: usize = 0;
    while i < extractors.len()
        invariant
            i <= extractors.len(),
            plan == extractors.deep_view(),
            plan.len() == extractors.len(),
            sheets.len() == i,
            forall|j: int|
                0 <= j < i ==> resolve_extractor(wb@, #[trigger] plan[j]) == Some(sheets[j]@),
        decreases extractors.len() - i,
    {
        assert(plan[i as int] == extractors[i as int]@);
        let sheet = match &extractors[i] {
            SheetExtractor::Multi(selector) => sheet_from_selector(wb, selector),
            SheetExtractor::Single(sht) => Some(sht.clone()),
        };
        match sheet {
            Some(s) => sheets.push(s),
            None => {
                assert(resolve_extractor(wb@, plan[i as int]) is None);
                return None;
            },
        };
        i += 1;
    }
    assert(plan_resolves(wb@, plan));
    assert(sheets.deep_view() =~= resolve_plan(wb@, plan).unwrap());
    Some(sheets)
}

} // verus!
