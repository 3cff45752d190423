//! Building blocks of the extraction configurations: lists of output names
//! and of column indexers, made from constant tables.

use vstd::prelude::*;

use crate::cell::{na_cell, na_text, CellView};
use crate::excel_tools::column_finders::{MatchMethod, MatchView};
use crate::excel_tools::helpers::{
    CandidateView, CellCheck, CheckView, ColIndexer, ExtractorView, IndexerView, PotentialSheet,
    SelectorView, Sheet, SheetExtractor, SheetSelector, SheetView,
};

verus! {

/// The indexers that read the columns with these indexes.
pub open spec fn index_cols(cols: Seq<u32>) -> Seq<IndexerView> {
    Seq::new(cols.len(), |i: int| IndexerView::Index(cols[i] as int))
}

/// The indexers that search for headers which start with these texts.
pub open spec fn prefix_cols(prefixes: Seq<Seq<char>>) -> Seq<IndexerView> {
    Seq::new(
        prefixes.len(),
        |i: int| IndexerView::HeaderSearch(MatchView::StartsWith(prefixes[i])),
    )
}

/// The indexers that search for headers which are these texts.
pub open spec fn exact_cols(headers: Seq<Seq<char>>) -> Seq<IndexerView> {
    Seq::new(headers.len(), |i: int| IndexerView::HeaderSearch(MatchView::Exact(headers[i])))
}

/// The indexers that read these cells, each given as (row, column).
pub open spec fn cell_cols(cells: Seq<(u32, u32)>) -> Seq<IndexerView> {
    Seq::new(
        cells.len(),
        |i: int| IndexerView::CellValue { row: cells[i].0 as int, col: cells[i].1 as int },
    )
}

/// The indexers that read `count` cells of one column, from `first_row` down.
pub open spec fn cell_run(first_row: int, count: nat, col: int) -> Seq<IndexerView> {
    Seq::new(count, |k: int| IndexerView::CellValue { row: first_row + k, col })
}

/// `count` indexers that give the text "NA".
pub open spec fn na_cols(count: nat) -> Seq<IndexerView> {
    Seq::new(count, |k: int| IndexerView::DefaultValue(CellView::Text(na_text())))
}

/// The test that a cell holds exactly this text.
pub open spec fn cell_is(row: int, col: int, text: Seq<char>) -> CheckView {
    CheckView { row, col, expected: MatchView::Exact(text) }
}

/// The test that a cell holds a text that starts with this one.
pub open spec fn cell_starts_with(row: int, col: int, text: Seq<char>) -> CheckView {
    CheckView { row, col, expected: MatchView::StartsWith(text) }
}

/// A list of names from a table.
pub fn names(table: &[&'static str]) -> (v: Vec<&'static str>)
    ensures
        v.deep_view() == table.deep_view(),
{
    let mut v: Vec<&'static str> = Vec::new();
    let mut i: usize = 0;
    while i < table.len()
        invariant
            i <= table.len(),
            v.len() == i,
            forall|j: int| 0 <= j < i ==> v[j] == table[j],
        decreases table.len() - i,
    {
        v.push(table[i]);
        i += 1;
    }
    assert(v.deep_view() =~= table.deep_view());
    v
}

/// Indexers that read the columns with the indexes of a table.
pub fn index_columns(table: &[u32]) -> (v: Vec<ColIndexer>)
    ensures
        v.deep_view() == index_cols(table@),
{
    let mut v: Vec<ColIndexer> = Vec::new();
    let mut i: usize = 0;
    while i < table.len()
        invariant
            i <= table.len(),
            v.len() == i,
            forall|j: int| 0 <= j < i ==> (#[trigger] v[j])@ == IndexerView::Index(table[j] as int),
        decreases table.len() - i,
    {
        v.push(ColIndexer::Index(table[i]));
        i += 1;
    }
    assert(v.deep_view() =~= index_cols(table@));
    v
}

/// Indexers that search for headers which start with the texts of a table.
pub fn prefix_columns(table: &[&'static str]) -> (v: Vec<ColIndexer>)
    ensures
        v.deep_view() == prefix_cols(table.deep_view()),
{
    let mut v: Vec<ColIndexer> = Vec::new();
    let mut i: usize = 0;
    while i < table.len()
        invariant
            i <= table.len(),
            v.len() == i,
            forall|j: int|
                0 <= j < i ==> (#[trigger] v[j])@ == IndexerView::HeaderSearch(
                    MatchView::StartsWith(table[j]@),
                ),
        decreases table.len() - i,
    {
        v.push(ColIndexer::HeaderSearch(MatchMethod::StartsWith(table[i])));
        i += 1;
    }
    assert(v.deep_view() =~= prefix_cols(table.deep_view()));
    v
}

/// Indexers that search for headers which are the texts of a table.
pub fn exact_columns(table: &[&'static str]) -> (v: Vec<ColIndexer>)
    ensures
        v.deep_view() == exact_cols(table.deep_view()),
{
    let mut v: Vec<ColIndexer> = Vec::new();
    let mut i: usize = 0;
    while i < table.len()
        invariant
            i <= table.len(),
            v.len() == i,
            forall|j: int|
                0 <= j < i ==> (#[trigger] v[j])@ == IndexerView::HeaderSearch(
                    MatchView::Exact(table[j]@),
                ),
        decreases table.len() - i,
    {
        v.push(ColIndexer::HeaderSearch(MatchMethod::Exact(table[i])));
        i += 1;
    }
    assert(v.deep_view() =~= exact_cols(table.deep_view()));
    v
}

/// Indexers that read the cells of a table.
pub fn cell_columns(table: &[(u32, u32)]) -> (v: Vec<ColIndexer>)
    ensures
        v.deep_view() == cell_cols(table@),
{
    let mut v: Vec<ColIndexer> = Vec::new();
    let mut i: usize = 0;
    while i < table.len()
        invariant
            i <= table.len(),
            v.len() == i,
            forall|j: int|
                0 <= j < i ==> (#[trigger] v[j])@ == (IndexerView::CellValue {
                    row: table[j].0 as int,
                    col: table[j].1 as int,
                }),
        decreases table.len() - i,
    {
        v.push(ColIndexer::CellValue { row: table[i].0, col: table[i].1 });
        i += 1;
    }
    assert(v.deep_view() =~= cell_cols(table@));
    v
}

/// Appends indexers that read `count` cells of one column, from `first_row`
/// down.
pub fn push_cell_run(v: &mut Vec<ColIndexer>, first_row: u32, count: u32, col: u32)
    requires
        first_row + count <= u32::MAX,
    ensures
        final(v).deep_view() == old(v).deep_view() + cell_run(
            first_row as int,
            count as nat,
            col as int,
        ),
{
    let ghost before = v.deep_view();
    let mut k: u32 = 0;
    while k < count
        invariant
            k <= count,
            first_row + count <= u32::MAX,
            v.deep_view() == before + cell_run(first_row as int, k as nat, col as int),
        decreases count - k,
    {
        let ghost so_far = v.deep_view();
        v.push(ColIndexer::CellValue { row: first_row + k, col });
        assert(v.deep_view() =~= so_far.push(
            IndexerView::CellValue { row: first_row + k, col: col as int },
        ));
        assert(cell_run(first_row as int, (k + 1) as nat, col as int) =~= cell_run(
            first_row as int,
            k as nat,
            col as int,
        ).push(IndexerView::CellValue { row: first_row + k, col: col as int }));
        k += 1;
    }
}

/// Appends `count` indexers that give the text "NA".
pub fn push_na(v: &mut Vec<ColIndexer>, count: u32)
    ensures
        final(v).deep_view() == old(v).deep_view() + na_cols(count as nat),
{
    let ghost before = v.deep_view();
    let mut k: u32 = 0;
    while k < count
        invariant
            k <= count,
            v.deep_view() == before + na_cols(k as nat),
        decreases count - k,
    {
        let ghost so_far = v.deep_view();
        v.push(ColIndexer::DefaultValue(na_cell()));
        assert(v.deep_view() =~= so_far.push(IndexerView::DefaultValue(CellView::Text(na_text()))));
        assert(na_cols((k + 1) as nat) =~= na_cols(k as nat).push(
            IndexerView::DefaultValue(CellView::Text(na_text())),
        ));
        k += 1;
    }
}

/// A sheet with one layout.
pub fn single(
    sheet_name: &'static str,
    col_names: Vec<&'static str>,
    col_indexers: Vec<ColIndexer>,
) -> (e: SheetExtractor)
    ensures
        e@ == ExtractorView::Single(
            SheetView {
                sheet_name: sheet_name@,
                col_names: col_names.deep_view(),
                col_indexers: col_indexers.deep_view(),
            },
        ),
{
    SheetExtractor::Single(Sheet { sheet_name, col_names, col_indexers })
}

/// One layout of a sheet: the worksheet to read and its indexers, then the
/// worksheet to probe and the test on it.
pub fn layout(
    sheet_name: &'static str,
    col_indexers: Vec<ColIndexer>,
    sheet_for_val: &'static str,
    validator: CellCheck,
) -> (p: PotentialSheet)
    ensures
        p@ == (CandidateView {
            sheet_name: sheet_name@,
            col_indexers: col_indexers.deep_view(),
            sheet_for_val: sheet_for_val@,
            validator: validator@,
        }),
{
    PotentialSheet { sheet_name, col_indexers, sheet_for_val, validator }
}

/// A sheet with several layouts, in priority order.
pub fn multi(col_names: Vec<&'static str>, potential_sheets: Vec<PotentialSheet>) -> (e:
    SheetExtractor)
    ensures
        e@ == ExtractorView::Multi(
            SelectorView {
                col_names: col_names.deep_view(),
                potential_sheets: potential_sheets.deep_view(),
            },
        ),
{
    SheetExtractor::Multi(SheetSelector { col_names, potential_sheets })
}

/// The test that a cell holds exactly this text.
pub fn check_is(row: u32, col: u32, text: &'static str) -> (c: CellCheck)
    ensures
        c@ == cell_is(row as int, col as int, text@),
{
    CellCheck { row, col, expected: MatchMethod::Exact(text) }
}

/// The test that a cell holds a text that starts with this one.
pub fn check_starts_with(row: u32, col: u32, text: &'static str) -> (c: CellCheck)
    ensures
        c@ == cell_starts_with(row as int, col as int, text@),
{
    CellCheck { row, col, expected: MatchMethod::StartsWith(text) }
}

} // verus!
