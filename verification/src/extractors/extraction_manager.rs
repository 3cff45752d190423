//! The extraction manager: a plan and the granularity of its rows, and what
//! it extracts from one workbook.

use vstd::prelude::*;

use crate::cell::{CellValue, CellView};
use crate::excel_tools::helpers::{
    active_rows, assembled_rows, columns_cover, extract_sheet_columns, find_active_rows,
    lemma_active_rows, lemma_realized_length, lemma_resolved_wf, make_header, plan_header, plan_wf,
    realized_columns, resolve_plan, row_covered, rows_from_cols, validate_extractors,
    ExtractorView, Sheet, SheetExtractor, SheetView, DEFAULT_LAST_ROW,
};
use crate::sheet::{sheet_named, Book, Workbook};

verus! {

/// An extraction plan with the granularity of its rows: one row for the
/// whole file, or one row for each active row of the master list.
#[derive(PartialEq, Eq, Debug)]
pub enum ExtractionManager {
    FileGrain(Vec<SheetExtractor>),
    RowGrain(Vec<SheetExtractor>),
}

/// The mathematical value of an `ExtractionManager`.
pub enum ManagerView {
    FileGrain(Seq<ExtractorView>),
    RowGrain(Seq<ExtractorView>),
}

impl View for ExtractionManager {
    type V = ManagerView;

    open spec fn view(&self) -> ManagerView {
        match *self {
            ExtractionManager::FileGrain(plan) => ManagerView::FileGrain(plan.deep_view()),
            ExtractionManager::RowGrain(plan) => ManagerView::RowGrain(plan.deep_view()),
        }
    }
}

impl ManagerView {
    /// The plan, whatever the granularity.
    pub open spec fn plan(self) -> Seq<ExtractorView> {
        match self {
            ManagerView::FileGrain(plan) => plan,
            ManagerView::RowGrain(plan) => plan,
        }
    }

    /// Every sheet of the plan is well formed.
    pub open spec fn wf(self) -> bool {
        plan_wf(self.plan())
    }
}

impl ExtractionManager {
    /// The plan, whatever the granularity.
    pub fn plan(&self) -> (plan: &Vec<SheetExtractor>)
        ensures
            plan.deep_view() == self@.plan(),
    {
        match self {
            ExtractionManager::FileGrain(plan) => plan,
            ExtractionManager::RowGrain(plan) => plan,
        }
    }

    /// The header of the output: the output column names of every sheet of
    /// the plan, in plan order.
    pub fn header(&self) -> (header: Vec<&'static str>)
        ensures
            header.deep_view() == plan_header(self@.plan()),
    {
        make_header(self.plan().as_slice())
    }
}

/// Why a workbook gives no rows.
#[derive(Clone, Copy, PartialEq, Eq, Debug)]
pub enum SkipReason {
    /// A sheet of the plan has no layout that the workbook validates.
    LayoutMismatch,
    /// The workbook lacks a worksheet that a resolved sheet reads.
    MissingWorksheet,
}

/// The worksheet that lists the samples, one in each row.
pub open spec fn master_list() -> Seq<char> {
    "Master List"@
}

/// The column of the master list that tells which rows carry a sample.
pub const SEARCH_COLUMN: u32 = 1;

/// The number of rows that every column is realized for.
pub const MAX_ROW: u32 = 200;

/// The rows that a manager extracts from a workbook. For a file-grain plan
/// this is row 1 alone, whatever the workbook holds. For a row-grain plan
/// they are the active rows of the master list, and none where the workbook
/// has no master list.
pub open spec fn extraction_rows(book: Book, manager: ManagerView) -> Seq<u32> {
    match manager {
        ManagerView::FileGrain(_) => seq![1u32],
        ManagerView::RowGrain(_) => match sheet_named(book, master_list()) {
            Some(g) => active_rows(g, SEARCH_COLUMN as int, DEFAULT_LAST_ROW as nat),
            None => Seq::empty(),
        },
    }
}

/// Whether the workbook has the worksheet of every resolved sheet.
pub open spec fn sheets_present(book: Book, sheets: Seq<SheetView>) -> bool {
    forall|i: int|
        0 <= i < sheets.len() ==> sheet_named(book, (#[trigger] sheets[i]).sheet_name) is Some
}

/// The columns of all resolved sheets, one sheet after the other.
pub open spec fn plan_columns(book: Book, sheets: Seq<SheetView>, row_count: nat) -> Seq<
    Seq<CellView>,
>
    decreases sheets.len(),
{
    if sheets.len() == 0 {
        Seq::empty()
    } else {
        plan_columns(book, sheets.drop_last(), row_count) + realized_columns(
            sheet_named(book, sheets.last().sheet_name).unwrap(),
            sheets.last().col_indexers,
            row_count,
        )
    }
}

/// What a manager extracts from a workbook: the rows, or why there are none.
pub open spec fn extraction(book: Book, manager: ManagerView) -> Result<
    Seq<Seq<CellView>>,
    SkipReason,
> {
    match resolve_plan(book, manager.plan()) {
        None => Err(SkipReason::LayoutMismatch),
        Some(sheets) => if !sheets_present(book, sheets) {
            Err(SkipReason::MissingWorksheet)
        } else {
            Ok(
                assembled_rows(
                    plan_columns(book, sheets, MAX_ROW as nat),
                    extraction_rows(book, manager),
                ),
            )
        },
    }
}

/// Every column of the plan has at least `row_count` values, and there are as
/// many columns as the sheets have indexers.
pub proof fn lemma_plan_columns(book: Book, sheets: Seq<SheetView>, row_count: nat)
    ensures
        forall|j: int|
            0 <= j < plan_columns(book, sheets, row_count).len() ==> (#[trigger] plan_columns(
                book,
                sheets,
                row_count,
            )[j]).len() >= row_count,
        plan_columns(book, sheets, row_count).len() == total_indexers(sheets),
    decreases sheets.len(),
{
    if sheets.len() > 0 {
        lemma_plan_columns(book, sheets.drop_last(), row_count);
        let g = sheet_named(book, sheets.last().sheet_name).unwrap();
        let tail = realized_columns(g, sheets.last().col_indexers, row_count);
        assert forall|j: int| 0 <= j < tail.len() implies (#[trigger] tail[j]).len()
            >= row_count by {
            lemma_realized_length(g, sheets.last().col_indexers[j], row_count);
        }
    }
}

/// The number of indexers of all sheets together.
pub open spec fn total_indexers(sheets: Seq<SheetView>) -> nat
    decreases sheets.len(),
{
    if sheets.len() == 0 {
        0
    } else {
        total_indexers(sheets.drop_last()) + sheets.last().col_indexers.len()
    }
}

/// Extracts the rows of one workbook.
///
/// The plan is resolved against the workbook first: a workbook that does not
/// match every sheet of the plan is skipped, and so is one that lacks a
/// worksheet that a resolved sheet reads. Then every column is realized for
/// 200 rows and the columns are joined into one row for each extracted row
/// number.
pub fn file_to_rows_data(wb: &Workbook, extraction_manager: &ExtractionManager) -> (r: Result<
    Vec<Vec<CellValue>>,
    SkipReason,
>)
    ensures
        match r {
            Ok(rows) => extraction(wb@, extraction_manager@) == Ok::<
                Seq<Seq<CellView>>,
                SkipReason,
            >(rows.deep_view()),
            Err(reason) => extraction(wb@, extraction_manager@) == Err::<
                Seq<Seq<CellView>>,
                SkipReason,
            >(reason),
        },
{
    let sheet_extractors = extraction_manager.plan();
    let sheets: Vec<Sheet> = match validate_extractors(wb, sheet_extractors.as_slice()) {
        Some(sheets) => sheets,
        None => {
            return Err(SkipReason::LayoutMismatch);
        },
    };
    let ghost resolved = sheets.deep_view();
    assert(resolve_plan(wb@, extraction_manager@.plan()) == Some(resolved));

    let active: Vec<u32> = match extraction_manager {
        ExtractionManager::FileGrain(_) => {
            let mut one: Vec<u32> = Vec::new();
            one.push(1);
            assert(one@ =~= seq![1u32]);
            one
        },
        ExtractionManager::RowGrain(_) => {
            proof {
                reveal_strlit("Master List");
            }
            match wb.worksheet_range("Master List") {
                Some(ws) => find_active_rows(ws, SEARCH_COLUMN, None),
                None => Vec::new(),
            }
        },
    };
    assert(active@ == extraction_rows(wb@, extraction_manager@));
    assert forall|i: int| 0 <= i < active.len() implies 1 <= #[trigger] active@[i] <= MAX_ROW by {
        match extraction_manager@ {
            ManagerView::FileGrain(_) => {},
            ManagerView::RowGrain(_) => {
                if sheet_named(wb@, master_list()) is Some {
                    lemma_active_rows(
                        sheet_named(wb@, master_list()).unwrap(),
                        SEARCH_COLUMN as int,
                        DEFAULT_LAST_ROW as nat,
                    );
                }
            },
        }
    }

    let mut col_vecs: Vec<Vec<CellValue>> = Vec::new();
    let mut i: usize = 0;
    while i < sheets.len()
        invariant
            i <= sheets.len(),
            resolved == sheets.deep_view(),
            resolved.len() == sheets.len(),
            resolve_plan(wb@, extraction_manager@.plan()) == Some(resolved),
            forall|j: int|
                0 <= j < i ==> sheet_named(wb@, (#[trigger] resolved[j]).sheet_name) is Some,
            col_vecs.deep_view() == plan_columns(wb@, resolved.take(i as int), MAX_ROW as nat),
        decreases sheets.len() - i,
    {
        let sheet = &sheets[i];
        assert(resolved[i as int] == sheet@);
        let ws = match wb.worksheet_range(sheet.sheet_name) {
            Some(ws) => ws,
            None => {
                assert(sheet_named(wb@, resolved[i as int].sheet_name) is None);
                return Err(SkipReason::MissingWorksheet);
            },
        };
        let mut cols = extract_sheet_columns(ws, sheet, MAX_ROW);
        let ghost before = col_vecs.deep_view();
        let ghost added = cols.deep_view();
        col_vecs.append(&mut cols);
        assert(col_vecs.deep_view() =~= before + added);
        assert(resolved.take(i + 1).drop_last() =~= resolved.take(i as int));
        assert(resolved.take(i + 1).last() == resolved[i as int]);
        i += 1;
    }
    assert(resolved.take(sheets.len() as int) =~= resolved);
    assert(sheets_present(wb@, resolved));
    proof {
        lemma_plan_columns(wb@, resolved, MAX_ROW as nat);
        let cols = col_vecs.deep_view();
        assert forall|a: int| 0 <= a < active@.len() implies row_covered(
            cols,
            #[trigger] active@[a],
        ) by {
            assert(1 <= active@[a] <= MAX_ROW);
        }
    }
    Ok(rows_from_cols(col_vecs, active))
}

/// A file-grain plan gives exactly one row from every workbook that it
/// extracts from, however many rows of the workbook are populated.
pub proof fn lemma_file_grain_one_row(book: Book, manager: ManagerView)
    requires
        manager is FileGrain,
        extraction(book, manager) is Ok,
    ensures
        extraction(book, manager)->Ok_0.len() == 1,
{
}

/// A row-grain plan gives one row for each active row of the master list.
pub proof fn lemma_row_grain_rows(book: Book, manager: ManagerView)
    requires
        manager is RowGrain,
        extraction(book, manager) is Ok,
    ensures
        extraction(book, manager)->Ok_0.len() == extraction_rows(book, manager).len(),
{
}

/// The header of a plan has as many names as its sheets have together.
pub proof fn lemma_header_length(plan: Seq<ExtractorView>)
    ensures
        plan_header(plan).len() == total_names(plan),
    decreases plan.len(),
{
    if plan.len() > 0 {
        lemma_header_length(plan.drop_last());
    }
}

/// The number of output column names of all sheets of a plan together.
pub open spec fn total_names(plan: Seq<ExtractorView>) -> nat
    decreases plan.len(),
{
    if plan.len() == 0 {
        0
    } else {
        total_names(plan.drop_last()) + plan.last().col_names().len()
    }
}

/// The sheets that a well-formed plan resolves to have, together, as many
/// indexers as the plan has output column names.
proof fn lemma_indexers_match_names(plan: Seq<ExtractorView>, sheets: Seq<SheetView>)
    requires
        plan.len() == sheets.len(),
        forall|i: int|
            0 <= i < plan.len() ==> (#[trigger] sheets[i]).wf() && sheets[i].col_names
                == plan[i].col_names(),
    ensures
        total_indexers(sheets) == total_names(plan),
    decreases plan.len(),
{
    if plan.len() > 0 {
        assert(sheets.last().wf());
        assert forall|i: int| 0 <= i < plan.drop_last().len() implies (
        #[trigger] sheets.drop_last()[i]).wf() && sheets.drop_last()[i].col_names
            == plan.drop_last()[i].col_names() by {
            assert(sheets[i].wf());
        }
        lemma_indexers_match_names(plan.drop_last(), sheets.drop_last());
    }
}

/// Every row that a well-formed manager extracts is as wide as its header:
/// one value for each output column name of the plan.
pub proof fn lemma_row_width(book: Book, manager: ManagerView)
    requires
        manager.wf(),
        extraction(book, manager) is Ok,
    ensures
        forall|i: int|
            0 <= i < extraction(book, manager)->Ok_0.len() ==> (#[trigger] extraction(
                book,
                manager,
            )->Ok_0[i]).len() == plan_header(manager.plan()).len(),
{
    let plan = manager.plan();
    let sheets = resolve_plan(book, plan).unwrap();
    lemma_resolved_wf(book, plan);
    lemma_indexers_match_names(plan, sheets);
    lemma_header_length(plan);
    lemma_plan_columns(book, sheets, MAX_ROW as nat);
}

} // verus!
