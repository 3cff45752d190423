//! Potency results of Agricor workbooks, one row for each sample.
//!
//! Every column but two is found by its header; the instrument and the start
//! date stand once in each workbook, in fixed cells of the preparation form.

use vstd::prelude::*;

use crate::extractors::extraction_manager::{ExtractionManager, ManagerView};
use crate::extractors::layout::{
    cell_cols, cell_columns, exact_cols, exact_columns, names, prefix_cols, prefix_columns, single,
};
use crate::excel_tools::helpers::{plan_wf, ExtractorView, SheetExtractor, SheetView};

verus! {

pub const MASTER_LIST_NAMES: [&'static str; 6] = [
    "Test ID",
    "Company",
    "Company License",
    "Manifest",
    "Sample Name",
    "Sample Type",
];

/// How the headers of the master list start, one for each name.
pub const MASTER_LIST_HEADERS: [&'static str; 6] = [
    "Test ID",
    "Customer License Name",
    "Customer License Number",
    "Manifest",
    "Sample Name",
    "Type",
];

/// The analytes: the names of their columns, and their headers.
pub const ANALYTES: [&'static str; 3] = ["CBDa", "CBDVa", "CBDV"];

pub const LOQ_NAMES: [&'static str; 3] = ["CBDa LLOQ", "CBDVa LLOQ", "CBDV LLOQ"];

pub const SAMPLE_PREP_NAMES: [&'static str; 2] = ["HPLC", "Start Date"];

/// The cells of the preparation form, as (row, column).
pub const SAMPLE_PREP_CELLS: [(u32, u32); 2] = [(7, 1), (0, 4)];

/// The plan: sample facts, results, limits of quantitation, preparation.
pub open spec fn agricor_potency_plan() -> Seq<ExtractorView> {
    seq![
        ExtractorView::Single(
            SheetView {
                sheet_name: "Master List"@,
                col_names: MASTER_LIST_NAMES.deep_view(),
                col_indexers: prefix_cols(MASTER_LIST_HEADERS.deep_view()),
            },
        ),
        ExtractorView::Single(
            SheetView {
                sheet_name: "Sample Data"@,
                col_names: ANALYTES.deep_view(),
                col_indexers: exact_cols(ANALYTES.deep_view()),
            },
        ),
        ExtractorView::Single(
            SheetView {
                sheet_name: "LOQ Summary"@,
                col_names: LOQ_NAMES.deep_view(),
                col_indexers: exact_cols(ANALYTES.deep_view()),
            },
        ),
        ExtractorView::Single(
            SheetView {
                sheet_name: "Sample Prep Form"@,
                col_names: SAMPLE_PREP_NAMES.deep_view(),
                col_indexers: cell_cols(SAMPLE_PREP_CELLS@),
            },
        ),
    ]
}

/// The plan is well formed: every sheet has one indexer for each name.
pub proof fn lemma_agricor_potency_plan_wf()
    ensures
        plan_wf(agricor_potency_plan()),
{
    let plan = agricor_potency_plan();
    assert forall|i: int| 0 <= i < plan.len() implies (#[trigger] plan[i]).wf() by {
        if i == 0 {
        } else if i == 1 {
        } else if i == 2 {
        } else {
        }
    }
}

/// The configuration for the potency results of Agricor workbooks: one row
/// for each sample of the master list.
pub fn get_extractors() -> (manager: ExtractionManager)
    ensures
        manager@ == ManagerView::RowGrain(agricor_potency_plan()),
        manager@.wf(),
{
    let master_list = single(
        "Master List",
        names(MASTER_LIST_NAMES.as_slice()),
        prefix_columns(MASTER_LIST_HEADERS.as_slice()),
    );
    let results = single(
        "Sample Data",
        names(ANALYTES.as_slice()),
        exact_columns(ANALYTES.as_slice()),
    );
    let limit_of_quants = single(
        "LOQ Summary",
        names(LOQ_NAMES.as_slice()),
        exact_columns(ANALYTES.as_slice()),
    );
    let sample_prep = single(
        "Sample Prep Form",
        names(SAMPLE_PREP_NAMES.as_slice()),
        cell_columns(SAMPLE_PREP_CELLS.as_slice()),
    );

    let mut plan: Vec<SheetExtractor> = Vec::new();
    plan.push(master_list);
    plan.push(results);
    plan.push(limit_of_quants);
    plan.push(sample_prep);
    assert(plan.deep_view() =~= agricor_potency_plan());
    proof {
        lemma_agricor_potency_plan_wf();
    }
    ExtractionManager::RowGrain(plan)
}

} // verus!
