//! Microbial results of Agricor workbooks, one row for each sample. Every
//! column is found by its header.

use vstd::prelude::*;

use crate::extractors::extraction_manager::{ExtractionManager, ManagerView};
use crate::extractors::layout::{names, prefix_cols, prefix_columns, single};
use crate::excel_tools::helpers::{plan_wf, ExtractorView, SheetExtractor, SheetView};

verus! {

pub const MASTER_LIST_NAMES: [&'static str; 5] = [
    "Test ID",
    "Company",
    "Company License",
    "Sample Name",
    "Sample Type",
];

/// How the headers of the master list start, one for each name.
pub const MASTER_LIST_HEADERS: [&'static str; 5] = [
    "Test ID",
    "LICENSE NAME",
    "CUSTOMER LICENSE",
    "SAMPLE NAME",
    "SAMPLE TYPE",
];

pub const TYM_NAMES: [&'static str; 5] = [
    "Sample Weight (g)",
    "Diluent Vol (mL)",
    "Colony Count",
    "Dilution Plate",
    "Reported CFU/g",
];

/// How the headers of the count worksheet start, one for each name.
pub const TYM_HEADERS: [&'static str; 5] = [
    "TYM Sample Weight",
    "TYM Diluent Vol",
    "Colony Count",
    "Dilution Plate",
    "Metrc Reported CFU",
];

/// The plan: sample facts, then the counts.
pub open spec fn agricor_micro_plan() -> Seq<ExtractorView> {
    seq![
        ExtractorView::Single(
            SheetView {
                sheet_name: "Master List"@,
                col_names: MASTER_LIST_NAMES.deep_view(),
                col_indexers: prefix_cols(MASTER_LIST_HEADERS.deep_view()),
            },
        ),
        ExtractorView::Single(
            SheetView {
                sheet_name: "TYM Values"@,
                col_names: TYM_NAMES.deep_view(),
                col_indexers: prefix_cols(TYM_HEADERS.deep_view()),
            },
        ),
    ]
}

/// The plan is well formed: every sheet has one indexer for each name.
pub proof fn lemma_agricor_micro_plan_wf()
    ensures
        plan_wf(agricor_micro_plan()),
{
    let plan = agricor_micro_plan();
    assert forall|i: int| 0 <= i < plan.len() implies (#[trigger] plan[i]).wf() by {
        if i == 0 {
        } else {
        }
    }
}

/// The configuration for the microbial results of Agricor workbooks: one row
/// for each sample of the master list.
pub fn get_extractors() -> (manager: ExtractionManager)
    ensures
        manager@ == ManagerView::RowGrain(agricor_micro_plan()),
        manager@.wf(),
{
    let master_list = single(
        "Master List",
        names(MASTER_LIST_NAMES.as_slice()),
        prefix_columns(MASTER_LIST_HEADERS.as_slice()),
    );
    let tym_sheet = single(
        "TYM Values",
        names(TYM_NAMES.as_slice()),
        prefix_columns(TYM_HEADERS.as_slice()),
    );

    let mut plan: Vec<SheetExtractor> = Vec::new();
    plan.push(master_list);
    plan.push(tym_sheet);
    assert(plan.deep_view() =~= agricor_micro_plan());
    proof {
        lemma_agricor_micro_plan_wf();
    }
    ExtractionManager::RowGrain(plan)
}

} // verus!
