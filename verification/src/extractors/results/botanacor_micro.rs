//! Microbial results of Botanacor workbooks, one row for each sample.
//!
//! The master list has had three layouts. The newest keeps the test
//! identifiers on a worksheet of their own; before that they stood in column
//! 1 of the master list; the oldest workbooks have none.

use vstd::prelude::*;

use crate::extractors::extraction_manager::{ExtractionManager, ManagerView};
use crate::extractors::layout::{
    cell_is, cell_starts_with, check_is, check_starts_with, index_cols, index_columns, layout,
    multi, na_cols, names, push_na, single,
};
use crate::excel_tools::helpers::{
    plan_wf, CandidateView, ColIndexer, ExtractorView, PotentialSheet, SelectorView,
    SheetExtractor, SheetView,
};

verus! {

pub const TEST_ID_NAMES: [&'static str; 1] = ["Test Id"];

pub const SAMPLE_INFO_NAMES: [&'static str; 7] = [
    "Company",
    "Sample Name",
    "Sample Type",
    "PBST wt (g)",
    "PBST vol (mL)",
    "Enrichment wt (g)",
    "Enrichment vol (mL)",
];

pub const TYM_NAMES: [&'static str; 3] = ["TYM CFU Count", "TYM Dil. Plate", "TYM Reported CFU/g"];

pub const TOTAL_AEROBIC_NAMES: [&'static str; 3] = [
    "TA CFU Count",
    "TA Dil. Plate",
    "TA Reported CFU/g",
];

pub const TOTAL_COLIFORMS_NAMES: [&'static str; 3] = [
    "Coliforms CFU Count",
    "Coliforms Dil. Plate",
    "Coliforms Reported CFU/g",
];

/// Where the test identifier stands on the worksheet of the newest layout.
pub const MAPPED_TEST_ID_COLS: [u32; 1] = [3];

/// Where the test identifier stands on the master list with test identifiers.
pub const LISTED_TEST_ID_COLS: [u32; 1] = [1];

/// Where the sample facts stand on the master list with test identifiers.
pub const SAMPLE_INFO_COLS: [u32; 7] = [6, 8, 10, 11, 13, 12, 14];

/// Where the sample facts stand on the master list without test identifiers.
pub const OLD_SAMPLE_INFO_COLS: [u32; 7] = [2, 3, 5, 6, 8, 7, 9];

/// Where the counts stand on each of the three count worksheets.
pub const COUNT_COLS: [u32; 3] = [4, 5, 6];

/// The layout with a worksheet that maps samples to test identifiers.
pub open spec fn mapped_test_id_layout() -> CandidateView {
    CandidateView {
        sheet_name: "AgrBotMap"@,
        col_indexers: index_cols(MAPPED_TEST_ID_COLS@),
        sheet_for_val: "AgrBotMap"@,
        validator: cell_is(0, 3, "AgricorSampleName"@),
    }
}

/// The layout with the test identifiers on the master list.
pub open spec fn listed_test_id_layout() -> CandidateView {
    CandidateView {
        sheet_name: "Master List"@,
        col_indexers: index_cols(LISTED_TEST_ID_COLS@),
        sheet_for_val: "Master List"@,
        validator: cell_is(0, 1, "Test Id"@),
    }
}

/// The layout without test identifiers.
pub open spec fn no_test_id_layout() -> CandidateView {
    CandidateView {
        sheet_name: "Master List"@,
        col_indexers: na_cols(1),
        sheet_for_val: "Master List"@,
        validator: cell_starts_with(0, 1, "Company Name"@),
    }
}

/// The test identifier of each sample.
pub open spec fn test_id_sheet() -> ExtractorView {
    ExtractorView::Multi(
        SelectorView {
            col_names: TEST_ID_NAMES.deep_view(),
            potential_sheets: seq![
                mapped_test_id_layout(),
                listed_test_id_layout(),
                no_test_id_layout(),
            ],
        },
    )
}

/// The sample facts on the master list with test identifiers.
pub open spec fn sample_info_layout() -> CandidateView {
    CandidateView {
        sheet_name: "Master List"@,
        col_indexers: index_cols(SAMPLE_INFO_COLS@),
        sheet_for_val: "Master List"@,
        validator: cell_is(0, 1, "Test Id"@),
    }
}

/// The sample facts on the master list without test identifiers.
pub open spec fn old_sample_info_layout() -> CandidateView {
    CandidateView {
        sheet_name: "Master List"@,
        col_indexers: index_cols(OLD_SAMPLE_INFO_COLS@),
        sheet_for_val: "Master List"@,
        validator: cell_starts_with(0, 1, "Company Name"@),
    }
}

/// The facts of each sample.
pub open spec fn sample_info_sheet() -> ExtractorView {
    ExtractorView::Multi(
        SelectorView {
            col_names: SAMPLE_INFO_NAMES.deep_view(),
            potential_sheets: seq![sample_info_layout(), old_sample_info_layout()],
        },
    )
}

/// The counts on one of the count worksheets.
pub open spec fn count_sheet(sheet_name: Seq<char>, col_names: Seq<Seq<char>>) -> ExtractorView {
    ExtractorView::Single(
        SheetView { sheet_name, col_names, col_indexers: index_cols(COUNT_COLS@) },
    )
}

/// The plan: test identifier, sample facts, then the three counts.
pub open spec fn botanacor_micro_plan() -> Seq<ExtractorView> {
    seq![
        test_id_sheet(),
        sample_info_sheet(),
        count_sheet("TYM Values"@, TYM_NAMES.deep_view()),
        count_sheet("Total Aerobic"@, TOTAL_AEROBIC_NAMES.deep_view()),
        count_sheet("Total Coliforms"@, TOTAL_COLIFORMS_NAMES.deep_view()),
    ]
}

/// The plan is well formed: every layout has one indexer for each name.
pub proof fn lemma_botanacor_micro_plan_wf()
    ensures
        plan_wf(botanacor_micro_plan()),
{
    let plan = botanacor_micro_plan();
    assert forall|i: int| 0 <= i < plan.len() implies (#[trigger] plan[i]).wf() by {
        if i == 0 {
            let s = plan[0]->Multi_0;
            assert forall|j: int| 0 <= j < s.potential_sheets.len() implies (
            #[trigger] s.potential_sheets[j]).col_indexers.len() == s.col_names.len() by {
                if j == 0 {
                } else if j == 1 {
                } else {
                }
            }
        } else if i == 1 {
            let s = plan[1]->Multi_0;
            assert forall|j: int| 0 <= j < s.potential_sheets.len() implies (
            #[trigger] s.potential_sheets[j]).col_indexers.len() == s.col_names.len() by {
                if j == 0 {
                } else {
                }
            }
        } else if i == 2 {
        } else if i == 3 {
        } else {
        }
    }
}

/// Builds the plan for the microbial results of Botanacor workbooks.
pub fn get_botanacor_micro_extractors() -> (plan: Vec<SheetExtractor>)
    ensures
        plan.deep_view() == botanacor_micro_plan(),
        plan_wf(plan.deep_view()),
{
    let mid_2020_validator = ("AgrBotMap", check_is(0, 3, "AgricorSampleName"));
    let early_2020_validator = ("Master List", check_is(0, 1, "Test Id"));
    let pre_test_id_validator = ("Master List", check_starts_with(0, 1, "Company Name"));

    let mut no_test_id: Vec<ColIndexer> = Vec::new();
    push_na(&mut no_test_id, 1);
    assert(no_test_id.deep_view() =~= na_cols(1));
    let mut test_id_layouts: Vec<PotentialSheet> = Vec::new();
    test_id_layouts.push(
        layout(
            "AgrBotMap",
            index_columns(MAPPED_TEST_ID_COLS.as_slice()),
            mid_2020_validator.0,
            mid_2020_validator.1,
        ),
    );
    test_id_layouts.push(
        layout(
            "Master List",
            index_columns(LISTED_TEST_ID_COLS.as_slice()),
            early_2020_validator.0,
            early_2020_validator.1,
        ),
    );
    test_id_layouts.push(
        layout("Master List", no_test_id, pre_test_id_validator.0, pre_test_id_validator.1),
    );
    assert(test_id_layouts.deep_view() =~= seq![
        mapped_test_id_layout(),
        listed_test_id_layout(),
        no_test_id_layout(),
    ]);
    let test_id_sheet = multi(names(TEST_ID_NAMES.as_slice()), test_id_layouts);

    let mut sample_info_layouts: Vec<PotentialSheet> = Vec::new();
    sample_info_layouts.push(
        layout(
            "Master List",
            index_columns(SAMPLE_INFO_COLS.as_slice()),
            early_2020_validator.0,
            early_2020_validator.1,
        ),
    );
    sample_info_layouts.push(
        layout(
            "Master List",
            index_columns(OLD_SAMPLE_INFO_COLS.as_slice()),
            pre_test_id_validator.0,
            pre_test_id_validator.1,
        ),
    );
    assert(sample_info_layouts.deep_view() =~= seq![
        sample_info_layout(),
        old_sample_info_layout(),
    ]);
    let sample_info_sheet = multi(names(SAMPLE_INFO_NAMES.as_slice()), sample_info_layouts);

    let tym_values = single(
        "TYM Values",
        names(TYM_NAMES.as_slice()),
        index_columns(COUNT_COLS.as_slice()),
    );
    let tot_aerobic_values = single(
        "Total Aerobic",
        names(TOTAL_AEROBIC_NAMES.as_slice()),
        index_columns(COUNT_COLS.as_slice()),
    );
    let tot_col_values = single(
        "Total Coliforms",
        names(TOTAL_COLIFORMS_NAMES.as_slice()),
        index_columns(COUNT_COLS.as_slice()),
    );

    let mut plan: Vec<SheetExtractor> = Vec::new();
    plan.push(test_id_sheet);
    plan.push(sample_info_sheet);
    plan.push(tym_values);
    plan.push(tot_aerobic_values);
    plan.push(tot_col_values);
    assert(plan.deep_view() =~= botanacor_micro_plan());
    proof {
        lemma_botanacor_micro_plan_wf();
    }
    plan
}

/// The configuration for the microbial results of Botanacor workbooks: one
/// row for each sample of the master list.
pub fn get_extractors() -> (manager: ExtractionManager)
    ensures
        manager@ == ManagerView::RowGrain(botanacor_micro_plan()),
        manager@.wf(),
{
    ExtractionManager::RowGrain(get_botanacor_micro_extractors())
}

} // verus!
