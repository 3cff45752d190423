//! Control values of Agricor potency runs, one row for each workbook.
//!
//! Every value stands in a fixed cell of the system suitability worksheet.
//! The lower part of that worksheet has had two layouts, told apart by the
//! row in which the bracketing standards begin: the newer has no placebos and
//! has spiked surrogates, the older the other way round.

use vstd::prelude::*;

use crate::extractors::extraction_manager::{ExtractionManager, ManagerView};
use crate::extractors::layout::{
    cell_cols, cell_columns, cell_is, cell_run, check_is, layout, multi, na_cols, names,
    push_cell_run, push_na, single,
};
use crate::excel_tools::helpers::{
    plan_wf, CandidateView, ColIndexer, ExtractorView, IndexerView, PotentialSheet, SelectorView,
    SheetExtractor, SheetView,
};

verus! {

pub const COMMON_NAMES: [&'static str; 6] = [
    "Date",
    "IS Response",
    "Check Std. Low - CBD",
    "Check Std. Low - d9THC",
    "Check Std. High - CBD",
    "Check Std. High - d9THC",
];

/// The cells that both layouts share, as (row, column).
pub const COMMON_CELLS: [(u32, u32); 6] = [(1, 3), (6, 1), (19, 1), (20, 1), (24, 1), (25, 1)];

pub const VARIABLE_NAMES: [&'static str; 56] = [
    "Placebo - CBD",
    "Placebo - d9THC",
    "Bracketing Std. 1 - CBD",
    "Bracketing Std. 2 - CBD",
    "Bracketing Std. 3 - CBD",
    "Bracketing Std. 4 - CBD",
    "Bracketing Std. 5 - CBD",
    "Bracketing Std. 6 - CBD",
    "Bracketing Std. 7 - CBD",
    "Bracketing Std. 8 - CBD",
    "Bracketing Std. 9 - CBD",
    "Bracketing Std. 10 - CBD",
    "Bracketing Std. 1 - d9THC",
    "Bracketing Std. 2 - d9THC",
    "Bracketing Std. 3 - d9THC",
    "Bracketing Std. 4 - d9THC",
    "Bracketing Std. 5 - d9THC",
    "Bracketing Std. 6 - d9THC",
    "Bracketing Std. 7 - d9THC",
    "Bracketing Std. 8 - d9THC",
    "Bracketing Std. 9 - d9THC",
    "Bracketing Std. 10 - d9THC",
    "Spiked Surrogate 1 - CBD",
    "Spiked Surrogate 2 - CBD",
    "Spiked Surrogate 3 - CBD",
    "Spiked Surrogate 4 - CBD",
    "Spiked Surrogate 5 - CBD",
    "Spiked Surrogate 6 - CBD",
    "Spiked Surrogate 7 - CBD",
    "Spiked Surrogate 8 - CBD",
    "Spiked Surrogate 9 - CBD",
    "Spiked Surrogate 10 - CBD",
    "Spiked Surrogate 11 - CBD",
    "Spiked Surrogate 12 - CBD",
    "Spiked Surrogate 1 - d9THC",
    "Spiked Surrogate 2 - d9THC",
    "Spiked Surrogate 3 - d9THC",
    "Spiked Surrogate 4 - d9THC",
    "Spiked Surrogate 5 - d9THC",
    "Spiked Surrogate 6 - d9THC",
    "Spiked Surrogate 7 - d9THC",
    "Spiked Surrogate 8 - d9THC",
    "Spiked Surrogate 9 - d9THC",
    "Spiked Surrogate 10 - d9THC",
    "Spiked Surrogate 11 - d9THC",
    "Spiked Surrogate 12 - d9THC",
    "Primary Standard 1 - CBD",
    "Primary Standard 2 - CBD",
    "Primary Standard 3 - CBD",
    "Primary Standard 4 - CBD",
    "Primary Standard 5 - CBD",
    "Primary Standard 1 - d9THC",
    "Primary Standard 2 - d9THC",
    "Primary Standard 3 - d9THC",
    "Primary Standard 4 - d9THC",
    "Primary Standard 5 - d9THC",
];

/// The columns of the newer layout: no placebos; ten bracketing standards
/// from row 29, twelve spiked surrogates from row 42 and five primary
/// standards from row 75, each for CBD in column 1 and then for d9THC in
/// column 2.
pub open spec fn late_2020_cols() -> Seq<IndexerView> {
    na_cols(2) + cell_run(29, 10, 1) + cell_run(29, 10, 2) + cell_run(42, 12, 1) + cell_run(
        42,
        12,
        2,
    ) + cell_run(75, 5, 1) + cell_run(75, 5, 2)
}

/// The columns of the older layout: the two placebos in rows 29 and 30 of
/// column 1; ten bracketing standards from row 34; no spiked surrogates; five
/// primary standards from row 63.
pub open spec fn early_2020_cols() -> Seq<IndexerView> {
    cell_run(29, 2, 1) + cell_run(34, 10, 1) + cell_run(34, 10, 2) + na_cols(12) + na_cols(12)
        + cell_run(63, 5, 1) + cell_run(63, 5, 2)
}

/// The newer layout: the bracketing standards begin in row 29.
pub open spec fn late_2020_layout() -> CandidateView {
    CandidateView {
        sheet_name: "System Suitability"@,
        col_indexers: late_2020_cols(),
        sheet_for_val: "System Suitability"@,
        validator: cell_is(29, 0, "Bracketing Standard 1"@),
    }
}

/// The older layout: the bracketing standards begin in row 34.
pub open spec fn early_2020_layout() -> CandidateView {
    CandidateView {
        sheet_name: "System Suitability"@,
        col_indexers: early_2020_cols(),
        sheet_for_val: "System Suitability"@,
        validator: cell_is(34, 0, "Bracketing Standard 1"@),
    }
}

/// The plan: the values that both layouts share, then those that differ.
pub open spec fn agricor_potency_controls_plan() -> Seq<ExtractorView> {
    seq![
        ExtractorView::Single(
            SheetView {
                sheet_name: "System Suitability"@,
                col_names: COMMON_NAMES.deep_view(),
                col_indexers: cell_cols(COMMON_CELLS@),
            },
        ),
        ExtractorView::Multi(
            SelectorView {
                col_names: VARIABLE_NAMES.deep_view(),
                potential_sheets: seq![late_2020_layout(), early_2020_layout()],
            },
        ),
    ]
}

/// The plan is well formed: every layout has one indexer for each name.
pub proof fn lemma_agricor_potency_controls_plan_wf()
    ensures
        plan_wf(agricor_potency_controls_plan()),
{
    let plan = agricor_potency_controls_plan();
    assert forall|i: int| 0 <= i < plan.len() implies (#[trigger] plan[i]).wf() by {
        if i == 0 {
        } else {
            let s = plan[1]->Multi_0;
            assert forall|j: int| 0 <= j < s.potential_sheets.len() implies (
            #[trigger] s.potential_sheets[j]).col_indexers.len() == s.col_names.len() by {
                if j == 0 {
                    assert(late_2020_cols().len() == 56);
                } else {
                    assert(early_2020_cols().len() == 56);
                }
            }
        }
    }
}

/// The configuration for the control values of Agricor potency runs: one row
/// for each workbook.
pub fn get_extractors() -> (manager: ExtractionManager)
    ensures
        manager@ == ManagerView::FileGrain(agricor_potency_controls_plan()),
        manager@.wf(),
{
    let late_2020_validator = ("System Suitability", check_is(29, 0, "Bracketing Standard 1"));
    let early_2020_validator = ("System Suitability", check_is(34, 0, "Bracketing Standard 1"));

    let sys_suit_common = single(
        "System Suitability",
        names(COMMON_NAMES.as_slice()),
        cell_columns(COMMON_CELLS.as_slice()),
    );

    let mut late: Vec<ColIndexer> = Vec::new();
    // placebos
    push_na(&mut late, 2);
    // bracketing standards, CBD then d9THC
    push_cell_run(&mut late, 29, 10, 1);
    push_cell_run(&mut late, 29, 10, 2);
    // spiked surrogates, CBD then d9THC
    push_cell_run(&mut late, 42, 12, 1);
    push_cell_run(&mut late, 42, 12, 2);
    // primary standards, CBD then d9THC
    push_cell_run(&mut late, 75, 5, 1);
    push_cell_run(&mut late, 75, 5, 2);
    assert(late.deep_view() =~= late_2020_cols());

    let mut early: Vec<ColIndexer> = Vec::new();
    // placebos
    push_cell_run(&mut early, 29, 2, 1);
    // bracketing standards, CBD then d9THC
    push_cell_run(&mut early, 34, 10, 1);
    push_cell_run(&mut early, 34, 10, 2);
    // spiked surrogates, CBD then d9THC
    push_na(&mut early, 12);
    push_na(&mut early, 12);
    // primary standards, CBD then d9THC
    push_cell_run(&mut early, 63, 5, 1);
    push_cell_run(&mut early, 63, 5, 2);
    assert(early.deep_view() =~= early_2020_cols());

    let mut layouts: Vec<PotentialSheet> = Vec::new();
    layouts.push(
        layout("System Suitability", late, late_2020_validator.0, late_2020_validator.1),
    );
    layouts.push(
        layout("System Suitability", early, early_2020_validator.0, early_2020_validator.1),
    );
    assert(layouts.deep_view() =~= seq![late_2020_layout(), early_2020_layout()]);
    let sys_suit_variable = multi(names(VARIABLE_NAMES.as_slice()), layouts);

    let mut plan: Vec<SheetExtractor> = Vec::new();
    plan.push(sys_suit_common);
    plan.push(sys_suit_variable);
    assert(plan.deep_view() =~= agricor_potency_controls_plan());
    proof {
        lemma_agricor_potency_controls_plan_wf();
    }
    ExtractionManager::FileGrain(plan)
}

} // verus!
