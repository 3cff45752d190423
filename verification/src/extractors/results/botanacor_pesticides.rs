//! Pesticide results of Botanacor workbooks, one row for each sample.
//!
//! The master list has had two layouts: the older has no test identifiers
//! and names the customer in another column. The results are found by the
//! headers of the analytes.

use vstd::prelude::*;

use crate::extractors::extraction_manager::{ExtractionManager, ManagerView};
use crate::extractors::layout::{
    cell_starts_with, check_starts_with, layout, multi, na_cols, names, prefix_cols,
    prefix_columns, push_na, single,
};
use crate::excel_tools::helpers::{
    plan_wf, CandidateView, ColIndexer, ExtractorView, PotentialSheet, SelectorView,
    SheetExtractor, SheetView,
};

verus! {

pub const MASTER_LIST_NAMES: [&'static str; 4] = [
    "Test Id",
    "Customer Name",
    "Sample Name",
    "Report Type",
];

/// How the headers of the master list with test identifiers start.
pub const MASTER_LIST_HEADERS: [&'static str; 4] = [
    "Test Id",
    "Testing Company Name",
    "Sample Info",
    "Report Type",
];

/// How the headers of the older master list start, behind the test
/// identifier that it lacks.
pub const OLD_MASTER_LIST_HEADERS: [&'static str; 3] = [
    "Customer Name",
    "Sample Info",
    "Report Type",
];

pub const RESULT_NAMES: [&'static str; 51] = [
    "Unit",
    "Acephate",
    "Oxamyl",
    "Methomyl",
    "Flonicamid",
    "Thiamethoxam",
    "Dimethoate",
    "Imidacloprid",
    "Acetamiprid",
    "Thiacloprid",
    "Dichlorvos",
    "Propoxur",
    "Carbofuran",
    "Carbaryl",
    "Imazalil",
    "Metalaxyl",
    "Naled",
    "Spiroxamine 1",
    "Spiroxamine 2",
    "Methiocarb",
    "Chlorantraniliprole",
    "Fludioxonil",
    "Paclobutrazol",
    "Prophos",
    "Boscalid",
    "Myclobutanil",
    "Phosmet",
    "Malathion",
    "Azoxystrobin",
    "Bifenazate",
    "Spirotetramat",
    "Fipronil",
    "Tebuconazole",
    "Fenoxycarb",
    "Diazinon",
    "Kresoxim-methyl",
    "MGK 264 1",
    "Clofentezine",
    "MGK 264 2",
    "Trifloxystrobin",
    "Spinosad A",
    "Spiromesifen",
    "Spinosad D",
    "Etoxazole",
    "Chlorpyrifos",
    "Hexythiazox",
    "E-Fenpyroximate",
    "Pyridaben",
    "Avermectin",
    "Permethrin",
    "Etofenprox",
];

/// How the headers of the results start, one for each name.
pub const RESULT_HEADERS: [&'static str; 51] = [
    "Units",
    "Acephate",
    "Oxamyl",
    "Methomyl",
    "Flonicamid",
    "Thiamethoxam",
    "Dimethoate",
    "Imidacloprid",
    "Acetamiprid",
    "Thiacloprid",
    "Dichlorvos",
    "Propoxur",
    "Carbofuran",
    "Carbaryl",
    "Imazalil",
    "Metalaxyl",
    "Naled",
    "Spiroxamine 1",
    "Spiroxamine 2",
    "Methiocarb",
    "Chlorantraniliprole",
    "Fludioxonil",
    "Paclobutrazol",
    "Prophos",
    "Boscalid",
    "Myclobutanil",
    "Phosmet",
    "Malathion",
    "Azoxystrobin",
    "Bifenazate",
    "Spirotetramat",
    "Fipronil",
    "Tebuconazole",
    "Fenoxycarb",
    "Diazinon",
    "Kresoxim-methyl",
    "MGK 264 1",
    "Clofentezine",
    "MGK 264 2",
    "Trifloxystrobin",
    "Spinosad A",
    "Spiromesifen",
    "Spinosad D",
    "Etoxazole",
    "Chlorpyrifos",
    "Hexythiazox",
    "E-Fenpyroximate",
    "Pyridaben",
    "Avermectin",
    "Permethrin",
    "Etofenprox",
];

/// The master list with test identifiers.
pub open spec fn master_list_layout() -> CandidateView {
    CandidateView {
        sheet_name: "Master List"@,
        col_indexers: prefix_cols(MASTER_LIST_HEADERS.deep_view()),
        sheet_for_val: "Master List"@,
        validator: cell_starts_with(0, 1, "Test Id"@),
    }
}

/// The older master list, without test identifiers.
pub open spec fn old_master_list_layout() -> CandidateView {
    CandidateView {
        sheet_name: "Master List"@,
        col_indexers: na_cols(1) + prefix_cols(OLD_MASTER_LIST_HEADERS.deep_view()),
        sheet_for_val: "Master List"@,
        validator: cell_starts_with(0, 2, "Customer Name"@),
    }
}

/// The plan: sample facts, then the results.
pub open spec fn botanacor_pesticides_plan() -> Seq<ExtractorView> {
    seq![
        ExtractorView::Multi(
            SelectorView {
                col_names: MASTER_LIST_NAMES.deep_view(),
                potential_sheets: seq![master_list_layout(), old_master_list_layout()],
            },
        ),
        ExtractorView::Single(
            SheetView {
                sheet_name: "Sample Data"@,
                col_names: RESULT_NAMES.deep_view(),
                col_indexers: prefix_cols(RESULT_HEADERS.deep_view()),
            },
        ),
    ]
}

/// The plan is well formed: every layout has one indexer for each name.
pub proof fn lemma_botanacor_pesticides_plan_wf()
    ensures
        plan_wf(botanacor_pesticides_plan()),
{
    let plan = botanacor_pesticides_plan();
    assert forall|i: int| 0 <= i < plan.len() implies (#[trigger] plan[i]).wf() by {
        if i == 0 {
            let s = plan[0]->Multi_0;
            assert forall|j: int| 0 <= j < s.potential_sheets.len() implies (
            #[trigger] s.potential_sheets[j]).col_indexers.len() == s.col_names.len() by {
                if j == 0 {
                } else {
                }
            }
        } else {
        }
    }
}

/// The configuration for the pesticide results of Botanacor workbooks: one
/// row for each sample of the master list.
pub fn get_extractors() -> (manager: ExtractionManager)
    ensures
        manager@ == ManagerView::RowGrain(botanacor_pesticides_plan()),
        manager@.wf(),
{
    let early_2019_validator = check_starts_with(0, 2, "Customer Name");
    let with_test_id_validator = check_starts_with(0, 1, "Test Id");

    let mut old_columns: Vec<ColIndexer> = Vec::new();
    push_na(&mut old_columns, 1);
    let mut found = prefix_columns(OLD_MASTER_LIST_HEADERS.as_slice());
    let ghost found_view = found.deep_view();
    let ghost na_view = old_columns.deep_view();
    old_columns.append(&mut found);
    assert(old_columns.deep_view() =~= na_view + found_view);
    assert(na_view =~= na_cols(1));

    let mut layouts: Vec<PotentialSheet> = Vec::new();
    layouts.push(
        layout(
            "Master List",
            prefix_columns(MASTER_LIST_HEADERS.as_slice()),
            "Master List",
            with_test_id_validator,
        ),
    );
    layouts.push(layout("Master List", old_columns, "Master List", early_2019_validator));
    assert(layouts.deep_view() =~= seq![master_list_layout(), old_master_list_layout()]);
    let master_list = multi(names(MASTER_LIST_NAMES.as_slice()), layouts);

    let results = single(
        "Sample Data",
        names(RESULT_NAMES.as_slice()),
        prefix_columns(RESULT_HEADERS.as_slice()),
    );

    let mut plan: Vec<SheetExtractor> = Vec::new();
    plan.push(master_list);
    plan.push(results);
    assert(plan.deep_view() =~= botanacor_pesticides_plan());
    proof {
        lemma_botanacor_pesticides_plan_wf();
    }
    ExtractionManager::RowGrain(plan)
}

} // verus!
