use sheet_extract::cell::CellValue;
use sheet_extract::excel_tools::column_finders::MatchMethod;
use sheet_extract::excel_tools::{
    CellCheck, ColIndexer, PotentialSheet, Sheet, SheetExtractor, SheetSelector,
};
use sheet_extract::extractors::layout::{
    cell_columns, check_is, check_starts_with, exact_columns, index_columns, layout, multi, names,
    prefix_columns, push_cell_run, push_na, single,
};

fn na() -> ColIndexer {
    ColIndexer::DefaultValue(CellValue::Text("NA".to_string()))
}

#[test]
fn names_come_from_a_table_in_its_order() {
    assert_eq!(names(&["b", "a", "b"]), vec!["b", "a", "b"]);
    assert_eq!(names(&[]), Vec::<&str>::new());
}

#[test]
fn columns_come_from_a_table_in_its_order() {
    assert_eq!(
        index_columns(&[6, 8, 6]),
        vec![ColIndexer::Index(6), ColIndexer::Index(8), ColIndexer::Index(6)]
    );
    assert_eq!(index_columns(&[]), vec![]);
    assert_eq!(
        prefix_columns(&["Test", "Sample"]),
        vec![
            ColIndexer::HeaderSearch(MatchMethod::StartsWith("Test")),
            ColIndexer::HeaderSearch(MatchMethod::StartsWith("Sample")),
        ]
    );
    assert_eq!(
        exact_columns(&["CBDa"]),
        vec![ColIndexer::HeaderSearch(MatchMethod::Exact("CBDa"))]
    );
    assert_eq!(
        cell_columns(&[(7, 1), (0, 4)]),
        vec![ColIndexer::CellValue { row: 7, col: 1 }, ColIndexer::CellValue { row: 0, col: 4 }]
    );
}

#[test]
fn cell_run_goes_down_one_column() {
    let mut cols = vec![ColIndexer::Index(0)];
    push_cell_run(&mut cols, 29, 3, 2);
    push_cell_run(&mut cols, 5, 0, 1);
    push_cell_run(&mut cols, u32::MAX - 1, 1, 0);
    assert_eq!(
        cols,
        vec![
            ColIndexer::Index(0),
            ColIndexer::CellValue { row: 29, col: 2 },
            ColIndexer::CellValue { row: 30, col: 2 },
            ColIndexer::CellValue { row: 31, col: 2 },
            ColIndexer::CellValue { row: u32::MAX - 1, col: 0 },
        ]
    );
}

#[test]
fn na_columns_are_appended() {
    let mut cols = vec![ColIndexer::Index(0)];
    push_na(&mut cols, 2);
    push_na(&mut cols, 0);
    assert_eq!(cols, vec![ColIndexer::Index(0), na(), na()]);
}

#[test]
fn sheets_are_put_together_from_their_parts() {
    assert_eq!(
        single("Data", vec!["a"], vec![ColIndexer::Index(1)]),
        SheetExtractor::Single(Sheet {
            sheet_name: "Data",
            col_names: vec!["a"],
            col_indexers: vec![ColIndexer::Index(1)],
        })
    );
    let made = layout("Read", vec![ColIndexer::Index(2)], "Probe", check_is(3, 4, "x"));
    assert_eq!(
        made,
        PotentialSheet {
            sheet_name: "Read",
            col_indexers: vec![ColIndexer::Index(2)],
            sheet_for_val: "Probe",
            validator: CellCheck { row: 3, col: 4, expected: MatchMethod::Exact("x") },
        }
    );
    assert_eq!(
        multi(vec!["a"], vec![made]),
        SheetExtractor::Multi(SheetSelector {
            col_names: vec!["a"],
            potential_sheets: vec![PotentialSheet {
                sheet_name: "Read",
                col_indexers: vec![ColIndexer::Index(2)],
                sheet_for_val: "Probe",
                validator: CellCheck { row: 3, col: 4, expected: MatchMethod::Exact("x") },
            }],
        })
    );
    assert_eq!(
        check_starts_with(0, 1, "Company"),
        CellCheck { row: 0, col: 1, expected: MatchMethod::StartsWith("Company") }
    );
}
