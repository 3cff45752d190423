use sheet_extract::cell::{na_cell, CellError, CellValue};
use sheet_extract::excel_tools::column_finders::{find_header_column, header_match, MatchMethod};
use sheet_extract::excel_tools::{extract_column, extract_sheet_columns, ColIndexer, Sheet};
use sheet_extract::sheet::Worksheet;

fn text(s: &str) -> CellValue {
    CellValue::Text(s.to_string())
}

fn sheet(rows: u32, cols: u32, cells: Vec<(u32, u32, CellValue)>) -> Worksheet {
    let mut ws = Worksheet::new((0, 0), (rows - 1, cols - 1)).unwrap();
    for (row, col, value) in cells {
        assert!(ws.set(row, col, value));
    }
    ws
}

fn sample() -> Worksheet {
    sheet(
        4,
        4,
        vec![
            (0, 0, text("Test ID")),
            (0, 1, text("Sample Name")),
            (0, 2, text("Sample Type")),
            (0, 3, CellValue::Integer(7)),
            (1, 0, text("T1")),
            (1, 1, text("first")),
            (1, 2, text("flower")),
            (2, 0, text("T2")),
            (2, 1, text("second")),
            (2, 2, CellValue::Number("1.5".to_string())),
            (3, 0, text("T3")),
            (3, 1, CellValue::Boolean(true)),
            (3, 2, CellValue::ErrorCode(CellError::Ref)),
        ],
    )
}

#[test]
fn default_value_column_is_row_count_copies_of_the_value() {
    let ws = sample();
    let indexer = ColIndexer::DefaultValue(text("none"));
    assert_eq!(extract_column(&ws, &indexer, 5), vec![text("none"); 5]);
    assert_eq!(extract_column(&Worksheet::empty(), &indexer, 5), vec![text("none"); 5]);
    assert_eq!(extract_column(&ws, &indexer, 0), Vec::<CellValue>::new());
    let number = ColIndexer::DefaultValue(CellValue::Integer(3));
    assert_eq!(extract_column(&ws, &number, 200), vec![CellValue::Integer(3); 200]);
}

#[test]
fn index_column_reads_from_row_one_down() {
    let ws = sample();
    assert_eq!(
        extract_column(&ws, &ColIndexer::Index(1), 3),
        vec![text("first"), text("second"), CellValue::Boolean(true)]
    );
    assert_eq!(extract_column(&ws, &ColIndexer::Index(0), 2), vec![text("T1"), text("T2")]);
}

#[test]
fn index_column_reads_empty_cells_past_the_worksheet() {
    let ws = sample();
    assert_eq!(
        extract_column(&ws, &ColIndexer::Index(0), 5),
        vec![text("T1"), text("T2"), text("T3"), CellValue::Empty, CellValue::Empty]
    );
    assert_eq!(extract_column(&ws, &ColIndexer::Index(9), 3), vec![CellValue::Empty; 3]);
    assert_eq!(extract_column(&ws, &ColIndexer::Index(u32::MAX), 2), vec![CellValue::Empty; 2]);
    assert_eq!(extract_column(&ws, &ColIndexer::Index(0), 0), Vec::<CellValue>::new());
}

#[test]
fn cell_value_column_repeats_the_one_cell() {
    let ws = sample();
    let indexer = ColIndexer::CellValue { row: 2, col: 2 };
    assert_eq!(extract_column(&ws, &indexer, 4), vec![CellValue::Number("1.5".to_string()); 4]);
    let header = ColIndexer::CellValue { row: 0, col: 1 };
    assert_eq!(extract_column(&ws, &header, 2), vec![text("Sample Name"); 2]);
    let outside = ColIndexer::CellValue { row: 40, col: 40 };
    assert_eq!(extract_column(&ws, &outside, 3), vec![CellValue::Empty; 3]);
}

#[test]
fn header_search_without_a_match_gives_row_count_times_na() {
    let ws = sample();
    let column = header_match(&ws, MatchMethod::StartsWith("Manifest"), 0, 6, None);
    assert_eq!(column, vec![text("NA"); 6]);
    let exact = header_match(&ws, MatchMethod::Exact("Sample"), 0, 3, None);
    assert_eq!(exact, vec![text("NA"); 3]);
    let by_indexer =
        extract_column(&ws, &ColIndexer::HeaderSearch(MatchMethod::Exact("sample name")), 200);
    assert_eq!(by_indexer, vec![text("NA"); 200]);
    assert_eq!(
        header_match(&Worksheet::empty(), MatchMethod::StartsWith(""), 0, 2, None),
        vec![text("NA"); 2]
    );
    assert_eq!(
        header_match(&ws, MatchMethod::Exact("nothing"), 0, 0, None),
        Vec::<CellValue>::new()
    );
}

#[test]
fn header_search_takes_the_leftmost_of_two_matching_headers() {
    let ws = sample();
    let column = header_match(&ws, MatchMethod::StartsWith("Sample"), 0, 2, None);
    assert_eq!(column, vec![text("first"), text("second"), CellValue::Boolean(true)]);
    assert_eq!(find_header_column(&ws, MatchMethod::StartsWith("Sample"), 0), Some(1));
    assert_eq!(find_header_column(&ws, MatchMethod::StartsWith("Sample T"), 0), Some(2));
    assert_eq!(find_header_column(&ws, MatchMethod::StartsWith(""), 0), Some(0));
}

#[test]
fn header_search_reads_one_row_more_than_it_is_asked_for() {
    let ws = sample();
    let column = header_match(&ws, MatchMethod::Exact("Test ID"), 0, 3, None);
    assert_eq!(column, vec![text("T1"), text("T2"), text("T3"), CellValue::Empty]);
    assert_eq!(header_match(&ws, MatchMethod::Exact("Test ID"), 0, 0, None), vec![text("T1")]);
    let by_indexer =
        extract_column(&ws, &ColIndexer::HeaderSearch(MatchMethod::Exact("Test ID")), 1);
    assert_eq!(by_indexer, vec![text("T1"), text("T2")]);
}

#[test]
fn header_search_starts_at_the_offset_given() {
    let ws = sample();
    assert_eq!(
        header_match(&ws, MatchMethod::Exact("Test ID"), 0, 1, Some(2)),
        vec![text("T2"), text("T3")]
    );
    assert_eq!(
        header_match(&ws, MatchMethod::Exact("Test ID"), 0, 1, Some(0)),
        vec![text("Test ID"), text("T1")]
    );
    assert_eq!(
        header_match(&ws, MatchMethod::Exact("Test ID"), 0, 1, Some(1)),
        header_match(&ws, MatchMethod::Exact("Test ID"), 0, 1, None)
    );
    assert_eq!(
        header_match(&ws, MatchMethod::Exact("Test ID"), 0, 2, Some(u32::MAX)),
        vec![CellValue::Empty; 3]
    );
}

#[test]
fn header_search_scans_the_header_row_given() {
    let ws = sample();
    assert_eq!(find_header_column(&ws, MatchMethod::Exact("second"), 2), Some(1));
    assert_eq!(find_header_column(&ws, MatchMethod::Exact("second"), 0), None);
    assert_eq!(find_header_column(&ws, MatchMethod::Exact("second"), 9), None);
}

#[test]
fn header_search_passes_over_headers_that_are_no_text() {
    let ws = sheet(
        2,
        3,
        vec![
            (0, 0, CellValue::Integer(1)),
            (0, 1, CellValue::Number("1".to_string())),
            (0, 2, text("1")),
            (1, 2, text("hit")),
        ],
    );
    assert_eq!(find_header_column(&ws, MatchMethod::StartsWith("1"), 0), Some(2));
    assert_eq!(find_header_column(&ws, MatchMethod::StartsWith(""), 0), Some(2));
}

#[test]
fn match_methods_hold_texts_against_each_other() {
    assert!(MatchMethod::StartsWith("Test").accepts("Test Id"));
    assert!(MatchMethod::StartsWith("Test Id").accepts("Test Id"));
    assert!(MatchMethod::StartsWith("").accepts("anything"));
    assert!(MatchMethod::StartsWith("").accepts(""));
    assert!(!MatchMethod::StartsWith("Test Id ").accepts("Test Id"));
    assert!(!MatchMethod::StartsWith("test").accepts("Test Id"));
    assert!(!MatchMethod::StartsWith("est").accepts("Test Id"));
    assert!(MatchMethod::Exact("Test Id").accepts("Test Id"));
    assert!(!MatchMethod::Exact("Test").accepts("Test Id"));
    assert!(!MatchMethod::Exact("Test Id").accepts("Test"));
    assert!(!MatchMethod::Exact("Test Id").accepts("test id"));
    assert!(MatchMethod::StartsWith("Prüf").accepts("Prüfung"));
    assert!(!MatchMethod::StartsWith("Pruf").accepts("Prüfung"));
    assert!(MatchMethod::Exact("Größe").accepts("Größe"));
    assert!(!MatchMethod::Exact("Große").accepts("Größe"));
    assert!(MatchMethod::Exact("x").accepts_cell(&text("x")));
    assert!(!MatchMethod::Exact("1").accepts_cell(&CellValue::Integer(1)));
    assert!(!MatchMethod::StartsWith("").accepts_cell(&CellValue::Empty));
}

#[test]
fn sheet_columns_come_one_for_each_indexer_in_their_order() {
    let ws = sample();
    let plan = Sheet {
        sheet_name: "Master List",
        col_names: vec!["Type", "Id", "Missing", "Fixed", "Cell"],
        col_indexers: vec![
            ColIndexer::Index(2),
            ColIndexer::HeaderSearch(MatchMethod::StartsWith("Test")),
            ColIndexer::HeaderSearch(MatchMethod::Exact("Manifest")),
            ColIndexer::DefaultValue(na_cell()),
            ColIndexer::CellValue { row: 0, col: 3 },
        ],
    };
    let cols = extract_sheet_columns(&ws, &plan, 2);
    assert_eq!(cols.len(), 5);
    assert_eq!(cols[0], vec![text("flower"), CellValue::Number("1.5".to_string())]);
    assert_eq!(cols[1], vec![text("T1"), text("T2"), text("T3")]);
    assert_eq!(cols[2], vec![text("NA"), text("NA")]);
    assert_eq!(cols[3], vec![text("NA"), text("NA")]);
    assert_eq!(cols[4], vec![CellValue::Integer(7), CellValue::Integer(7)]);
    for col in &cols {
        assert!(col.len() >= 2);
    }
}

#[test]
fn sheet_without_indexers_gives_no_columns() {
    let plan = Sheet { sheet_name: "Any", col_names: vec![], col_indexers: vec![] };
    assert_eq!(extract_sheet_columns(&sample(), &plan, 4), Vec::<Vec<CellValue>>::new());
}

#[test]
fn na_cell_is_the_text_na() {
    assert_eq!(na_cell(), text("NA"));
}
