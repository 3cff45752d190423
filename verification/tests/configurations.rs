use sheet_extract::cell::CellValue;
use sheet_extract::excel_tools::column_finders::MatchMethod;
use sheet_extract::excel_tools::get_botanacor_micro_extractors;
use sheet_extract::extractors::{controls, get_extractors, results, ExtractionManager};
use sheet_extract::excel_tools::{CellCheck, ColIndexer, SheetExtractor};

fn na() -> ColIndexer {
    ColIndexer::DefaultValue(CellValue::Text("NA".to_string()))
}

fn cell(row: u32, col: u32) -> ColIndexer {
    ColIndexer::CellValue { row, col }
}

fn well_formed(plan: &[SheetExtractor]) -> bool {
    plan.iter().all(|e| match e {
        SheetExtractor::Single(s) => s.col_names.len() == s.col_indexers.len(),
        SheetExtractor::Multi(s) => {
            s.potential_sheets.iter().all(|p| p.col_indexers.len() == s.col_names.len())
        }
    })
}

#[test]
fn every_configuration_is_found_by_its_name() {
    assert_eq!(
        get_extractors("results_botanacor_micro"),
        Ok(results::botanacor_micro::get_extractors())
    );
    assert_eq!(
        get_extractors("results_botanacor_pesticides"),
        Ok(results::botanacor_pesticides::get_extractors())
    );
    assert_eq!(
        get_extractors("results_agricor_micro"),
        Ok(results::agricor_micro::get_extractors())
    );
    assert_eq!(
        get_extractors("results_agricor_potency"),
        Ok(results::agricor_potency::get_extractors())
    );
    assert_eq!(
        get_extractors("controls_agricor_potency"),
        Ok(controls::agricor_potency::get_extractors())
    );
}

#[test]
fn unknown_configuration_is_refused_by_name() {
    assert_eq!(
        get_extractors("results_botanacor_metals"),
        Err("Could not find data extraction configuration for results_botanacor_metals"
            .to_string())
    );
    assert_eq!(
        get_extractors(""),
        Err("Could not find data extraction configuration for ".to_string())
    );
    assert!(get_extractors("Results_Botanacor_Micro").is_err());
    assert!(get_extractors("results_botanacor_micro ").is_err());
}

#[test]
fn every_configuration_has_an_indexer_for_each_name() {
    for name in [
        "results_botanacor_micro",
        "results_botanacor_pesticides",
        "results_agricor_micro",
        "results_agricor_potency",
        "controls_agricor_potency",
    ] {
        let manager = get_extractors(name).unwrap();
        assert!(well_formed(manager.plan()));
    }
}

#[test]
fn controls_are_file_grain_and_results_row_grain() {
    assert!(matches!(
        get_extractors("controls_agricor_potency").unwrap(),
        ExtractionManager::FileGrain(_)
    ));
    for name in [
        "results_botanacor_micro",
        "results_botanacor_pesticides",
        "results_agricor_micro",
        "results_agricor_potency",
    ] {
        assert!(matches!(get_extractors(name).unwrap(), ExtractionManager::RowGrain(_)));
    }
}

#[test]
fn botanacor_micro_plan() {
    let plan = get_botanacor_micro_extractors();
    assert_eq!(
        results::botanacor_micro::get_extractors(),
        ExtractionManager::RowGrain(get_botanacor_micro_extractors())
    );
    assert_eq!(plan.len(), 5);
    match &plan[0] {
        SheetExtractor::Multi(s) => {
            assert_eq!(s.col_names, vec!["Test Id"]);
            assert_eq!(s.potential_sheets.len(), 3);
            let first = &s.potential_sheets[0];
            assert_eq!(first.sheet_name, "AgrBotMap");
            assert_eq!(first.sheet_for_val, "AgrBotMap");
            assert_eq!(first.col_indexers, vec![ColIndexer::Index(3)]);
            assert_eq!(
                first.validator,
                CellCheck { row: 0, col: 3, expected: MatchMethod::Exact("AgricorSampleName") }
            );
            let second = &s.potential_sheets[1];
            assert_eq!(second.sheet_name, "Master List");
            assert_eq!(second.sheet_for_val, "Master List");
            assert_eq!(second.col_indexers, vec![ColIndexer::Index(1)]);
            assert_eq!(
                second.validator,
                CellCheck { row: 0, col: 1, expected: MatchMethod::Exact("Test Id") }
            );
            let third = &s.potential_sheets[2];
            assert_eq!(third.sheet_name, "Master List");
            assert_eq!(third.sheet_for_val, "Master List");
            assert_eq!(third.col_indexers, vec![na()]);
            assert_eq!(
                third.validator,
                CellCheck { row: 0, col: 1, expected: MatchMethod::StartsWith("Company Name") }
            );
        }
        SheetExtractor::Single(_) => panic!("the test identifier has several layouts"),
    }
    match &plan[1] {
        SheetExtractor::Multi(s) => {
            assert_eq!(
                s.col_names,
                vec![
                    "Company",
                    "Sample Name",
                    "Sample Type",
                    "PBST wt (g)",
                    "PBST vol (mL)",
                    "Enrichment wt (g)",
                    "Enrichment vol (mL)",
                ]
            );
            assert_eq!(s.potential_sheets.len(), 2);
            let indexes =
                |cols: [u32; 7]| cols.iter().map(|c| ColIndexer::Index(*c)).collect::<Vec<_>>();
            assert_eq!(s.potential_sheets[0].col_indexers, indexes([6, 8, 10, 11, 13, 12, 14]));
            assert_eq!(
                s.potential_sheets[0].validator,
                CellCheck { row: 0, col: 1, expected: MatchMethod::Exact("Test Id") }
            );
            assert_eq!(s.potential_sheets[1].col_indexers, indexes([2, 3, 5, 6, 8, 7, 9]));
            assert_eq!(
                s.potential_sheets[1].validator,
                CellCheck { row: 0, col: 1, expected: MatchMethod::StartsWith("Company Name") }
            );
            for p in &s.potential_sheets {
                assert_eq!(p.sheet_name, "Master List");
                assert_eq!(p.sheet_for_val, "Master List");
            }
        }
        SheetExtractor::Single(_) => panic!("the sample facts have several layouts"),
    }
    let counts = [
        ("TYM Values", ["TYM CFU Count", "TYM Dil. Plate", "TYM Reported CFU/g"]),
        ("Total Aerobic", ["TA CFU Count", "TA Dil. Plate", "TA Reported CFU/g"]),
        (
            "Total Coliforms",
            ["Coliforms CFU Count", "Coliforms Dil. Plate", "Coliforms Reported CFU/g"],
        ),
    ];
    for (i, (sheet_name, names)) in counts.iter().enumerate() {
        match &plan[2 + i] {
            SheetExtractor::Single(s) => {
                assert_eq!(s.sheet_name, *sheet_name);
                assert_eq!(s.col_names, names.to_vec());
                assert_eq!(
                    s.col_indexers,
                    vec![ColIndexer::Index(4), ColIndexer::Index(5), ColIndexer::Index(6)]
                );
            }
            SheetExtractor::Multi(_) => panic!("the counts have one layout"),
        }
    }
}

#[test]
fn botanacor_micro_header() {
    let header = get_extractors("results_botanacor_micro").unwrap().header();
    assert_eq!(header.len(), 17);
    assert_eq!(header[0], "Test Id");
    assert_eq!(header[1], "Company");
    assert_eq!(header[8], "TYM CFU Count");
    assert_eq!(header[16], "Coliforms Reported CFU/g");
}

#[test]
fn agricor_potency_results_plan() {
    let manager = results::agricor_potency::get_extractors();
    let plan = manager.plan();
    assert_eq!(plan.len(), 4);
    let prefix = |p: &'static str| ColIndexer::HeaderSearch(MatchMethod::StartsWith(p));
    let exact = |p: &'static str| ColIndexer::HeaderSearch(MatchMethod::Exact(p));
    match &plan[0] {
        SheetExtractor::Single(s) => {
            assert_eq!(s.sheet_name, "Master List");
            assert_eq!(
                s.col_names,
                vec![
                    "Test ID",
                    "Company",
                    "Company License",
                    "Manifest",
                    "Sample Name",
                    "Sample Type",
                ]
            );
            assert_eq!(
                s.col_indexers,
                vec![
                    prefix("Test ID"),
                    prefix("Customer License Name"),
                    prefix("Customer License Number"),
                    prefix("Manifest"),
                    prefix("Sample Name"),
                    prefix("Type"),
                ]
            );
        }
        SheetExtractor::Multi(_) => panic!("the master list has one layout"),
    }
    match &plan[1] {
        SheetExtractor::Single(s) => {
            assert_eq!(s.sheet_name, "Sample Data");
            assert_eq!(s.col_names, vec!["CBDa", "CBDVa", "CBDV"]);
            assert_eq!(s.col_indexers, vec![exact("CBDa"), exact("CBDVa"), exact("CBDV")]);
        }
        SheetExtractor::Multi(_) => panic!("the results have one layout"),
    }
    match &plan[2] {
        SheetExtractor::Single(s) => {
            assert_eq!(s.sheet_name, "LOQ Summary");
            assert_eq!(s.col_names, vec!["CBDa LLOQ", "CBDVa LLOQ", "CBDV LLOQ"]);
            assert_eq!(s.col_indexers, vec![exact("CBDa"), exact("CBDVa"), exact("CBDV")]);
        }
        SheetExtractor::Multi(_) => panic!("the limits have one layout"),
    }
    match &plan[3] {
        SheetExtractor::Single(s) => {
            assert_eq!(s.sheet_name, "Sample Prep Form");
            assert_eq!(s.col_names, vec!["HPLC", "Start Date"]);
            assert_eq!(s.col_indexers, vec![cell(7, 1), cell(0, 4)]);
        }
        SheetExtractor::Multi(_) => panic!("the preparation form has one layout"),
    }
}

#[test]
fn agricor_micro_plan() {
    let manager = results::agricor_micro::get_extractors();
    let plan = manager.plan();
    assert_eq!(plan.len(), 2);
    let prefix = |p: &'static str| ColIndexer::HeaderSearch(MatchMethod::StartsWith(p));
    match &plan[0] {
        SheetExtractor::Single(s) => {
            assert_eq!(s.sheet_name, "Master List");
            assert_eq!(
                s.col_names,
                vec!["Test ID", "Company", "Company License", "Sample Name", "Sample Type"]
            );
            assert_eq!(
                s.col_indexers,
                vec![
                    prefix("Test ID"),
                    prefix("LICENSE NAME"),
                    prefix("CUSTOMER LICENSE"),
                    prefix("SAMPLE NAME"),
                    prefix("SAMPLE TYPE"),
                ]
            );
        }
        SheetExtractor::Multi(_) => panic!("the master list has one layout"),
    }
    match &plan[1] {
        SheetExtractor::Single(s) => {
            assert_eq!(s.sheet_name, "TYM Values");
            assert_eq!(
                s.col_names,
                vec![
                    "Sample Weight (g)",
                    "Diluent Vol (mL)",
                    "Colony Count",
                    "Dilution Plate",
                    "Reported CFU/g",
                ]
            );
            assert_eq!(
                s.col_indexers,
                vec![
                    prefix("TYM Sample Weight"),
                    prefix("TYM Diluent Vol"),
                    prefix("Colony Count"),
                    prefix("Dilution Plate"),
                    prefix("Metrc Reported CFU"),
                ]
            );
        }
        SheetExtractor::Multi(_) => panic!("the counts have one layout"),
    }
}

#[test]
fn botanacor_pesticides_plan() {
    let manager = results::botanacor_pesticides::get_extractors();
    let plan = manager.plan();
    assert_eq!(plan.len(), 2);
    let prefix = |p: &'static str| ColIndexer::HeaderSearch(MatchMethod::StartsWith(p));
    match &plan[0] {
        SheetExtractor::Multi(s) => {
            assert_eq!(s.col_names, vec!["Test Id", "Customer Name", "Sample Name", "Report Type"]);
            assert_eq!(s.potential_sheets.len(), 2);
            let newer = &s.potential_sheets[0];
            assert_eq!(newer.sheet_name, "Master List");
            assert_eq!(newer.sheet_for_val, "Master List");
            assert_eq!(
                newer.validator,
                CellCheck { row: 0, col: 1, expected: MatchMethod::StartsWith("Test Id") }
            );
            assert_eq!(
                newer.col_indexers,
                vec![
                    prefix("Test Id"),
                    prefix("Testing Company Name"),
                    prefix("Sample Info"),
                    prefix("Report Type"),
                ]
            );
            let older = &s.potential_sheets[1];
            assert_eq!(older.sheet_name, "Master List");
            assert_eq!(older.sheet_for_val, "Master List");
            assert_eq!(
                older.validator,
                CellCheck { row: 0, col: 2, expected: MatchMethod::StartsWith("Customer Name") }
            );
            assert_eq!(
                older.col_indexers,
                vec![na(), prefix("Customer Name"), prefix("Sample Info"), prefix("Report Type")]
            );
        }
        SheetExtractor::Single(_) => panic!("the master list has several layouts"),
    }
    match &plan[1] {
        SheetExtractor::Single(s) => {
            assert_eq!(s.sheet_name, "Sample Data");
            assert_eq!(s.col_names.len(), 51);
            assert_eq!(s.col_indexers.len(), 51);
            assert_eq!(s.col_names[0], "Unit");
            assert_eq!(s.col_indexers[0], prefix("Units"));
            for i in 1..51 {
                assert_eq!(s.col_indexers[i], prefix(s.col_names[i]));
            }
            assert_eq!(s.col_names[1], "Acephate");
            assert_eq!(s.col_names[17], "Spiroxamine 1");
            assert_eq!(s.col_names[36], "MGK 264 1");
            assert_eq!(s.col_names[37], "Clofentezine");
            assert_eq!(s.col_names[38], "MGK 264 2");
            assert_eq!(s.col_names[50], "Etofenprox");
        }
        SheetExtractor::Multi(_) => panic!("the results have one layout"),
    }
}

#[test]
fn agricor_potency_controls_plan() {
    let manager = controls::agricor_potency::get_extractors();
    let plan = manager.plan();
    assert_eq!(plan.len(), 2);
    match &plan[0] {
        SheetExtractor::Single(s) => {
            assert_eq!(s.sheet_name, "System Suitability");
            assert_eq!(
                s.col_names,
                vec![
                    "Date",
                    "IS Response",
                    "Check Std. Low - CBD",
                    "Check Std. Low - d9THC",
                    "Check Std. High - CBD",
                    "Check Std. High - d9THC",
                ]
            );
            assert_eq!(
                s.col_indexers,
                vec![cell(1, 3), cell(6, 1), cell(19, 1), cell(20, 1), cell(24, 1), cell(25, 1)]
            );
        }
        SheetExtractor::Multi(_) => panic!("the shared values have one layout"),
    }
    match &plan[1] {
        SheetExtractor::Multi(s) => {
            assert_eq!(s.col_names.len(), 56);
            assert_eq!(s.col_names[0], "Placebo - CBD");
            assert_eq!(s.col_names[1], "Placebo - d9THC");
            assert_eq!(s.col_names[2], "Bracketing Std. 1 - CBD");
            assert_eq!(s.col_names[11], "Bracketing Std. 10 - CBD");
            assert_eq!(s.col_names[12], "Bracketing Std. 1 - d9THC");
            assert_eq!(s.col_names[22], "Spiked Surrogate 1 - CBD");
            assert_eq!(s.col_names[33], "Spiked Surrogate 12 - CBD");
            assert_eq!(s.col_names[45], "Spiked Surrogate 12 - d9THC");
            assert_eq!(s.col_names[46], "Primary Standard 1 - CBD");
            assert_eq!(s.col_names[55], "Primary Standard 5 - d9THC");
            assert_eq!(s.potential_sheets.len(), 2);

            let late = &s.potential_sheets[0];
            assert_eq!(late.sheet_name, "System Suitability");
            assert_eq!(late.sheet_for_val, "System Suitability");
            assert_eq!(
                late.validator,
                CellCheck { row: 29, col: 0, expected: MatchMethod::Exact("Bracketing Standard 1") }
            );
            let mut expected = vec![na(), na()];
            expected.extend((29..=38).map(|r| cell(r, 1)));
            expected.extend((29..=38).map(|r| cell(r, 2)));
            expected.extend((42..=53).map(|r| cell(r, 1)));
            expected.extend((42..=53).map(|r| cell(r, 2)));
            expected.extend((75..=79).map(|r| cell(r, 1)));
            expected.extend((75..=79).map(|r| cell(r, 2)));
            assert_eq!(late.col_indexers, expected);

            let early = &s.potential_sheets[1];
            assert_eq!(early.sheet_name, "System Suitability");
            assert_eq!(early.sheet_for_val, "System Suitability");
            assert_eq!(
                early.validator,
                CellCheck { row: 34, col: 0, expected: MatchMethod::Exact("Bracketing Standard 1") }
            );
            let mut expected = vec![cell(29, 1), cell(30, 1)];
            expected.extend((34..=43).map(|r| cell(r, 1)));
            expected.extend((34..=43).map(|r| cell(r, 2)));
            expected.extend((0..24).map(|_| na()));
            expected.extend((63..=67).map(|r| cell(r, 1)));
            expected.extend((63..=67).map(|r| cell(r, 2)));
            assert_eq!(early.col_indexers, expected);
        }
        SheetExtractor::Single(_) => panic!("the other values have several layouts"),
    }
}

#[test]
fn controls_header_has_a_name_for_each_value() {
    let header = get_extractors("controls_agricor_potency").unwrap().header();
    assert_eq!(header.len(), 62);
    assert_eq!(header[0], "Date");
    assert_eq!(header[6], "Placebo - CBD");
    assert_eq!(header[61], "Primary Standard 5 - d9THC");
}
