use sheet_extract::discovery::{
    filter_by_filename, get_regex, match_child_paths, search_levels, Entry, LevelPattern,
    TestTypeRegex, DAY_DIR_REGEX,
};

fn dir(name: &str) -> Entry {
    Entry { name: name.to_string(), is_dir: true }
}

fn file(name: &str) -> Entry {
    Entry { name: name.to_string(), is_dir: false }
}

fn level(pattern: &str, case_insensitive: bool, dirs_only: bool) -> LevelPattern {
    LevelPattern { pattern: pattern.to_string(), case_insensitive, dirs_only }
}

#[test]
fn every_test_type_has_its_expressions() {
    let expected = [
        (
            "botanacor_potency",
            r"^botanacor potency ",
            r"^cert generator botanacor potency .*\.xlsm$",
        ),
        (
            "botanacor_pesticides",
            r"^botanacor pesticides ",
            r"^cert generator botanacor pesticides .*\.xlsm$",
        ),
        ("botanacor_metals", r"^botanacor metals ", r"^cert generator botanacor metals .*\.xlsm$"),
        (
            "botanacor_micro",
            r"^validated botanacor micro ",
            r"^cert generator botanacor micro .*\.xlsm$",
        ),
        ("agricor_micro", r"^agricor micro ", r"^cert generator agricor micro .*\.xlsm$"),
        ("agricor_potency", r"^agricor potency ", r"^cert generator agricor potency .*\.xlsm$"),
    ];
    for (name, folder, file) in expected {
        assert_eq!(get_regex(name), Some(TestTypeRegex { folder, file }));
    }
}

#[test]
fn unknown_test_type_has_no_expressions() {
    assert_eq!(get_regex("agricor_metals"), None);
    assert_eq!(get_regex(""), None);
    assert_eq!(get_regex("Agricor_Micro"), None);
    assert_eq!(get_regex("agricor_micro "), None);
}

#[test]
fn test_type_regex_keeps_what_it_is_given() {
    let made = TestTypeRegex::new("^folder ", "^file$");
    assert_eq!(made.folder, "^folder ");
    assert_eq!(made.file, "^file$");
}

#[test]
fn search_goes_through_five_levels() {
    let regex = get_regex("agricor_micro").unwrap();
    let levels = search_levels(&regex, "2019|2020".to_string(), "1|2|3".to_string());
    assert_eq!(
        levels,
        vec![
            level("2019|2020", false, true),
            level("1|2|3", false, true),
            level(r"\d{2}-[[:alpha:]]{3}-\d{4}", true, true),
            level("^agricor micro ", true, true),
            level(r"^cert generator agricor micro .*\.xlsm$", true, false),
        ]
    );
}

#[test]
fn entry_is_kept_where_its_name_matched() {
    assert_eq!(filter_by_filename(dir("a"), true, true), Some(dir("a")));
    assert_eq!(filter_by_filename(dir("a"), true, false), Some(dir("a")));
    assert_eq!(filter_by_filename(file("a"), true, false), Some(file("a")));
    assert_eq!(filter_by_filename(file("a"), true, true), None);
    assert_eq!(filter_by_filename(dir("a"), false, true), None);
    assert_eq!(filter_by_filename(dir("a"), false, false), None);
    assert_eq!(filter_by_filename(file("a"), false, false), None);
    assert_eq!(filter_by_filename(file("a"), false, true), None);
}

#[test]
fn children_are_kept_by_the_expression_in_their_order() {
    let children = vec![dir("2021"), dir("2018"), dir("2019"), file("2020"), dir("x2020x")];
    let kept = match_child_paths(&children, &level("2019|2020|2021", false, true)).unwrap();
    assert_eq!(kept, vec![dir("2021"), dir("2019"), dir("x2020x")]);
    let with_files = match_child_paths(&children, &level("2019|2020|2021", false, false)).unwrap();
    assert_eq!(with_files, vec![dir("2021"), dir("2019"), file("2020"), dir("x2020x")]);
}

#[test]
fn children_are_held_against_the_expression_with_or_without_case() {
    let children = vec![
        file("Cert Generator Agricor Micro 01.XLSM"),
        file("cert generator agricor micro 02.xlsm"),
        file("cert generator agricor micro 03.xlsx"),
        file("old cert generator agricor micro 04.xlsm"),
    ];
    let pattern = r"^cert generator agricor micro .*\.xlsm$";
    assert_eq!(
        match_child_paths(&children, &level(pattern, true, false)).unwrap(),
        vec![
            file("Cert Generator Agricor Micro 01.XLSM"),
            file("cert generator agricor micro 02.xlsm"),
        ]
    );
    assert_eq!(
        match_child_paths(&children, &level(pattern, false, false)).unwrap(),
        vec![file("cert generator agricor micro 02.xlsm")]
    );
}

#[test]
fn day_directories_are_named_by_day_month_and_year() {
    let children =
        vec![dir("01-Jan-2020"), dir("1-Jan-2020"), dir("01-JAN-2020"), dir("01-01-2020")];
    let kept = match_child_paths(&children, &level(DAY_DIR_REGEX, true, true)).unwrap();
    assert_eq!(kept, vec![dir("01-Jan-2020"), dir("01-JAN-2020")]);
}

#[test]
fn expression_that_does_not_compile_keeps_nothing_back() {
    assert_eq!(match_child_paths(&vec![dir("a")], &level("(", false, true)), None);
    assert_eq!(match_child_paths(&vec![], &level("[", true, false)), None);
}

#[test]
fn no_children_give_no_children() {
    assert_eq!(match_child_paths(&vec![], &level("a", false, true)), Some(vec![]));
    assert_eq!(
        match_child_paths(&vec![dir("b"), file("c")], &level("a", false, false)),
        Some(vec![])
    );
}

#[test]
fn empty_expression_matches_every_name() {
    let children = vec![dir(""), file("x")];
    assert_eq!(
        match_child_paths(&children, &level("", false, false)),
        Some(vec![dir(""), file("x")])
    );
}
