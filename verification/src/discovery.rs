//! Finding the workbooks to extract from.
//!
//! The workbooks lie five levels below a root directory: year, month, day,
//! the folder of a test type, and the file itself. At each level the names
//! are held against a regular expression. Reading the directories is left to
//! the caller; what is decided here is which of the names that it read are
//! followed.

use regex::RegexBuilder;
use vstd::prelude::*;
use vstd::string::*;

use crate::text::text_eq;

verus! {

/// Whether a regular expression compiles, with or without regard to case.
pub uninterp spec fn regex_compiles(pattern: Seq<char>, case_insensitive: bool) -> bool;

/// Whether a regular expression that compiles matches somewhere in a text.
pub uninterp spec fn regex_accepts(
    pattern: Seq<char>,
    case_insensitive: bool,
    text: Seq<char>,
) -> bool;

/// `RegexBuilder::build` and `Regex::is_match`: whether the expression
/// matches somewhere in the text, or nothing where the expression does not
/// compile. Both are functions of their arguments alone.
#[verifier::external_body]
fn regex_search(pattern: &str, case_insensitive: bool, text: &str) -> (r: Option<bool>)
    ensures
        r == (if regex_compiles(pattern@, case_insensitive) {
            Some(regex_accepts(pattern@, case_insensitive, text@))
        } else {
            None
        }),
{
    match RegexBuilder::new(pattern).case_insensitive(case_insensitive).build() {
        Ok(re) => Some(re.is_match(text)),
        Err(_) => None,
    }
}

/// The name of a day's directory: day, month in three letters, year.
pub const DAY_DIR_REGEX: &'static str = r"\d{2}-[[:alpha:]]{3}-\d{4}";

/// The regular expressions of a test type: one for its folder, one for its
/// workbooks. Both are held against names without regard to case.
#[derive(Clone, Copy, PartialEq, Eq, Debug)]
pub struct TestTypeRegex {
    pub folder: &'static str,
    pub file: &'static str,
}

impl TestTypeRegex {
    pub fn new(folder_regex: &'static str, file_regex: &'static str) -> (r: Self)
        ensures
            r.folder == folder_regex,
            r.file == file_regex,
    {
        TestTypeRegex { folder: folder_regex, file: file_regex }
    }
}

/// The regular expressions of a test type, as (folder, file).
pub open spec fn test_type_patterns(test_type: Seq<char>) -> Option<(Seq<char>, Seq<char>)> {
    if test_type == "botanacor_potency"@ {
        Some((r"^botanacor potency "@, r"^cert generator botanacor potency .*\.xlsm$"@))
    } else if test_type == "botanacor_pesticides"@ {
        Some((r"^botanacor pesticides "@, r"^cert generator botanacor pesticides .*\.xlsm$"@))
    } else if test_type == "botanacor_metals"@ {
        Some((r"^botanacor metals "@, r"^cert generator botanacor metals .*\.xlsm$"@))
    } else if test_type == "botanacor_micro"@ {
        Some((r"^validated botanacor micro "@, r"^cert generator botanacor micro .*\.xlsm$"@))
    } else if test_type == "agricor_micro"@ {
        Some((r"^agricor micro "@, r"^cert generator agricor micro .*\.xlsm$"@))
    } else if test_type == "agricor_potency"@ {
        Some((r"^agricor potency "@, r"^cert generator agricor potency .*\.xlsm$"@))
    } else {
        None
    }
}

/// The regular expressions of a test type, or nothing for a name that
/// stands for none.
pub fn get_regex(test_type: &str) -> (r: Option<TestTypeRegex>)
    ensures
        match r {
            Some(found) => test_type_patterns(test_type@) == Some((found.folder@, found.file@)),
            None => test_type_patterns(test_type@) is None,
        },
{
    if text_eq(test_type, "botanacor_potency") {
        Some(
            TestTypeRegex::new(
                r"^botanacor potency ",
                r"^cert generator botanacor potency .*\.xlsm$",
            ),
        )
    } else if text_eq(test_type, "botanacor_pesticides") {
        Some(
            TestTypeRegex::new(
                r"^botanacor pesticides ",
                r"^cert generator botanacor pesticides .*\.xlsm$",
            ),
        )
    } else if text_eq(test_type, "botanacor_metals") {
        Some(
            TestTypeRegex::new(
                r"^botanacor metals ",
                r"^cert generator botanacor metals .*\.xlsm$",
            ),
        )
    } else if text_eq(test_type, "botanacor_micro") {
        Some(
            TestTypeRegex::new(
                r"^validated botanacor micro ",
                r"^cert generator botanacor micro .*\.xlsm$",
            ),
        )
    } else if text_eq(test_type, "agricor_micro") {
        Some(TestTypeRegex::new(r"^agricor micro ", r"^cert generator agricor micro .*\.xlsm$"))
    } else if text_eq(test_type, "agricor_potency") {
        Some(
            TestTypeRegex::new(r"^agricor potency ", r"^cert generator agricor potency .*\.xlsm$"),
        )
    } else {
        None
    }
}

/// What is asked of the names at one level below the root.
#[derive(PartialEq, Eq, Debug)]
pub struct LevelPattern {
    /// The regular expression that a name must match somewhere.
    pub pattern: String,
    /// Whether case is disregarded.
    pub case_insensitive: bool,
    /// Whether only directories are followed.
    pub dirs_only: bool,
}

/// The mathematical value of a `LevelPattern`.
pub struct LevelView {
    pub pattern: Seq<char>,
    pub case_insensitive: bool,
    pub dirs_only: bool,
}

impl View for LevelPattern {
    type V = LevelView;

    open spec fn view(&self) -> LevelView {
        LevelView {
            pattern: self.pattern@,
            case_insensitive: self.case_insensitive,
            dirs_only: self.dirs_only,
        }
    }
}

impl DeepView for LevelPattern {
    type V = LevelView;

    open spec fn deep_view(&self) -> LevelView {
        self@
    }
}

/// The five levels of a search: years and months by the expressions given,
/// with regard to case; days, the folder and the file of the test type
/// without. Only the last level takes what is no directory.
pub open spec fn levels(
    folder: Seq<char>,
    file: Seq<char>,
    years: Seq<char>,
    months: Seq<char>,
) -> Seq<LevelView> {
    seq![
        LevelView { pattern: years, case_insensitive: false, dirs_only: true },
        LevelView { pattern: months, case_insensitive: false, dirs_only: true },
        LevelView { pattern: DAY_DIR_REGEX@, case_insensitive: true, dirs_only: true },
        LevelView { pattern: folder, case_insensitive: true, dirs_only: true },
        LevelView { pattern: file, case_insensitive: true, dirs_only: false },
    ]
}

/// The levels of the search for the workbooks of a test type, from the root
/// down.
pub fn search_levels(
    regex_struct: &TestTypeRegex,
    year_dir_regex: String,
    month_dir_regex: String,
) -> (plan: Vec<LevelPattern>)
    ensures
        plan.deep_view() == levels(
            regex_struct.folder@,
            regex_struct.file@,
            year_dir_regex@,
            month_dir_regex@,
        ),
{
    let mut plan: Vec<LevelPattern> = Vec::new();
    plan.push(LevelPattern { pattern: year_dir_regex, case_insensitive: false, dirs_only: true });
    plan.push(LevelPattern { pattern: month_dir_regex, case_insensitive: false, dirs_only: true });
    plan.push(
        LevelPattern {
            pattern: String::from_str(DAY_DIR_REGEX),
            case_insensitive: true,
            dirs_only: true,
        },
    );
    plan.push(
        LevelPattern {
            pattern: String::from_str(regex_struct.folder),
            case_insensitive: true,
            dirs_only: true,
        },
    );
    plan.push(
        LevelPattern {
            pattern: String::from_str(regex_struct.file),
            case_insensitive: true,
            dirs_only: false,
        },
    );
    assert(plan.deep_view() =~= levels(
        regex_struct.folder@,
        regex_struct.file@,
        year_dir_regex@,
        month_dir_regex@,
    ));
    plan
}

/// What a directory holds under one name.
#[derive(PartialEq, Eq, Debug)]
pub struct Entry {
    pub name: String,
    pub is_dir: bool,
}

/// The mathematical value of an `Entry`.
pub struct EntryView {
    pub name: Seq<char>,
    pub is_dir: bool,
}

impl View for Entry {
    type V = EntryView;

    open spec fn view(&self) -> EntryView {
        EntryView { name: self.name@, is_dir: self.is_dir }
    }
}

impl DeepView for Entry {
    type V = EntryView;

    open spec fn deep_view(&self) -> EntryView {
        self@
    }
}

/// Whether an entry is followed: its name matched, and it is a directory
/// where only directories are followed.
pub open spec fn followed(entry: EntryView, matched: bool, dirs_only: bool) -> bool {
    matched && (dirs_only ==> entry.is_dir)
}

/// Keeps an entry that is followed.
pub fn filter_by_filename(entry: Entry, matched: bool, dirs_only: bool) -> (r: Option<Entry>)
    ensures
        r == (if followed(entry@, matched, dirs_only) {
            Some(entry)
        } else {
            None
        }),
{
    if matched && (!dirs_only || entry.is_dir) {
        Some(entry)
    } else {
        None
    }
}

/// The entries that a level follows, in their order.
pub open spec fn children_followed(children: Seq<EntryView>, level: LevelView) -> Seq<EntryView>
    decreases children.len(),
{
    if children.len() == 0 {
        Seq::empty()
    } else if followed(
        children.last(),
        regex_accepts(level.pattern, level.case_insensitive, children.last().name),
        level.dirs_only,
    ) {
        children_followed(children.drop_last(), level).push(children.last())
    } else {
        children_followed(children.drop_last(), level)
    }
}

/// Picks, among the entries of a directory, those that a level follows, in
/// their order: the entries whose name the level's expression matches and
/// which are directories where the level asks for them. Nothing comes back
/// where the expression does not compile.
pub fn match_child_paths(children: &Vec<Entry>, level: &LevelPattern) -> (r: Option<Vec<Entry>>)
    ensures
        match r {
            Some(kept) => regex_compiles(level.pattern@, level.case_insensitive)
                && kept.deep_view() == children_followed(children.deep_view(), level@),
            None => !regex_compiles(level.pattern@, level.case_insensitive),
        },
{
    if regex_search(level.pattern.as_str(), level.case_insensitive, "").is_none() {
        return None;
    }
    let ghost all = children.deep_view();
    let mut kept: Vec<Entry> = Vec::new();
    let mut i: usize = 0;
    while i < children.len()
        invariant
            i <= children.len(),
            all == children.deep_view(),
            all.len() == children.len(),
            regex_compiles(level.pattern@, level.case_insensitive),
            kept.deep_view() == children_followed(all.take(i as int), level@),
        decreases children.len() - i,
    {
        let ghost kept_before = kept.deep_view();
        let entry = Entry { name: children[i].name.clone(), is_dir: children[i].is_dir };
        assert(entry@ == all[i as int]);
        let matched = match regex_search(
            level.pattern.as_str(),
            level.case_insensitive,
            entry.name.as_str(),
        ) {
            Some(m) => m,
            None => false,
        };
        proof {
            let part = all.take(i + 1);
            assert(part.drop_last() =~= all.take(i as int));
            assert(part.last() == all[i as int]);
        }
        match filter_by_filename(entry, matched, level.dirs_only) {
            Some(e) => {
                kept.push(e);
                assert(kept.deep_view() =~= kept_before.push(e@));
            },
            None => {},
        }
        i += 1;
    }
    assert(all.take(children.len() as int) =~= all);
    Some(kept)
}

} // verus!
