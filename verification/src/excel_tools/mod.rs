//! The extraction engine and the search for columns by their headers.

pub mod column_finders;
pub mod helpers;

pub use crate::extractors::results::botanacor_micro::get_botanacor_micro_extractors;
pub use helpers::{
    check_columns_cover, extract_column, extract_sheet_columns, find_active_rows, make_header,
    rows_from_cols, sheet_from_selector, validate_extractors, CellCheck, ColIndexer,
    PotentialSheet, Sheet, SheetExtractor, SheetSelector,
};
