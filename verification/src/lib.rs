//! Schema-adaptive extraction of tabular records from spreadsheet workbooks.
//!
//! A workbook is a list of named worksheets. An extraction plan names, sheet by
//! sheet, the columns to read and how each one is addressed; where a sheet has
//! had several layouts over the years, the plan lists them in priority order and
//! the first one that the workbook validates is used. The resolved columns are
//! then transposed into output rows, one per active sample row or one per file.

pub mod cell;
pub mod discovery;
pub mod excel_tools;
pub mod extractors;
pub mod output;
pub mod range_arg;
pub mod sheet;
pub mod text;
