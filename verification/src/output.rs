//! The output table as delimited text: a header line, then one line for each
//! row, fields separated by commas and lines ended by CR LF.

use vstd::prelude::*;
use vstd::string::*;

use crate::cell::{CellError, CellValue, CellView};
use crate::text::{push_signed_decimal, signed_decimal};

verus! {

/// A text between double quotes. Nothing inside it is escaped.
pub open spec fn quoted(s: Seq<char>) -> Seq<char> {
    seq!['"'] + s + seq!['"']
}

/// The fields of a line, with a comma between each two.
pub open spec fn joined(fields: Seq<Seq<char>>) -> Seq<char>
    decreases fields.len(),
{
    if fields.len() == 0 {
        Seq::empty()
    } else if fields.len() == 1 {
        fields[0]
    } else {
        joined(fields.drop_last()) + seq![','] + fields.last()
    }
}

/// A line: its fields, joined, and the line end.
pub open spec fn line(fields: Seq<Seq<char>>) -> Seq<char> {
    joined(fields) + seq!['\r', '\n']
}

/// The header line: every name quoted.
pub open spec fn header_line(names: Seq<Seq<char>>) -> Seq<char> {
    line(Seq::new(names.len(), |i: int| quoted(names[i])))
}

/// The name under which an error is written.
pub open spec fn error_name(e: CellError) -> Seq<char> {
    match e {
        CellError::Div0 => "Div0"@,
        CellError::NA => "NA"@,
        CellError::Name => "Name"@,
        CellError::Null => "Null"@,
        CellError::Num => "Num"@,
        CellError::Ref => "Ref"@,
        CellError::Value => "Value"@,
        CellError::GettingData => "GettingData"@,
    }
}

/// How a cell is written: nothing for an empty cell, a text between quotes, a
/// number and an integer in decimal, a boolean as `true` or `false`, an error
/// by its name.
pub open spec fn field(v: CellView) -> Seq<char> {
    match v {
        CellView::Empty => Seq::empty(),
        CellView::Text(s) => quoted(s),
        CellView::Number(s) => s,
        CellView::Integer(i) => signed_decimal(i),
        CellView::Boolean(b) => if b {
            "true"@
        } else {
            "false"@
        },
        CellView::ErrorCode(e) => error_name(e),
    }
}

/// The line of one row.
pub open spec fn row_line(row: Seq<CellView>) -> Seq<char> {
    line(Seq::new(row.len(), |i: int| field(row[i])))
}

/// The lines of all rows, one after the other.
pub open spec fn data_lines(rows: Seq<Seq<CellView>>) -> Seq<char>
    decreases rows.len(),
{
    if rows.len() == 0 {
        Seq::empty()
    } else {
        data_lines(rows.drop_last()) + row_line(rows.last())
    }
}

/// The name under which an error is written.
fn error_text(e: CellError) -> (t: &'static str)
    ensures
        t@ == error_name(e),
{
    match e {
        CellError::Div0 => "Div0",
        CellError::NA => "NA",
        CellError::Name => "Name",
        CellError::Null => "Null",
        CellError::Num => "Num",
        CellError::Ref => "Ref",
        CellError::Value => "Value",
        CellError::GettingData => "GettingData",
    }
}

/// Appends a text between double quotes.
fn push_quoted(dest: &mut String, s: &str)
    ensures
        final(dest)@ == old(dest)@ + quoted(s@),
{
    proof {
        reveal_strlit("\"");
    }
    dest.append("\"");
    dest.append(s);
    dest.append("\"");
    assert("\""@ =~= seq!['"']);
    assert(dest@ =~= old(dest)@ + quoted(s@));
}

/// Appends a cell as it is written.
fn push_field(dest: &mut String, v: &CellValue)
    ensures
        final(dest)@ == old(dest)@ + field(v@),
{
    match v {
        CellValue::Empty => {
            assert(dest@ =~= old(dest)@ + field(v@));
        },
        CellValue::Text(s) => push_quoted(dest, s.as_str()),
        CellValue::Number(s) => dest.append(s.as_str()),
        CellValue::Integer(i) => push_signed_decimal(dest, *i),
        CellValue::Boolean(b) => {
            if *b {
                dest.append("true");
            } else {
                dest.append("false");
            }
        },
        CellValue::ErrorCode(e) => dest.append(error_text(*e)),
    }
}

/// Appends the line end.
fn push_line_end(dest: &mut String)
    ensures
        final(dest)@ == old(dest)@ + seq!['\r', '\n'],
{
    proof {
        reveal_strlit("\r\n");
    }
    dest.append("\r\n");
    assert("\r\n"@ =~= seq!['\r', '\n']);
}

/// Appends the separator of two fields.
fn push_comma(dest: &mut String)
    ensures
        final(dest)@ == old(dest)@ + seq![','],
{
    proof {
        reveal_strlit(",");
    }
    dest.append(",");
    assert(","@ =~= seq![',']);
}

/// Appends the header line to `dest`: every name between double quotes, a
/// comma between each two, CR LF at the end.
pub fn write_header(dest: &mut String, header: Vec<&str>)
    ensures
        final(dest)@ == old(dest)@ + header_line(header.deep_view()),
{
    let ghost names = header.deep_view();
    let ghost fields = Seq::new(names.len(), |i: int| quoted(names[i]));
    let mut i: usize = 0;
    while i < header.len()
        invariant
            i <= header.len(),
            names == header.deep_view(),
            names.len() == header.len(),
            fields == Seq::new(names.len(), |i: int| quoted(names[i])),
            dest@ == old(dest)@ + joined(fields.take(i as int)),
        decreases header.len() - i,
    {
        let ghost before = dest@;
        if i != 0 {
            push_comma(dest);
        }
        push_quoted(dest, header[i]);
        proof {
            let part = fields.take(i + 1);
            assert(part.drop_last() =~= fields.take(i as int));
            assert(part.last() == quoted(names[i as int]));
            assert(names[i as int] == header[i as int]@);
            assert(dest@ =~= old(dest)@ + joined(part));
        }
        i += 1;
    }
    assert(fields.take(header.len() as int) =~= fields);
    push_line_end(dest);
    assert(dest@ =~= old(dest)@ + header_line(header.deep_view()));
}

/// Appends the line of one row to `dest`.
fn write_row(dest: &mut String, row: &Vec<CellValue>)
    ensures
        final(dest)@ == old(dest)@ + row_line(row.deep_view()),
{
    let ghost cells = row.deep_view();
    let ghost fields = Seq::new(cells.len(), |i: int| field(cells[i]));
    let mut i: usize = 0;
    while i < row.len()
        invariant
            i <= row.len(),
            cells == row.deep_view(),
            cells.len() == row.len(),
            fields == Seq::new(cells.len(), |i: int| field(cells[i])),
            dest@ == old(dest)@ + joined(fields.take(i as int)),
        decreases row.len() - i,
    {
        if i != 0 {
            push_comma(dest);
        }
        push_field(dest, &row[i]);
        proof {
            let part = fields.take(i + 1);
            assert(part.drop_last() =~= fields.take(i as int));
            assert(part.last() == field(cells[i as int]));
            assert(cells[i as int] == row[i as int]@);
            assert(dest@ =~= old(dest)@ + joined(part));
        }
        i += 1;
    }
    assert(fields.take(row.len() as int) =~= fields);
    push_line_end(dest);
    assert(dest@ =~= old(dest)@ + row_line(row.deep_view()));
}

/// Appends the lines of all rows to `dest`, in their order. In a line the
/// fields are separated by commas, and an empty cell leaves its field empty.
pub fn write_data(dest: &mut String, data: Vec<Vec<CellValue>>)
    ensures
        final(dest)@ == old(dest)@ + data_lines(data.deep_view()),
{
    let ghost rows = data.deep_view();
    let mut i: usize = 0;
    assert(data_lines(rows.take(0)) =~= Seq::<char>::empty());
    while i < data.len()
        invariant
            i <= data.len(),
            rows == data.deep_view(),
            rows.len() == data.len(),
            dest@ == old(dest)@ + data_lines(rows.take(i as int)),
        decreases data.len() - i,
    {
        write_row(dest, &data[i]);
        proof {
            let part = rows.take(i + 1);
            assert(part.drop_last() =~= rows.take(i as int));
            assert(part.last() == data[i as int].deep_view());
            assert(dest@ =~= old(dest)@ + data_lines(part));
        }
        i += 1;
    }
    assert(rows.take(data.len() as int) =~= rows);
}

} // verus!
