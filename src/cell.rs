//! The closed cell-value union, type inference, and value rendering.
use vstd::prelude::*;
use crate::text::{dec_int, quoted, trim_of, push_quoted, decimal_i64, trim_text};

verus! {

/// One spreadsheet cell. Values that only an outside codec can render
/// (floating-point numbers, timestamps, durations, error kinds) are held as
/// the display text that codec produced for them.
#[derive(Clone, Debug)]
pub enum CellValue {
    Integer(i64),
    /// Natural decimal text of the number.
    Decimal(String),
    Text(String),
    Boolean(bool),
    /// Display text of a date or date-time.
    Timestamp(String),
    /// Display text of an interval.
    Duration(String),
    /// Name of the error kind.
    Error(String),
    Empty,
}

/// Coarse column type of a generated schema.
#[derive(Clone, Copy, Debug, PartialEq, Eq, Structural)]
pub enum SchemaType {
    Integer,
    Decimal,
    DateTime,
    Boolean,
    Text,
}

pub open spec fn infer_spec(c: CellValue) -> SchemaType {
    match c {
        CellValue::Integer(_) => SchemaType::Integer,
        CellValue::Decimal(_) => SchemaType::Decimal,
        CellValue::Timestamp(_) => SchemaType::DateTime,
        CellValue::Boolean(_) => SchemaType::Boolean,
        _ => SchemaType::Text,
    }
}

/// Schema type of a sampled cell.
pub fn infer(c: &CellValue) -> (t: SchemaType)
    ensures
        t == infer_spec(*c),
{
    match c {
        CellValue::Integer(_) => SchemaType::Integer,
        CellValue::Decimal(_) => SchemaType::Decimal,
        CellValue::Timestamp(_) => SchemaType::DateTime,
        CellValue::Boolean(_) => SchemaType::Boolean,
        CellValue::Text(_) => SchemaType::Text,
        CellValue::Duration(_) => SchemaType::Text,
        CellValue::Error(_) => SchemaType::Text,
        CellValue::Empty => SchemaType::Text,
    }
}

/// Inferring a type depends on the value alone: two equal cells give the
/// same type, and the result is one of the five schema types.
pub proof fn lemma_infer_deterministic(a: CellValue, b: CellValue)
    requires
        a == b,
    ensures
        infer_spec(a) == infer_spec(b),
        infer_spec(a) is Integer <==> a is Integer,
        infer_spec(a) is Decimal <==> a is Decimal,
        infer_spec(a) is DateTime <==> a is Timestamp,
        infer_spec(a) is Boolean <==> a is Boolean,
{
}

pub open spec fn type_keyword_spec(t: SchemaType) -> Seq<char> {
    match t {
        SchemaType::Integer => "integer"@,
        SchemaType::Decimal => "decimal"@,
        SchemaType::DateTime => "dateTime"@,
        SchemaType::Boolean => "boolean"@,
        SchemaType::Text => "string"@,
    }
}

/// Column builder name of a schema type.
pub fn type_keyword(t: SchemaType) -> (r: &'static str)
    ensures
        r@ == type_keyword_spec(t),
{
    match t {
        SchemaType::Integer => "integer",
        SchemaType::Decimal => "decimal",
        SchemaType::DateTime => "dateTime",
        SchemaType::Boolean => "boolean",
        SchemaType::Text => "string",
    }
}

pub open spec fn bool_text(b: bool) -> Seq<char> {
    if b { "true"@ } else { "false"@ }
}

/// Display text of a cell: text is trimmed, errors are prefixed, empty is empty.
pub open spec fn display_spec(c: CellValue) -> Seq<char> {
    match c {
        CellValue::Integer(i) => dec_int(i as int),
        CellValue::Decimal(s) => s@,
        CellValue::Text(s) => trim_of(s@),
        CellValue::Boolean(b) => bool_text(b),
        CellValue::Timestamp(s) => s@,
        CellValue::Duration(s) => s@,
        CellValue::Error(s) => "Error: "@ + s@,
        CellValue::Empty => Seq::empty(),
    }
}

/// Literal of a cell in generated code.
pub open spec fn literal_spec(c: CellValue) -> Seq<char> {
    match c {
        CellValue::Integer(i) => dec_int(i as int),
        CellValue::Decimal(s) => s@,
        CellValue::Text(s) => quoted(s@),
        CellValue::Boolean(b) => bool_text(b),
        CellValue::Empty => "null"@,
        _ => quoted(display_spec(c)),
    }
}

/// Display text of a cell.
pub fn cell_to_string(c: &CellValue) -> (r: String)
    ensures
        r@ == display_spec(*c),
{
    match c {
        CellValue::Integer(i) => decimal_i64(*i),
        CellValue::Decimal(s) => s.clone(),
        CellValue::Text(s) => trim_text(s.as_str()),
        CellValue::Boolean(b) => {
            if *b { String::from_str("true") } else { String::from_str("false") }
        },
        CellValue::Timestamp(s) => s.clone(),
        CellValue::Duration(s) => s.clone(),
        CellValue::Error(s) => {
            let mut r = String::from_str("Error: ");
            r.append(s.as_str());
            r
        },
        CellValue::Empty => String::new(),
    }
}

/// Appends the literal of a cell.
pub fn push_literal(out: &mut String, c: &CellValue)
    ensures
        final(out)@ == old(out)@ + literal_spec(*c),
{
    match c {
        CellValue::Integer(i) => {
            let d = decimal_i64(*i);
            out.append(d.as_str());
        },
        CellValue::Decimal(s) => out.append(s.as_str()),
        CellValue::Text(s) => push_quoted(out, s.as_str()),
        CellValue::Boolean(b) => {
            if *b { out.append("true") } else { out.append("false") }
        },
        CellValue::Empty => out.append("null"),
        _ => {
            let d = cell_to_string(c);
            push_quoted(out, d.as_str());
        },
    }
}

/// Literal of a cell in generated code.
pub fn render_literal(c: &CellValue) -> (r: String)
    ensures
        r@ == literal_spec(*c),
{
    let mut r = String::new();
    push_literal(&mut r, c);
    assert(r@ =~= literal_spec(*c));
    r
}

} // verus!
