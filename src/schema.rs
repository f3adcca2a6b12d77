//! Column specs derived from the header and the sample row, and the
//! table-definition block rendered from them.
use vstd::prelude::*;
use crate::cell::{CellValue, SchemaType, infer, infer_spec, display_spec, cell_to_string,
    type_keyword, type_keyword_spec};
use crate::text::{snake_of, trim_of, snake_case, trim_text};

verus! {

/// Which template marker a substitution concerns.
#[derive(Clone, Copy, Debug, PartialEq, Eq, Structural)]
pub enum Marker {
    ClassName,
    Up,
    Down,
}

/// Why a migration cannot be generated.
#[derive(Clone, Copy, Debug, PartialEq, Eq, Structural)]
pub enum MigrationError {
    /// The sheet lacks a data row below its header row.
    TooFewRows,
    /// Data row `row` (counted over the whole sheet) does not have one value per column.
    ArityMismatch { row: usize, expected: usize, found: usize },
    /// Column `index` normalizes to the same name as an earlier column.
    DuplicateColumn { index: usize },
    /// Rows per insert statement must be positive.
    InvalidChunkSize,
    /// The template holds the marker zero or several times.
    TemplateMarker { marker: Marker },
}

/// One column of the generated table.
#[derive(Clone, Debug)]
pub struct ColumnSpec {
    pub name: String,
    pub inferred_type: SchemaType,
    pub nullable: bool,
}

/// Normalized identifier of a header cell.
pub open spec fn header_name(c: CellValue) -> Seq<char> {
    snake_of(trim_of(display_spec(c)))
}

/// The normalized names of a header row.
pub open spec fn header_names(h: Seq<CellValue>) -> Seq<Seq<char>> {
    Seq::new(h.len(), |i: int| header_name(h[i]))
}

/// The texts of a list of strings.
pub open spec fn name_views(names: Seq<String>) -> Seq<Seq<char>> {
    Seq::new(names.len(), |i: int| names[i]@)
}

/// Some column at `j` repeats the name of an earlier one.
pub open spec fn repeats_earlier(names: Seq<Seq<char>>, j: int) -> bool {
    exists|i: int| 0 <= i < j && names[i] == names[j]
}

/// `j` is the first column that repeats an earlier name.
pub open spec fn first_repeat(names: Seq<Seq<char>>, j: int) -> bool {
    &&& 0 <= j < names.len()
    &&& repeats_earlier(names, j)
    &&& forall|k: int| 0 <= k < j ==> !#[trigger] repeats_earlier(names, k)
}

/// The error of deriving column specs from a header row and a sample row,
/// if any: the rows differ in length, or a name repeats (the first repeat).
pub open spec fn specs_error(header: Seq<CellValue>, sample: Seq<CellValue>) -> Option<MigrationError> {
    if header.len() != sample.len() {
        Some(MigrationError::ArityMismatch { row: 1, expected: header.len() as usize, found: sample.len() as usize })
    } else if has_duplicate(header_names(header)) {
        Some(MigrationError::DuplicateColumn {
            index: (choose|j: int| first_repeat(header_names(header), j)) as usize,
        })
    } else {
        None
    }
}

pub open spec fn has_duplicate(names: Seq<Seq<char>>) -> bool {
    exists|j: int| 0 <= j < names.len() && repeats_earlier(names, j)
}

/// Normalized identifier of a header cell: display text, trimmed, snake case.
pub fn normalize_header(c: &CellValue) -> (r: String)
    ensures
        r@ == header_name(*c),
{
    let d = cell_to_string(c);
    let t = trim_text(d.as_str());
    snake_case(t.as_str())
}

/// Normalized names of all header cells, in header order.
pub fn extract_column_names(header: &Vec<CellValue>) -> (r: Vec<String>)
    ensures
        r@.len() == header@.len(),
        forall|i: int| 0 <= i < header@.len() ==> #[trigger] r@[i]@ == header_name(header@[i]),
{
    let mut r: Vec<String> = Vec::new();
    let mut i: usize = 0;
    while i < header.len()
        invariant
            i <= header@.len(),
            r@.len() == i,
            forall|k: int| 0 <= k < i ==> #[trigger] r@[k]@ == header_name(header@[k]),
        decreases header@.len() - i,
    {
        r.push(normalize_header(&header[i]));
        i = i + 1;
    }
    r
}

/// Schema types of the columns, one per value of the sample row; an error
/// when the sample row (row 1 of the sheet) has another number of values.
pub fn infer_column_types(n_columns: usize, sample: &Vec<CellValue>) -> (r: Result<
    Vec<SchemaType>,
    MigrationError,
>)
    ensures
        match r {
            Ok(ts) => n_columns == sample@.len() && ts@.len() == sample@.len() && forall|i: int|
                0 <= i < sample@.len() ==> #[trigger] ts@[i] == infer_spec(sample@[i]),
            Err(e) => n_columns != sample@.len() && e == (MigrationError::ArityMismatch {
                row: 1,
                expected: n_columns,
                found: sample.len(),
            }),
        },
{
    if n_columns != sample.len() {
        return Err(MigrationError::ArityMismatch { row: 1, expected: n_columns, found: sample.len() });
    }
    let mut ts: Vec<SchemaType> = Vec::new();
    let mut i: usize = 0;
    while i < sample.len()
        invariant
            i <= sample@.len(),
            ts@.len() == i,
            forall|k: int| 0 <= k < i ==> #[trigger] ts@[k] == infer_spec(sample@[k]),
        decreases sample@.len() - i,
    {
        ts.push(infer(&sample[i]));
        i = i + 1;
    }
    Ok(ts)
}

/// Index of the first name that repeats an earlier one, if any.
pub fn first_duplicate(names: &Vec<String>) -> (r: Option<usize>)
    ensures
        match r {
            Some(j) => j < names@.len() && repeats_earlier(name_views(names@), j as int)
                && forall|k: int| 0 <= k < j ==> !#[trigger] repeats_earlier(name_views(names@), k),
            None => !has_duplicate(name_views(names@)),
        },
{
    let ghost ns = name_views(names@);
    let mut j: usize = 0;
    while j < names.len()
        invariant
            ns == name_views(names@),
            j <= names@.len(),
            forall|k: int| 0 <= k < j ==> !#[trigger] repeats_earlier(ns, k),
        decreases names@.len() - j,
    {
        let mut i: usize = 0;
        while i < j
            invariant
                ns == name_views(names@),
                i <= j < names@.len(),
                forall|k: int| 0 <= k < j ==> !#[trigger] repeats_earlier(ns, k),
                forall|k: int| 0 <= k < i ==> ns[k] != ns[j as int],
            decreases j - i,
        {
            if names[i] == names[j] {
                assert(ns[i as int] == ns[j as int]);
                assert(repeats_earlier(ns, j as int));
                return Some(j);
            }
            i = i + 1;
        }
        j = j + 1;
    }
    None
}

/// The column specs of a table: names from the header row, type and
/// nullability from the sample row alone.
pub open spec fn specs_match(r: Seq<ColumnSpec>, header: Seq<CellValue>, sample: Seq<CellValue>) -> bool {
    &&& r.len() == header.len()
    &&& forall|i: int| 0 <= i < header.len() ==> column_from(#[trigger] r[i], header[i], sample[i])
}

/// A column's name comes from its header cell, its type and nullability from
/// its sample cell.
pub open spec fn column_from(c: ColumnSpec, h: CellValue, s: CellValue) -> bool {
    &&& c.name@ == header_name(h)
    &&& c.inferred_type == infer_spec(s)
    &&& c.nullable == (s is Empty)
}

/// Column specs from the header row and the first data row. Errors: the rows
/// differ in length; two header cells normalize to the same name.
pub fn column_specs(header: &Vec<CellValue>, sample: &Vec<CellValue>) -> (r: Result<
    Vec<ColumnSpec>,
    MigrationError,
>)
    ensures
        match r {
            Ok(cs) => specs_error(header@, sample@) is None && specs_match(cs@, header@, sample@),
            Err(e) => specs_error(header@, sample@) == Some(e),
        },
{
    let names = extract_column_names(header);
    let types = match infer_column_types(names.len(), sample) {
        Ok(ts) => ts,
        Err(e) => {
            return Err(e);
        },
    };
    assert(name_views(names@) =~= header_names(header@));
    match first_duplicate(&names) {
        Some(j) => {
            let ghost hn = header_names(header@);
            assert(first_repeat(hn, j as int));
            assert(has_duplicate(hn));
            assert forall|q: int| first_repeat(hn, q) implies q == j by {
                if q < j {
                    assert(!repeats_earlier(hn, q));
                } else if q > j {
                    assert(!repeats_earlier(hn, j as int));
                }
            }
            return Err(MigrationError::DuplicateColumn { index: j });
        },
        None => {},
    }
    assert(!has_duplicate(header_names(header@)));
    let mut cs: Vec<ColumnSpec> = Vec::new();
    let mut i: usize = 0;
    while i < names.len()
        invariant
            names@.len() == header@.len(),
            types@.len() == sample@.len(),
            header@.len() == sample@.len(),
            forall|k: int| 0 <= k < header@.len() ==> #[trigger] names@[k]@ == header_name(header@[k]),
            forall|k: int| 0 <= k < sample@.len() ==> #[trigger] types@[k] == infer_spec(sample@[k]),
            i <= names@.len(),
            cs@.len() == i,
            forall|k: int| 0 <= k < i ==> column_from(#[trigger] cs@[k], header@[k], sample@[k]),
        decreases names@.len() - i,
    {
        let nullable = match &sample[i] {
            CellValue::Empty => true,
            _ => false,
        };
        let name = names[i].clone();
        let ghost prev = cs@;
        cs.push(ColumnSpec { name, inferred_type: types[i], nullable });
        assert forall|k: int| 0 <= k < i implies cs@[k] == prev[k] by {}
        i = i + 1;
    }
    Ok(cs)
}

/// Declaration line of a column with the given name, type and nullability.
pub open spec fn declaration(name: Seq<char>, t: SchemaType, nullable: bool) -> Seq<char> {
    "            $table->"@ + type_keyword_spec(t) + "('"@ + name + "')"@ + (if nullable {
        "->nullable()"@
    } else {
        Seq::empty()
    }) + ";\n"@
}

/// Declaration line of one column.
pub open spec fn column_line(c: ColumnSpec) -> Seq<char> {
    declaration(c.name@, c.inferred_type, c.nullable)
}

/// Declaration lines of the first `n` columns of a sheet, named from the
/// header row and typed from the sample row.
pub open spec fn sheet_schema_text(header: Seq<CellValue>, sample: Seq<CellValue>, n: nat) -> Seq<char>
    decreases n,
{
    if n == 0 {
        Seq::empty()
    } else {
        let i = n - 1;
        sheet_schema_text(header, sample, (n - 1) as nat) + declaration(
            header_name(header[i]),
            infer_spec(sample[i]),
            sample[i] is Empty,
        )
    }
}

/// Column specs derived from a sheet's header and sample rows render as the
/// declarations computed from those rows directly.
pub proof fn lemma_schema_of_sheet(cs: Seq<ColumnSpec>, header: Seq<CellValue>, sample: Seq<CellValue>)
    requires
        specs_match(cs, header, sample),
    ensures
        schema_text(cs) == sheet_schema_text(header, sample, header.len()),
    decreases cs.len(),
{
    if cs.len() > 0 {
        let n = (cs.len() - 1) as nat;
        let h2 = header.subrange(0, n as int);
        assert(column_from(cs[n as int], header[n as int], sample[n as int]));
        assert(specs_match(cs.drop_last(), h2, sample)) by {
            assert forall|i: int| 0 <= i < h2.len() implies column_from(#[trigger] cs.drop_last()[i], h2[i], sample[i]) by {
                assert(column_from(cs[i], header[i], sample[i]));
            }
        }
        lemma_schema_of_sheet(cs.drop_last(), h2, sample);
        lemma_sheet_schema_prefix(header, h2, sample, n);
    }
}

proof fn lemma_sheet_schema_prefix(a: Seq<CellValue>, b: Seq<CellValue>, sample: Seq<CellValue>, n: nat)
    requires
        n <= a.len(),
        n <= b.len(),
        forall|i: int| 0 <= i < n ==> a[i] == b[i],
    ensures
        sheet_schema_text(a, sample, n) == sheet_schema_text(b, sample, n),
    decreases n,
{
    if n > 0 {
        lemma_sheet_schema_prefix(a, b, sample, (n - 1) as nat);
    }
}

/// Declaration lines of the columns, in the given order.
pub open spec fn schema_text(cs: Seq<ColumnSpec>) -> Seq<char>
    decreases cs.len(),
{
    if cs.len() == 0 {
        Seq::empty()
    } else {
        schema_text(cs.drop_last()) + column_line(cs.last())
    }
}

/// The table-definition block: one declaration line per column, in order.
pub fn render_schema(columns: &Vec<ColumnSpec>) -> (r: String)
    ensures
        r@ == schema_text(columns@),
{
    let mut r = String::new();
    let mut i: usize = 0;
    while i < columns.len()
        invariant
            i <= columns@.len(),
            r@ == schema_text(columns@.subrange(0, i as int)),
        decreases columns@.len() - i,
    {
        let c = &columns[i];
        r.append("            $table->");
        r.append(type_keyword(c.inferred_type));
        r.append("('");
        r.append(c.name.as_str());
        r.append("')");
        if c.nullable {
            r.append("->nullable()");
        }
        r.append(";\n");
        assert(columns@.subrange(0, i + 1).drop_last() =~= columns@.subrange(0, i as int));
        i = i + 1;
        assert(r@ =~= schema_text(columns@.subrange(0, i as int)));
    }
    assert(columns@.subrange(0, i as int) =~= columns@);
    r
}

} // verus!
