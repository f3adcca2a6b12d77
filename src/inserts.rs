//! Batched insert statements: data rows split into chunks of a fixed
//! number of rows, each chunk rendered as one insert statement.
use vstd::prelude::*;
use vstd::arithmetic::div_mod::lemma_fundamental_div_mod_converse;
use crate::cell::{CellValue, literal_spec, push_literal};
use crate::schema::{MigrationError, name_views};

verus! {

/// One `'name' => literal,` entry of a row.
pub open spec fn entry_text(name: Seq<char>, c: CellValue) -> Seq<char> {
    "                '"@ + name + "' => "@ + literal_spec(c) + ",\n"@
}

/// Entries of the first `n` cells of a row.
pub open spec fn entries_text(names: Seq<Seq<char>>, row: Seq<CellValue>, n: nat) -> Seq<char>
    decreases n,
{
    if n == 0 {
        Seq::empty()
    } else {
        entries_text(names, row, (n - 1) as nat) + entry_text(names[n - 1], row[n - 1])
    }
}

/// One row of an insert statement.
pub open spec fn row_text(names: Seq<Seq<char>>, row: Seq<CellValue>) -> Seq<char> {
    "            [\n"@ + entries_text(names, row, row.len()) + "            ],\n"@
}

/// Consecutive rows.
pub open spec fn rows_text(names: Seq<Seq<char>>, rows: Seq<Seq<CellValue>>) -> Seq<char>
    decreases rows.len(),
{
    if rows.len() == 0 {
        Seq::empty()
    } else {
        rows_text(names, rows.drop_last()) + row_text(names, rows.last())
    }
}

/// One batch-insert statement holding the given rows.
pub open spec fn statement_text(table: Seq<char>, names: Seq<Seq<char>>, rows: Seq<Seq<CellValue>>) -> Seq<char> {
    "        $data = [\n"@ + rows_text(names, rows) + "        ];\n\n        DB::table('"@ + table
        + "')->insert($data);\n"@
}

/// Number of chunks of at most `k` rows that `r` rows make: `ceil(r / k)`.
pub open spec fn n_chunks(r: nat, k: nat) -> nat {
    ((r + k - 1) / (k as int)) as nat
}

pub open spec fn chunk_end(r: nat, k: nat, j: nat) -> nat {
    if j * k + k <= r { j * k + k } else { r }
}

/// Number of rows in chunk `j`.
pub open spec fn chunk_len(r: nat, k: nat, j: nat) -> int {
    chunk_end(r, k, j) - j * k
}

/// Rows of chunk `j`: from `j * k` up to `k` rows.
pub open spec fn chunk_rows(rows: Seq<Seq<CellValue>>, k: nat, j: nat) -> Seq<Seq<CellValue>> {
    rows.subrange((j * k) as int, chunk_end(rows.len(), k, j) as int)
}

/// The first `j` statements, separated by blank lines.
pub open spec fn statements_text(
    table: Seq<char>,
    names: Seq<Seq<char>>,
    rows: Seq<Seq<CellValue>>,
    k: nat,
    j: nat,
) -> Seq<char>
    decreases j,
{
    if j == 0 {
        Seq::empty()
    } else {
        statements_text(table, names, rows, k, (j - 1) as nat) + (if j > 1 {
            "\n"@
        } else {
            Seq::empty()
        }) + statement_text(table, names, chunk_rows(rows, k, (j - 1) as nat))
    }
}

/// The insert block: nothing for no rows, else a comment line and one
/// statement per chunk.
pub open spec fn inserts_text(table: Seq<char>, names: Seq<Seq<char>>, rows: Seq<Seq<CellValue>>, k: nat) -> Seq<char> {
    if rows.len() == 0 {
        Seq::empty()
    } else {
        "        // Insert data\n"@ + statements_text(table, names, rows, k, n_chunks(rows.len(), k))
    }
}

/// The cells of each row.
pub open spec fn rows_view(rows: Seq<Vec<CellValue>>) -> Seq<Seq<CellValue>> {
    rows.map_values(|r: Vec<CellValue>| r@)
}

/// Row `j` does not hold one value per column.
pub open spec fn row_mismatch(n: nat, rows: Seq<Seq<CellValue>>, j: int) -> bool {
    0 <= j < rows.len() && rows[j].len() != n
}

/// `j` is the first row that does not hold `n` values.
pub open spec fn first_mismatch(n: nat, rows: Seq<Seq<CellValue>>, j: int) -> bool {
    row_mismatch(n, rows, j) && forall|k: int| 0 <= k < j ==> rows[k].len() == n
}

/// What rendering the insert block gives: an error for a zero chunk size or
/// for the first row of the wrong length, else the block.
pub open spec fn inserts_outcome(
    table: Seq<char>,
    names: Seq<Seq<char>>,
    rows: Seq<Seq<CellValue>>,
    k: nat,
) -> Result<Seq<char>, MigrationError> {
    if k == 0 {
        Err(MigrationError::InvalidChunkSize)
    } else if exists|j: int| row_mismatch(names.len(), rows, j) {
        let j = choose|j: int| first_mismatch(names.len(), rows, j);
        Err(MigrationError::ArityMismatch {
            row: (j + 1) as usize,
            expected: names.len() as usize,
            found: rows[j].len() as usize,
        })
    } else {
        Ok(inserts_text(table, names, rows, k))
    }
}

/// Sum of the lengths of the first `m` chunks.
pub open spec fn chunk_len_sum(r: nat, k: nat, m: nat) -> int
    decreases m,
{
    if m == 0 {
        0
    } else {
        chunk_len_sum(r, k, (m - 1) as nat) + chunk_len(r, k, (m - 1) as nat)
    }
}

proof fn lemma_chunk_count(r: nat, k: nat, j: nat)
    requires
        k >= 1,
        r >= 1,
        j >= 1,
        (j - 1) * k < r <= j * k,
    ensures
        n_chunks(r, k) == j,
{
    assert(j * k == (j - 1) * k + k) by (nonlinear_arith);
    let rem: int = r + k - 1 - j * k;
    assert(0 <= rem < k);
    lemma_fundamental_div_mod_converse(r + k - 1, k as int, j as int, rem);
}

proof fn lemma_chunk_sum(r: nat, k: nat, m: nat)
    requires
        k >= 1,
        m == 0 || (m - 1) * k < r,
    ensures
        chunk_len_sum(r, k, m) == if m * k <= r { (m * k) as int } else { r as int },
    decreases m,
{
    if m > 0 {
        let p = (m - 1) as nat;
        assert(m * k == p * k + k) by (nonlinear_arith)
            requires m == p + 1;
        if p > 0 {
            assert((p - 1) * k < p * k) by (nonlinear_arith)
                requires p >= 1, k >= 1;
        }
        lemma_chunk_sum(r, k, p);
    }
}

/// Splitting `r` rows into chunks of at most `k` (k >= 1) makes `ceil(r / k)`
/// chunks, none for no rows; every chunk but the last holds exactly `k` rows,
/// each holds at least one, and their sizes add up to `r`.
pub proof fn lemma_chunks_partition(rows: Seq<Seq<CellValue>>, k: nat)
    requires
        k >= 1,
    ensures
        n_chunks(rows.len(), k) == 0 <==> rows.len() == 0,
        forall|j: nat| j + 1 < n_chunks(rows.len(), k) ==> #[trigger] chunk_rows(rows, k, j).len() == k,
        forall|j: nat| j < n_chunks(rows.len(), k) ==> 1 <= #[trigger] chunk_rows(rows, k, j).len() <= k,
        chunk_len_sum(rows.len(), k, n_chunks(rows.len(), k)) == rows.len(),
{
    let r = rows.len();
    let n = n_chunks(r, k);
    if r == 0 {
        assert(n == 0) by {
            lemma_fundamental_div_mod_converse(k - 1, k as int, 0, k - 1);
        }
    } else {
        let j = ((r - 1) / (k as int) + 1) as nat;
        assert((j - 1) * k < r <= j * k) by (nonlinear_arith)
            requires j == (r - 1) / (k as int) + 1, k >= 1, r >= 1;
        lemma_chunk_count(r, k, j);
        lemma_chunk_sum(r, k, n);
        assert forall|i: nat| i < n implies 1 <= #[trigger] chunk_rows(rows, k, i).len() <= k
            && (i + 1 < n ==> chunk_rows(rows, k, i).len() == k) by {
            assert(i * k <= (n - 1) * k) by (nonlinear_arith)
                requires i < n, k >= 1;
            if i + 1 < n {
                assert(i * k + k <= (n - 1) * k) by (nonlinear_arith)
                    requires i + 1 < n, k >= 1;
            }
        }
    }
}

/// Appends the entries of one row.
fn push_row(out: &mut String, names: &Vec<String>, row: &Vec<CellValue>)
    requires
        row@.len() == names@.len(),
    ensures
        final(out)@ == old(out)@ + row_text(name_views(names@), row@),
{
    let ghost ns = name_views(names@);
    out.append("            [\n");
    let ghost base = out@;
    let mut i: usize = 0;
    while i < row.len()
        invariant
            ns == name_views(names@),
            row@.len() == names@.len(),
            i <= row@.len(),
            out@ == base + entries_text(ns, row@, i as nat),
        decreases row@.len() - i,
    {
        out.append("                '");
        out.append(names[i].as_str());
        out.append("' => ");
        push_literal(out, &row[i]);
        out.append(",\n");
        i = i + 1;
        assert(out@ =~= base + entries_text(ns, row@, i as nat));
    }
    out.append("            ],\n");
    assert(out@ =~= old(out)@ + row_text(ns, row@));
}

/// Appends one statement holding rows `start..end`.
fn push_statement(
    out: &mut String,
    table: &str,
    names: &Vec<String>,
    rows: &Vec<Vec<CellValue>>,
    start: usize,
    end: usize,
)
    requires
        start <= end <= rows@.len(),
        forall|j: int| 0 <= j < rows@.len() ==> #[trigger] rows@[j]@.len() == names@.len(),
    ensures
        final(out)@ == old(out)@ + statement_text(
            table@,
            name_views(names@),
            rows@.subrange(start as int, end as int).map_values(|r: Vec<CellValue>| r@),
        ),
{
    let ghost ns = name_views(names@);
    let ghost all = rows@.map_values(|r: Vec<CellValue>| r@);
    out.append("        $data = [\n");
    let ghost base = out@;
    let mut i: usize = start;
    while i < end
        invariant
            ns == name_views(names@),
            all == rows@.map_values(|r: Vec<CellValue>| r@),
            start <= i <= end <= rows@.len(),
            forall|j: int| 0 <= j < rows@.len() ==> #[trigger] rows@[j]@.len() == names@.len(),
            out@ == base + rows_text(ns, all.subrange(start as int, i as int)),
        decreases end - i,
    {
        push_row(out, names, &rows[i]);
        assert(all.subrange(start as int, i + 1).drop_last() =~= all.subrange(start as int, i as int));
        i = i + 1;
        assert(out@ =~= base + rows_text(ns, all.subrange(start as int, i as int)));
    }
    out.append("        ];\n\n        DB::table('");
    out.append(table);
    out.append("')->insert($data);\n");
    assert(rows@.subrange(start as int, end as int).map_values(|r: Vec<CellValue>| r@) =~= all.subrange(
        start as int,
        end as int,
    ));
    assert(out@ =~= old(out)@ + statement_text(table@, ns, all.subrange(start as int, end as int)));
}

/// Index of the first row that does not hold `n` values, if any.
pub fn first_arity_mismatch(n: usize, rows: &Vec<Vec<CellValue>>) -> (r: Option<usize>)
    ensures
        match r {
            Some(j) => j < rows@.len() && row_mismatch(n as nat, rows_view(rows@), j as int)
                && forall|k: int| 0 <= k < j ==> rows@[k]@.len() == n,
            None => forall|k: int| 0 <= k < rows@.len() ==> #[trigger] rows@[k]@.len() == n,
        },
{
    let mut j: usize = 0;
    while j < rows.len()
        invariant
            j <= rows@.len(),
            forall|k: int| 0 <= k < j ==> #[trigger] rows@[k]@.len() == n,
        decreases rows@.len() - j,
    {
        if rows[j].len() != n {
            return Some(j);
        }
        j = j + 1;
    }
    None
}

/// The insert block for the data rows, `chunk_size` rows per statement.
/// Errors: `chunk_size` is zero; a row does not hold one value per column
/// (rows are counted over the whole sheet, the header being row 0).
pub fn render_inserts(
    table: &str,
    names: &Vec<String>,
    rows: &Vec<Vec<CellValue>>,
    chunk_size: usize,
) -> (r: Result<String, MigrationError>)
    ensures
        match r {
            Ok(s) => inserts_outcome(table@, name_views(names@), rows_view(rows@), chunk_size as nat) == Ok::<Seq<char>, MigrationError>(s@),
            Err(e) => inserts_outcome(table@, name_views(names@), rows_view(rows@), chunk_size as nat) == Err::<Seq<char>, MigrationError>(e),
        },
{
    if chunk_size == 0 {
        return Err(MigrationError::InvalidChunkSize);
    }
    let n_rows = rows.len();
    match first_arity_mismatch(names.len(), rows) {
        Some(j) => {
            assert(j < n_rows);
            let ghost rv = rows_view(rows@);
            assert(first_mismatch(names@.len(), rv, j as int));
            assert(row_mismatch(name_views(names@).len(), rv, j as int));
            assert forall|q: int| first_mismatch(names@.len(), rv, q) implies q == j by {
                if q < j {
                    assert(rv[q].len() == names@.len());
                } else if q > j {
                    assert(rv[j as int].len() == names@.len());
                }
            }
            return Err(MigrationError::ArityMismatch {
                row: j + 1,
                expected: names.len(),
                found: rows[j].len(),
            });
        },
        None => {},
    }
    let ghost ns = name_views(names@);
    let ghost all = rows@.map_values(|r: Vec<CellValue>| r@);
    assert(all =~= rows_view(rows@));
    assert forall|j: int| !row_mismatch(names@.len(), all, j) by {
        if 0 <= j < rows@.len() {
            assert(rows@[j]@.len() == names@.len());
        }
    }
    let mut out = String::new();
    if rows.len() == 0 {
        return Ok(out);
    }
    out.append("        // Insert data\n");
    let ghost base = out@;
    let n = rows.len();
    let k = chunk_size;
    let mut start: usize = 0;
    let mut j: usize = 0;
    while start < n
        invariant
            ns == name_views(names@),
            all == rows@.map_values(|r: Vec<CellValue>| r@),
            n == rows@.len(),
            n >= 1,
            k >= 1,
            forall|q: int| 0 <= q < rows@.len() ==> #[trigger] rows@[q]@.len() == names@.len(),
            start <= n,
            start as int == if j * k <= n { (j * k) as int } else { n as int },
            j == 0 || (j - 1) * k < n,
            j <= n,
            out@ == base + statements_text(table@, ns, all, k as nat, j as nat),
        decreases n - start,
    {
        assert(start == j * k);
        assert(j <= j * k) by (nonlinear_arith)
            requires k >= 1;
        if j > 0 {
            out.append("\n");
        }
        let end: usize = if n - start > k { start + k } else { n };
        assert(end as int == chunk_end(n as nat, k as nat, j as nat));
        push_statement(&mut out, table, names, rows, start, end);
        assert(rows@.subrange(start as int, end as int).map_values(|r: Vec<CellValue>| r@) =~= chunk_rows(all, k as nat, j as nat));
        assert((j + 1) * k == j * k + k) by (nonlinear_arith);
        start = end;
        j = j + 1;
        assert(out@ =~= base + statements_text(table@, ns, all, k as nat, j as nat));
    }
    assert(j * k >= n);
    proof {
        lemma_chunk_count(n as nat, k as nat, j as nat);
    }
    Ok(out)
}

} // verus!
