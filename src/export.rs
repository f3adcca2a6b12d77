//! Paginated export: display text of database values, the count and page
//! queries, and the decisions of the page-by-page pull as a state machine.
use vstd::prelude::*;
use vstd::arithmetic::div_mod::{lemma_fundamental_div_mod, lemma_fundamental_div_mod_converse, lemma_mod_bound};
use crate::text::{dec_int, dec_nat, zero_pad, lossy_of, decimal_i64, decimal_u64, pad_zeros,
    utf8_lossy};

verus! {

/// One column value of a result row. Floating-point values are held as
/// their natural decimal text.
#[derive(Debug)]
pub enum DbValue {
    Bytes(Vec<u8>),
    Int(i64),
    UInt(u64),
    Float(String),
    Double(String),
    /// Year, month, day, hour, minute, second, microsecond.
    Date(u16, u8, u8, u8, u8, u8, u32),
    /// Negative, days, hours, minutes, seconds, microseconds.
    Time(bool, u32, u8, u8, u8, u32),
    Null,
}

pub open spec fn padded(n: nat, w: nat) -> Seq<char> {
    zero_pad(dec_nat(n), w)
}

/// `HH:MM:SS.ffffff`
pub open spec fn clock_text(h: nat, mi: nat, s: nat, us: nat) -> Seq<char> {
    padded(h, 2) + ":"@ + padded(mi, 2) + ":"@ + padded(s, 2) + "."@ + padded(us, 6)
}

/// Display text of a value; `None` (no such column) is empty.
pub open spec fn value_text(v: Option<DbValue>) -> Seq<char> {
    match v {
        None => Seq::empty(),
        Some(DbValue::Bytes(b)) => lossy_of(b@),
        Some(DbValue::Int(i)) => dec_int(i as int),
        Some(DbValue::UInt(u)) => dec_nat(u as nat),
        Some(DbValue::Float(s)) => s@,
        Some(DbValue::Double(s)) => s@,
        Some(DbValue::Date(y, mo, d, h, mi, s, us)) => padded(y as nat, 4) + "-"@ + padded(mo as nat, 2)
            + "-"@ + padded(d as nat, 2) + " "@ + clock_text(h as nat, mi as nat, s as nat, us as nat),
        Some(DbValue::Time(neg, days, h, mi, s, us)) => (if neg {
            "-"@
        } else {
            Seq::empty()
        }) + padded(days as nat, 3) + " "@ + clock_text(h as nat, mi as nat, s as nat, us as nat),
        Some(DbValue::Null) => "NULL"@,
    }
}

fn push_padded(out: &mut String, n: u64, w: usize)
    ensures
        final(out)@ == old(out)@ + padded(n as nat, w as nat),
{
    let d = decimal_u64(n);
    let p = pad_zeros(d.as_str(), w);
    out.append(p.as_str());
}

fn push_clock(out: &mut String, h: u8, mi: u8, s: u8, us: u32)
    ensures
        final(out)@ == old(out)@ + clock_text(h as nat, mi as nat, s as nat, us as nat),
{
    push_padded(out, h as u64, 2);
    out.append(":");
    push_padded(out, mi as u64, 2);
    out.append(":");
    push_padded(out, s as u64, 2);
    out.append(".");
    push_padded(out, us as u64, 6);
    assert(out@ =~= old(out)@ + clock_text(h as nat, mi as nat, s as nat, us as nat));
}

/// Display text of a value written to the output sheet.
pub fn convert_value_to_string(v: &Option<DbValue>) -> (r: String)
    ensures
        r@ == value_text(*v),
{
    match v {
        None => String::new(),
        Some(DbValue::Bytes(b)) => utf8_lossy(b.as_slice()),
        Some(DbValue::Int(i)) => decimal_i64(*i),
        Some(DbValue::UInt(u)) => decimal_u64(*u),
        Some(DbValue::Float(s)) => s.clone(),
        Some(DbValue::Double(s)) => s.clone(),
        Some(DbValue::Date(y, mo, d, h, mi, s, us)) => {
            let mut r = String::new();
            push_padded(&mut r, *y as u64, 4);
            r.append("-");
            push_padded(&mut r, *mo as u64, 2);
            r.append("-");
            push_padded(&mut r, *d as u64, 2);
            r.append(" ");
            push_clock(&mut r, *h, *mi, *s, *us);
            assert(r@ =~= value_text(*v));
            r
        },
        Some(DbValue::Time(neg, days, h, mi, s, us)) => {
            let mut r = String::new();
            if *neg {
                r.append("-");
            }
            push_padded(&mut r, *days as u64, 3);
            r.append(" ");
            push_clock(&mut r, *h, *mi, *s, *us);
            assert(r@ =~= value_text(*v));
            r
        },
        Some(DbValue::Null) => String::from_str("NULL"),
    }
}

/// Display texts of one result row, one per column.
pub fn row_to_strings(row: &Vec<Option<DbValue>>) -> (r: Vec<String>)
    ensures
        r@.len() == row@.len(),
        forall|i: int| 0 <= i < row@.len() ==> #[trigger] r@[i]@ == value_text(row@[i]),
{
    let mut r: Vec<String> = Vec::new();
    let mut i: usize = 0;
    while i < row.len()
        invariant
            i <= row@.len(),
            r@.len() == i,
            forall|k: int| 0 <= k < i ==> #[trigger] r@[k]@ == value_text(row@[k]),
        decreases row@.len() - i,
    {
        r.push(convert_value_to_string(&row[i]));
        i = i + 1;
    }
    r
}

pub open spec fn count_query_text(sql: Seq<char>) -> Seq<char> {
    "SELECT COUNT(*) FROM ("@ + sql + ") AS subquery"@
}

/// The query that counts the rows of `sql`.
pub fn count_query(sql: &str) -> (r: String)
    ensures
        r@ == count_query_text(sql@),
{
    let mut r = String::from_str("SELECT COUNT(*) FROM (");
    r.append(sql);
    r.append(") AS subquery");
    r
}

pub open spec fn page_query_text(sql: Seq<char>, limit: nat, offset: nat) -> Seq<char> {
    sql + " LIMIT "@ + dec_nat(limit) + " OFFSET "@ + dec_nat(offset)
}

/// `sql` restricted to `limit` rows from `offset`.
pub fn page_query(sql: &str, limit: u64, offset: u64) -> (r: String)
    ensures
        r@ == page_query_text(sql@, limit as nat, offset as nat),
{
    let mut r = String::from_str(sql);
    r.append(" LIMIT ");
    let l = decimal_u64(limit);
    r.append(l.as_str());
    r.append(" OFFSET ");
    let o = decimal_u64(offset);
    r.append(o.as_str());
    r
}

/// `ceil(total / page_size)`.
pub open spec fn pages_for(total: nat, page_size: nat) -> nat {
    ((total + page_size - 1) / (page_size as int)) as nat
}

/// Number of pages needed for `total` rows.
pub fn total_pages(total: u64, page_size: u64) -> (r: u64)
    requires
        page_size > 0,
    ensures
        r == pages_for(total as nat, page_size as nat),
{
    let q = total / page_size;
    let m = total % page_size;
    proof {
        assert(total == q * page_size + m) by (nonlinear_arith)
            requires q == total / page_size, m == total % page_size, page_size > 0;
        if m == 0 {
            lemma_fundamental_div_mod_converse(
                total + page_size - 1,
                page_size as int,
                q as int,
                page_size - 1,
            );
        } else {
            assert((q + 1) * page_size == q * page_size + page_size) by (nonlinear_arith);
            lemma_fundamental_div_mod_converse(
                total + page_size - 1,
                page_size as int,
                q + 1,
                m - 1,
            );
        }
    }
    assert(q <= total) by (nonlinear_arith)
        requires q == total / page_size, page_size > 0;
    if m == 0 {
        q
    } else {
        assert(q < total) by (nonlinear_arith)
            requires q == total / page_size, page_size > 0, m == total % page_size, m > 0;
        q + 1
    }
}

/// Phase of an export run.
#[derive(Clone, Copy, Debug, PartialEq, Eq, Structural)]
pub enum ExportPhase {
    Init,
    Counting,
    Paging,
    Done,
    Failed,
}

/// Progress of an export run.
#[derive(Clone, Copy, Debug, PartialEq, Eq, Structural)]
pub struct ExportCursor {
    pub total_row_count: u64,
    pub page_size: u64,
    pub current_page_index: u64,
    pub rows_emitted_so_far: u64,
}

/// State of an export run.
#[derive(Clone, Copy, Debug, PartialEq, Eq, Structural)]
pub struct ExportState {
    pub phase: ExportPhase,
    pub cursor: ExportCursor,
}

/// Why an export run stops without a result.
#[derive(Clone, Copy, Debug, PartialEq, Eq, Structural)]
pub enum ExportError {
    /// The count query returned no row.
    NoCount,
    /// Rows per page must be positive.
    InvalidPageSize,
    /// A page returned another number of rows than the count implied.
    RowCountChanged { page: u64, expected: u64, found: u64 },
    /// A query, a conversion or a sink write failed.
    Outside,
    /// An event that the current phase does not expect.
    UnexpectedEvent,
}

/// What happened outside since the last step.
#[derive(Clone, Copy, Debug, PartialEq, Eq, Structural)]
pub enum ExportEvent {
    Start,
    /// Result of the count query.
    Counted(Option<u64>),
    /// All rows of the requested page were written; `rows` of them.
    PageWritten { rows: u64 },
    /// A query or the sink failed.
    Failed,
}

/// One page to fetch: the page query's limit and offset, and the sheet row
/// index of its first row (the header sits at row 0).
#[derive(Clone, Copy, Debug, PartialEq, Eq, Structural)]
pub struct PageRequest {
    pub limit: u64,
    pub offset: u64,
    pub first_row: u64,
}

/// What to do next.
#[derive(Clone, Copy, Debug, PartialEq, Eq, Structural)]
pub enum ExportAction {
    CountRows,
    WriteHeaderThenFetch(PageRequest),
    WriteHeaderThenSave,
    FetchPage(PageRequest),
    Save,
    Abort(ExportError),
}

/// Rows that page `i` must hold.
pub open spec fn page_rows(total: nat, page_size: nat, i: nat) -> nat {
    if total >= i * page_size + page_size {
        page_size
    } else {
        (total - i * page_size) as nat
    }
}

impl ExportState {
    /// The progress a state claims is consistent.
    pub open spec fn wf(self) -> bool {
        let c = self.cursor;
        &&& c.rows_emitted_so_far <= c.total_row_count
        &&& (self.phase is Paging || self.phase is Done) ==> c.page_size > 0
        &&& self.phase is Paging ==> {
            &&& c.rows_emitted_so_far == c.current_page_index * c.page_size
            &&& c.rows_emitted_so_far < c.total_row_count
        }
        &&& self.phase is Done ==> c.rows_emitted_so_far == c.total_row_count
    }

    pub open spec fn with_phase(self, phase: ExportPhase) -> ExportState {
        ExportState { phase, cursor: self.cursor }
    }

    pub open spec fn fail(self, e: ExportError) -> (ExportState, ExportAction) {
        (self.with_phase(ExportPhase::Failed), ExportAction::Abort(e))
    }

    /// The state and action that follow an event.
    pub open spec fn next(self, e: ExportEvent) -> (ExportState, ExportAction) {
        let c = self.cursor;
        match (self.phase, e) {
            (_, ExportEvent::Failed) => self.fail(ExportError::Outside),
            (ExportPhase::Init, ExportEvent::Start) => (
                self.with_phase(ExportPhase::Counting),
                ExportAction::CountRows,
            ),
            (ExportPhase::Counting, ExportEvent::Counted(None)) => self.fail(ExportError::NoCount),
            (ExportPhase::Counting, ExportEvent::Counted(Some(n))) => {
                if c.page_size == 0 {
                    self.fail(ExportError::InvalidPageSize)
                } else {
                    let start = ExportCursor {
                        total_row_count: n,
                        page_size: c.page_size,
                        current_page_index: 0,
                        rows_emitted_so_far: 0,
                    };
                    if n == 0 {
                        (ExportState { phase: ExportPhase::Done, cursor: start }, ExportAction::WriteHeaderThenSave)
                    } else {
                        (
                            ExportState { phase: ExportPhase::Paging, cursor: start },
                            ExportAction::WriteHeaderThenFetch(
                                PageRequest { limit: c.page_size, offset: 0, first_row: 1 },
                            ),
                        )
                    }
                }
            },
            (ExportPhase::Paging, ExportEvent::PageWritten { rows }) => {
                let expected = page_rows(
                    c.total_row_count as nat,
                    c.page_size as nat,
                    c.current_page_index as nat,
                );
                if rows != expected {
                    self.fail(
                        ExportError::RowCountChanged {
                            page: c.current_page_index,
                            expected: expected as u64,
                            found: rows,
                        },
                    )
                } else {
                    let emitted = (c.rows_emitted_so_far + rows) as u64;
                    if emitted < c.total_row_count {
                        (
                            ExportState {
                                phase: ExportPhase::Paging,
                                cursor: ExportCursor {
                                    current_page_index: (c.current_page_index + 1) as u64,
                                    rows_emitted_so_far: emitted,
                                    ..c
                                },
                            },
                            ExportAction::FetchPage(
                                PageRequest {
                                    limit: c.page_size,
                                    offset: emitted,
                                    first_row: (emitted + 1) as u64,
                                },
                            ),
                        )
                    } else {
                        (
                            ExportState {
                                phase: ExportPhase::Done,
                                cursor: ExportCursor { rows_emitted_so_far: emitted, ..c },
                            },
                            ExportAction::Save,
                        )
                    }
                }
            },
            _ => self.fail(ExportError::UnexpectedEvent),
        }
    }

    /// A run that has not started, pulling `page_size` rows per page.
    pub fn new(page_size: u64) -> (r: ExportState)
        ensures
            r.wf(),
            r.phase is Init,
            r.cursor == (ExportCursor {
                total_row_count: 0,
                page_size,
                current_page_index: 0,
                rows_emitted_so_far: 0,
            }),
    {
        ExportState {
            phase: ExportPhase::Init,
            cursor: ExportCursor {
                total_row_count: 0,
                page_size,
                current_page_index: 0,
                rows_emitted_so_far: 0,
            },
        }
    }

    fn failed(&self, e: ExportError) -> (r: (ExportState, ExportAction))
        ensures
            r == self.fail(e),
    {
        (ExportState { phase: ExportPhase::Failed, cursor: self.cursor }, ExportAction::Abort(e))
    }

    /// Decides the next state and action after an event.
    pub fn step(&self, e: ExportEvent) -> (r: (ExportState, ExportAction))
        requires
            self.wf(),
        ensures
            r == self.next(e),
            r.0.wf(),
    {
        let c = self.cursor;
        match e {
            ExportEvent::Failed => {
                return self.failed(ExportError::Outside);
            },
            _ => {},
        }
        match (self.phase, e) {
            (ExportPhase::Init, ExportEvent::Start) => (
                ExportState { phase: ExportPhase::Counting, cursor: c },
                ExportAction::CountRows,
            ),
            (ExportPhase::Counting, ExportEvent::Counted(None)) => self.failed(ExportError::NoCount),
            (ExportPhase::Counting, ExportEvent::Counted(Some(n))) => {
                if c.page_size == 0 {
                    self.failed(ExportError::InvalidPageSize)
                } else {
                    let start = ExportCursor {
                        total_row_count: n,
                        page_size: c.page_size,
                        current_page_index: 0,
                        rows_emitted_so_far: 0,
                    };
                    if n == 0 {
                        (ExportState { phase: ExportPhase::Done, cursor: start }, ExportAction::WriteHeaderThenSave)
                    } else {
                        (
                            ExportState { phase: ExportPhase::Paging, cursor: start },
                            ExportAction::WriteHeaderThenFetch(
                                PageRequest { limit: c.page_size, offset: 0, first_row: 1 },
                            ),
                        )
                    }
                }
            },
            (ExportPhase::Paging, ExportEvent::PageWritten { rows }) => {
                let i = c.current_page_index;
                let ps = c.page_size;
                let left = c.total_row_count - c.rows_emitted_so_far;
                let expected = if left >= ps { ps } else { left };
                assert(expected == page_rows(c.total_row_count as nat, ps as nat, i as nat));
                if rows != expected {
                    self.failed(ExportError::RowCountChanged { page: i, expected, found: rows })
                } else {
                    let emitted = c.rows_emitted_so_far + rows;
                    if emitted < c.total_row_count {
                        assert(i <= i * ps) by (nonlinear_arith)
                            requires ps >= 1;
                        assert((i + 1) * ps == i * ps + ps) by (nonlinear_arith);
                        (
                            ExportState {
                                phase: ExportPhase::Paging,
                                cursor: ExportCursor {
                                    total_row_count: c.total_row_count,
                                    page_size: ps,
                                    current_page_index: i + 1,
                                    rows_emitted_so_far: emitted,
                                },
                            },
                            ExportAction::FetchPage(
                                PageRequest { limit: ps, offset: emitted, first_row: emitted + 1 },
                            ),
                        )
                    } else {
                        (
                            ExportState {
                                phase: ExportPhase::Done,
                                cursor: ExportCursor {
                                    total_row_count: c.total_row_count,
                                    page_size: ps,
                                    current_page_index: i,
                                    rows_emitted_so_far: emitted,
                                },
                            },
                            ExportAction::Save,
                        )
                    }
                }
            },
            _ => self.failed(ExportError::UnexpectedEvent),
        }
    }
}

/// While paging, the current page is one of the `ceil(total / page_size)`
/// pages of the run, and the rows written so far are exactly the pages before it.
pub proof fn lemma_paging_within_pages(s: ExportState)
    requires
        s.wf(),
        s.phase is Paging,
    ensures
        s.cursor.current_page_index < pages_for(s.cursor.total_row_count as nat, s.cursor.page_size as nat),
        s.cursor.rows_emitted_so_far == s.cursor.current_page_index * s.cursor.page_size,
{
    let t = s.cursor.total_row_count as int;
    let ps = s.cursor.page_size as int;
    let i = s.cursor.current_page_index as int;
    let x = t + ps - 1;
    lemma_fundamental_div_mod(x, ps);
    lemma_mod_bound(x, ps);
    let q = x / ps;
    let r = x % ps;
    assert(i * ps < t);
    assert(q > i) by (nonlinear_arith)
        requires x == ps * q + r, 0 <= r < ps, x == t + ps - 1, i * ps < t, ps > 0;
}

} // verus!
