use sheet_migrate::export::{
    convert_value_to_string, count_query, page_query, row_to_strings, total_pages, DbValue,
    ExportAction, ExportError, ExportEvent, ExportPhase, ExportState, PageRequest,
};

#[test]
fn value_display_texts() {
    assert_eq!(convert_value_to_string(&None), "");
    assert_eq!(convert_value_to_string(&Some(DbValue::Null)), "NULL");
    assert_eq!(convert_value_to_string(&Some(DbValue::Bytes(b"hi".to_vec()))), "hi");
    assert_eq!(convert_value_to_string(&Some(DbValue::Bytes(vec![b'a', 0xff]))), "a\u{FFFD}");
    assert_eq!(convert_value_to_string(&Some(DbValue::Int(-5))), "-5");
    assert_eq!(convert_value_to_string(&Some(DbValue::UInt(u64::MAX))), "18446744073709551615");
    assert_eq!(convert_value_to_string(&Some(DbValue::Double("2.5".to_string()))), "2.5");
    assert_eq!(
        convert_value_to_string(&Some(DbValue::Date(2024, 1, 2, 3, 4, 5, 6))),
        "2024-01-02 03:04:05.000006"
    );
    assert_eq!(
        convert_value_to_string(&Some(DbValue::Time(true, 1, 2, 3, 4, 5))),
        "-001 02:03:04.000005"
    );
    assert_eq!(
        convert_value_to_string(&Some(DbValue::Time(false, 1234, 12, 30, 59, 999999))),
        "1234 12:30:59.999999"
    );
    let row = vec![Some(DbValue::Int(1)), None, Some(DbValue::Null)];
    assert_eq!(row_to_strings(&row), vec!["1".to_string(), String::new(), "NULL".to_string()]);
}

#[test]
fn queries() {
    assert_eq!(count_query("SELECT * FROM t"), "SELECT COUNT(*) FROM (SELECT * FROM t) AS subquery");
    assert_eq!(page_query("SELECT * FROM t", 100, 200), "SELECT * FROM t LIMIT 100 OFFSET 200");
    assert_eq!(total_pages(0, 10), 0);
    assert_eq!(total_pages(250, 100), 3);
    assert_eq!(total_pages(300, 100), 3);
    assert_eq!(total_pages(u64::MAX, 1), u64::MAX);
    assert_eq!(total_pages(u64::MAX, u64::MAX), 1);
}

#[test]
fn empty_result_goes_straight_to_done() {
    let s = ExportState::new(10);
    assert_eq!(s.phase, ExportPhase::Init);
    let (s, a) = s.step(ExportEvent::Start);
    assert_eq!(s.phase, ExportPhase::Counting);
    assert_eq!(a, ExportAction::CountRows);
    let (s, a) = s.step(ExportEvent::Counted(Some(0)));
    assert_eq!(s.phase, ExportPhase::Done);
    assert_eq!(a, ExportAction::WriteHeaderThenSave);
    assert_eq!(s.cursor.rows_emitted_so_far, 0);
}

#[test]
fn pages_are_pulled_in_order() {
    let s = ExportState::new(100);
    let (s, _) = s.step(ExportEvent::Start);
    let (s, a) = s.step(ExportEvent::Counted(Some(250)));
    assert_eq!(a, ExportAction::WriteHeaderThenFetch(PageRequest { limit: 100, offset: 0, first_row: 1 }));
    let (s, a) = s.step(ExportEvent::PageWritten { rows: 100 });
    assert_eq!(a, ExportAction::FetchPage(PageRequest { limit: 100, offset: 100, first_row: 101 }));
    assert_eq!(s.cursor.current_page_index, 1);
    let (s, a) = s.step(ExportEvent::PageWritten { rows: 100 });
    assert_eq!(a, ExportAction::FetchPage(PageRequest { limit: 100, offset: 200, first_row: 201 }));
    let (s, a) = s.step(ExportEvent::PageWritten { rows: 50 });
    assert_eq!(a, ExportAction::Save);
    assert_eq!(s.phase, ExportPhase::Done);
    assert_eq!(s.cursor.rows_emitted_so_far, 250);
}

#[test]
fn export_failures() {
    let s = ExportState::new(100);
    let (counting, _) = s.step(ExportEvent::Start);
    let (f, a) = counting.step(ExportEvent::Counted(None));
    assert_eq!(f.phase, ExportPhase::Failed);
    assert_eq!(a, ExportAction::Abort(ExportError::NoCount));
    let (paging, _) = counting.step(ExportEvent::Counted(Some(150)));
    let (_, a) = paging.step(ExportEvent::PageWritten { rows: 99 });
    assert_eq!(a, ExportAction::Abort(ExportError::RowCountChanged { page: 0, expected: 100, found: 99 }));
    let (_, a) = paging.step(ExportEvent::Failed);
    assert_eq!(a, ExportAction::Abort(ExportError::Outside));
    let (_, a) = paging.step(ExportEvent::Start);
    assert_eq!(a, ExportAction::Abort(ExportError::UnexpectedEvent));
    let zero = ExportState::new(0);
    let (z, _) = zero.step(ExportEvent::Start);
    let (_, a) = z.step(ExportEvent::Counted(Some(5)));
    assert_eq!(a, ExportAction::Abort(ExportError::InvalidPageSize));
}
