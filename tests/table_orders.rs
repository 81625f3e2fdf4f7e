use table_orders::errors::{generate_mysql_value_error, MysqlValueError, PersistenceError};
use table_orders::fetch_table_items::{
    convert_row_to_table_item, generate_query_and_params, get_table_items_result,
    table_items_from_rows,
};
use table_orders::model::{SqlParam, TableItem};
use table_orders::persist_table_items::{
    add_items_result, generate_failed_response, generate_insert_statement, generate_query,
    generate_success_response, generate_table_item_records, is_blank, item_ids_from,
    plan_add_items, AddPlan,
};
use table_orders::remove_table_items::{
    generate_delete_statement, remove_table_item_result,
};
use table_orders::text::text_then_number;
use table_orders::transaction::{
    StatementKind, Transaction, TxnAction, TxnEvent, TxnOutcome, TxnState,
};
use table_orders::values::{column_datetime_text, column_name_text, column_u32, ColumnValue, RawRow};

fn names(v: &[&str]) -> Vec<String> {
    v.iter().map(|s| s.to_string()).collect()
}

fn stored_row(id: u64, table: u64, name: &str, minutes: u64) -> RawRow {
    RawRow {
        values: vec![
            Some(ColumnValue::UInt(id)),
            Some(ColumnValue::UInt(table)),
            Some(ColumnValue::Bytes(name.as_bytes().to_vec())),
            Some(ColumnValue::UInt(minutes)),
            Some(ColumnValue::Date(2024, 3, 5, 7, 8, 9, 0)),
        ],
    }
}

fn run(kind: StatementKind, events: &[TxnEvent]) -> Transaction {
    let mut t = Transaction::new(kind);
    for e in events {
        t.step(*e);
    }
    t
}

#[test]
fn select_without_filters() {
    let st = generate_query_and_params(4, None, None);
    assert_eq!(st.sql, "SELECT * FROM table_items WHERE table_number = ?");
    assert_eq!(st.params, vec![SqlParam::Number(4)]);
    let st = generate_query_and_params(4, Some(vec![]), Some(vec![]));
    assert_eq!(st.sql, "SELECT * FROM table_items WHERE table_number = ?");
    assert_eq!(st.params, vec![SqlParam::Number(4)]);
}

#[test]
fn select_with_ids() {
    let st = generate_query_and_params(2, Some(vec![5, 6, 7]), None);
    assert_eq!(st.sql, "SELECT * FROM table_items WHERE table_number = ? AND ( item_id IN (?,?,?) )");
    assert_eq!(
        st.params,
        vec![SqlParam::Number(2), SqlParam::Number(5), SqlParam::Number(6), SqlParam::Number(7)]
    );
}

#[test]
fn select_with_names() {
    let st = generate_query_and_params(2, None, Some(names(&["Pasta"])));
    assert_eq!(st.sql, "SELECT * FROM table_items WHERE table_number = ? AND ( item_name IN (?) )");
    assert_eq!(st.params, vec![SqlParam::Number(2), SqlParam::Text("Pasta".to_string())]);
}

#[test]
fn select_with_ids_and_names() {
    let st = generate_query_and_params(9, Some(vec![1]), Some(names(&["Soup", "Tea"])));
    assert_eq!(
        st.sql,
        "SELECT * FROM table_items WHERE table_number = ? AND ( item_id IN (?) OR item_name IN (?,?) )"
    );
    assert_eq!(
        st.params,
        vec![
            SqlParam::Number(9),
            SqlParam::Number(1),
            SqlParam::Text("Soup".to_string()),
            SqlParam::Text("Tea".to_string()),
        ]
    );
}

#[test]
fn insert_query_text() {
    assert_eq!(
        generate_query(1),
        "INSERT INTO table_items (table_number, item_name, ordered_on, prepare_minutes) VALUES (?, ?, ?, ?)"
    );
    assert_eq!(
        generate_query(3),
        "INSERT INTO table_items (table_number, item_name, ordered_on, prepare_minutes) VALUES (?, ?, ?, ?), (?, ?, ?, ?), (?, ?, ?, ?)"
    );
}

#[test]
fn insert_statement_params() {
    let records = vec![
        ("Pasta".to_string(), "2024-01-02 03:04:05".to_string(), 7u32),
        ("Soup".to_string(), "2024-01-02 03:04:06".to_string(), 15u32),
    ];
    let st = generate_insert_statement(3, &records);
    assert_eq!(st.sql, generate_query(2));
    assert_eq!(
        st.params,
        vec![
            SqlParam::Number(3),
            SqlParam::Text("Pasta".to_string()),
            SqlParam::Text("2024-01-02 03:04:05".to_string()),
            SqlParam::Number(7),
            SqlParam::Number(3),
            SqlParam::Text("Soup".to_string()),
            SqlParam::Text("2024-01-02 03:04:06".to_string()),
            SqlParam::Number(15),
        ]
    );
}

#[test]
fn delete_statement() {
    let st = generate_delete_statement(4, 11);
    assert_eq!(st.sql, "DELETE FROM table_items WHERE table_number = ? and item_id = ?");
    assert_eq!(st.params, vec![SqlParam::Number(4), SqlParam::Number(11)]);
}

#[test]
fn maps_a_stored_row() {
    let item = convert_row_to_table_item(&stored_row(12, 4, "Pasta", 9)).unwrap();
    assert_eq!(
        item,
        TableItem {
            item_id: 12,
            table_number: 4,
            item_name: "Pasta".to_string(),
            ordered_on: "2024-03-05 07:08:09".to_string(),
            prepare_minutes: 9,
        }
    );
}

#[test]
fn row_missing_name_fails_with_missing_string() {
    let mut row = stored_row(1, 2, "x", 5);
    row.values[2] = None;
    let e = convert_row_to_table_item(&row).unwrap_err();
    assert_eq!(e.kind, MysqlValueError::MissingString);
    assert_eq!(e.column, "item_name");
    row.values.truncate(2);
    let e = convert_row_to_table_item(&row).unwrap_err();
    assert_eq!(e.kind, MysqlValueError::MissingString);
    assert_eq!(e.column, "item_name");
}

#[test]
fn row_errors_name_their_column() {
    let mut row = stored_row(1, 2, "x", 5);
    row.values[0] = Some(ColumnValue::Null);
    let e = convert_row_to_table_item(&row).unwrap_err();
    assert_eq!((e.kind, e.column.as_str()), (MysqlValueError::MissingInteger, "item_id"));

    let mut row = stored_row(1, 2, "x", 5);
    row.values[1] = Some(ColumnValue::Int(-3));
    let e = convert_row_to_table_item(&row).unwrap_err();
    assert_eq!((e.kind, e.column.as_str()), (MysqlValueError::MissingInteger, "table_number"));

    let mut row = stored_row(1, 2, "x", 5);
    row.values[3] = Some(ColumnValue::UInt(1 << 32));
    let e = convert_row_to_table_item(&row).unwrap_err();
    assert_eq!((e.kind, e.column.as_str()), (MysqlValueError::MissingInteger, "prepare_minutes"));

    let mut row = stored_row(1, 2, "x", 5);
    row.values[4] = Some(ColumnValue::Date(2023, 2, 29, 0, 0, 0, 0));
    let e = convert_row_to_table_item(&row).unwrap_err();
    assert_eq!((e.kind, e.column.as_str()), (MysqlValueError::MissingDatetime, "ordered_on"));

    let mut row = stored_row(1, 2, "x", 5);
    row.values[2] = Some(ColumnValue::Int(8));
    let e = convert_row_to_table_item(&row).unwrap_err();
    assert_eq!((e.kind, e.column.as_str()), (MysqlValueError::MissingString, "item_name"));
}

#[test]
fn integer_columns_from_text_and_signed_values() {
    assert_eq!(column_u32(Some(&ColumnValue::Bytes(b"42".to_vec()))), Some(42));
    assert_eq!(column_u32(Some(&ColumnValue::Bytes(b"+7".to_vec()))), Some(7));
    assert_eq!(column_u32(Some(&ColumnValue::Bytes(b"-0".to_vec()))), Some(0));
    assert_eq!(column_u32(Some(&ColumnValue::Bytes(b"-5".to_vec()))), None);
    assert_eq!(column_u32(Some(&ColumnValue::Bytes(b"4294967295".to_vec()))), Some(4294967295));
    assert_eq!(column_u32(Some(&ColumnValue::Bytes(b"4294967296".to_vec()))), None);
    assert_eq!(column_u32(Some(&ColumnValue::Bytes(b"".to_vec()))), None);
    assert_eq!(column_u32(Some(&ColumnValue::Bytes(b"1a".to_vec()))), None);
    assert_eq!(column_u32(Some(&ColumnValue::Int(4294967295))), Some(4294967295));
    assert_eq!(column_u32(Some(&ColumnValue::Int(-1))), None);
    assert_eq!(column_u32(Some(&ColumnValue::Fractional)), None);
    assert_eq!(column_u32(None), None);
}

#[test]
fn text_columns() {
    assert_eq!(column_name_text(Some(&ColumnValue::Bytes(vec![0x50, 0xff, 0x61]))), Some("P\u{FFFD}a".to_string()));
    assert_eq!(column_name_text(Some(&ColumnValue::Null)), None);
    assert_eq!(
        column_datetime_text(Some(&ColumnValue::Bytes(b"2020-01-01 00:00:00".to_vec()))),
        Some("2020-01-01 00:00:00".to_string())
    );
    assert_eq!(column_datetime_text(Some(&ColumnValue::Bytes(vec![0xff]))), None);
    assert_eq!(
        column_datetime_text(Some(&ColumnValue::Date(24, 2, 29, 23, 59, 59, 5))),
        Some("0024-02-29 23:59:59".to_string())
    );
    assert_eq!(
        column_datetime_text(Some(&ColumnValue::Date(10000, 12, 31, 0, 0, 0, 0))),
        Some("+10000-12-31 00:00:00".to_string())
    );
    assert_eq!(column_datetime_text(Some(&ColumnValue::Date(2024, 1, 1, 24, 0, 0, 0))), None);
    assert_eq!(column_datetime_text(Some(&ColumnValue::Time(false, 0, 1, 2, 3, 0))), None);
}

#[test]
fn fetch_of_no_rows_is_not_found() {
    assert_eq!(table_items_from_rows(&vec![]), Err(PersistenceError::ResourceNotFound));
    let mut bad = stored_row(1, 2, "x", 5);
    bad.values[2] = None;
    assert_eq!(table_items_from_rows(&vec![Some(bad), None]), Err(PersistenceError::ResourceNotFound));
}

#[test]
fn fetch_drops_unmappable_rows() {
    let mut bad = stored_row(2, 4, "Soup", 5);
    bad.values[2] = None;
    let rows = vec![Some(stored_row(1, 4, "Pasta", 6)), Some(bad), None, Some(stored_row(3, 4, "Tea", 7))];
    let items = table_items_from_rows(&rows).unwrap();
    assert_eq!(items.len(), 2);
    assert_eq!(items[0].item_name, "Pasta");
    assert_eq!(items[1].item_id, 3);
}

#[test]
fn fetch_returns_every_inserted_item() {
    let rows: Vec<Option<RawRow>> =
        (0..4).map(|i| Some(stored_row(20 + i, 8, "Pie", 5 + i))).collect();
    let items = table_items_from_rows(&rows).unwrap();
    assert_eq!(items.len(), 4);
    for (i, it) in items.iter().enumerate() {
        assert_eq!(it.item_id, 20 + i as u32);
        assert_eq!(it.table_number, 8);
        assert_eq!(it.item_name, "Pie");
        assert!(5 <= it.prepare_minutes && it.prepare_minutes < 16);
    }
}

#[test]
fn fetch_outcome_errors() {
    assert_eq!(get_table_items_result(false, Some(vec![])), Err(PersistenceError::DBConnError));
    assert_eq!(get_table_items_result(true, None), Err(PersistenceError::DBOpError));
    assert_eq!(get_table_items_result(true, Some(vec![])), Err(PersistenceError::ResourceNotFound));
    assert_eq!(get_table_items_result(true, Some(vec![Some(stored_row(1, 1, "A", 5))])).unwrap().len(), 1);
}

#[test]
fn blank_names() {
    assert!(is_blank(&"".to_string()));
    assert!(is_blank(&"   ".to_string()));
    assert!(is_blank(&" \t\n\u{3000}".to_string()));
    assert!(!is_blank(&" a ".to_string()));
}

#[test]
fn records_keep_non_blank_names() {
    let recs = generate_table_item_records(names(&["Pasta", "  ", "", "Soup"]));
    assert_eq!(recs.len(), 2);
    assert_eq!(recs[0].0, "Pasta");
    assert_eq!(recs[1].0, "Soup");
    for r in &recs {
        assert!(5 <= r.2 && r.2 < 16);
        assert_eq!(r.1.len(), 19);
        assert_eq!(&r.1[4..5], "-");
        assert_eq!(&r.1[10..11], " ");
    }
}

#[test]
fn all_blank_names_need_no_insert() {
    match plan_add_items(3, names(&["  ", "\t", ""])) {
        AddPlan::NothingToAdd(resp) => {
            assert_eq!(resp.status, "success");
            assert_eq!(resp.message, "Added 0 items on table 3");
            assert!(resp.items_ids.is_empty());
        }
        AddPlan::Insert { .. } => panic!("expected no insert"),
    }
}

#[test]
fn plan_inserts_the_kept_names() {
    match plan_add_items(6, names(&["Pasta", " ", "Soup"])) {
        AddPlan::Insert { records, statement } => {
            assert_eq!(records.len(), 2);
            assert_eq!(statement.sql, generate_query(2));
            assert_eq!(statement.params.len(), 8);
            assert_eq!(statement.params[1], SqlParam::Text("Pasta".to_string()));
            assert_eq!(statement.params[5], SqlParam::Text("Soup".to_string()));
            assert_eq!(statement.params[4], SqlParam::Number(6));
        }
        AddPlan::NothingToAdd(_) => panic!("expected an insert"),
    }
}

#[test]
fn add_success_reports_contiguous_ids() {
    let resp = add_items_result(4, 3, Ok(TxnOutcome::Applied { affected: 3, first_id: 10 })).unwrap();
    assert_eq!(resp.status, "success");
    assert_eq!(resp.message, "Added 3 items on table 4");
    assert_eq!(resp.items_ids, vec![10, 11, 12]);
}

#[test]
fn add_failure_and_hard_errors() {
    let resp = add_items_result(4, 3, Ok(TxnOutcome::RolledBack)).unwrap();
    assert_eq!(resp.status, "failed");
    assert_eq!(resp.message, "Can NOT add item(s) to table 4");
    assert!(resp.items_ids.is_empty());
    assert_eq!(add_items_result(4, 3, Err(PersistenceError::CommitError)), Err(PersistenceError::CommitError));
    assert_eq!(generate_failed_response(12).message, "Can NOT add item(s) to table 12");
    assert_eq!(generate_success_response(1, 2, vec![5, 6]).message, "Added 2 items on table 1");
}

#[test]
fn ids_up_to_the_largest() {
    assert_eq!(item_ids_from(4294967294, 2), vec![4294967294, 4294967295]);
    assert!(item_ids_from(0, 0).is_empty());
}

#[test]
fn insert_transaction_commits() {
    let mut t = Transaction::new(StatementKind::Insert { rows: 2 });
    assert_eq!(t.action(), TxnAction::AcquireConnection);
    assert_eq!(t.step(TxnEvent::Done), TxnAction::StartTransaction);
    assert_eq!(t.step(TxnEvent::Done), TxnAction::ExecuteStatement);
    assert_eq!(t.step(TxnEvent::Executed { affected: 2 }), TxnAction::ReadInsertId);
    assert_eq!(t.step(TxnEvent::InsertIdRead { id: Some(40) }), TxnAction::Commit);
    assert_eq!(t.step(TxnEvent::Done), TxnAction::Stop);
    assert_eq!(t.result(), Some(Ok(TxnOutcome::Applied { affected: 2, first_id: 40 })));
}

#[test]
fn transaction_hard_errors() {
    let t = run(StatementKind::Delete, &[TxnEvent::Failed]);
    assert_eq!(t.result(), Some(Err(PersistenceError::DBConnError)));
    let t = run(StatementKind::Delete, &[TxnEvent::Done, TxnEvent::Failed]);
    assert_eq!(t.result(), Some(Err(PersistenceError::TransactionStartError)));
    let t = run(StatementKind::Delete, &[TxnEvent::Done, TxnEvent::Done, TxnEvent::Executed { affected: 1 }, TxnEvent::Failed]);
    assert_eq!(t.result(), Some(Err(PersistenceError::CommitError)));
    let t = run(StatementKind::Delete, &[TxnEvent::Done, TxnEvent::Done, TxnEvent::Failed, TxnEvent::Failed]);
    assert_eq!(t.result(), Some(Err(PersistenceError::RollbackError)));
}

#[test]
fn failed_statement_rolls_back() {
    let mut t = run(StatementKind::Insert { rows: 1 }, &[TxnEvent::Done, TxnEvent::Done]);
    assert_eq!(t.step(TxnEvent::Failed), TxnAction::Rollback);
    assert_eq!(t.step(TxnEvent::Done), TxnAction::Stop);
    assert_eq!(t.result(), Some(Ok(TxnOutcome::RolledBack)));
}

#[test]
fn insert_id_edge_cases() {
    let t = run(
        StatementKind::Insert { rows: 3 },
        &[TxnEvent::Done, TxnEvent::Done, TxnEvent::Executed { affected: 3 }, TxnEvent::InsertIdRead { id: None }, TxnEvent::Done],
    );
    assert_eq!(t.result(), Some(Ok(TxnOutcome::Applied { affected: 3, first_id: 0 })));
    let mut t = run(
        StatementKind::Insert { rows: 3 },
        &[TxnEvent::Done, TxnEvent::Done, TxnEvent::Executed { affected: 3 }],
    );
    assert_eq!(t.step(TxnEvent::InsertIdRead { id: Some(4294967294) }), TxnAction::Rollback);
    t.step(TxnEvent::Done);
    assert_eq!(t.result(), Some(Ok(TxnOutcome::RolledBack)));
}

#[test]
fn unrelated_event_keeps_state() {
    let mut t = Transaction::new(StatementKind::Delete);
    assert_eq!(t.step(TxnEvent::Executed { affected: 1 }), TxnAction::AcquireConnection);
    assert_eq!(t.state, TxnState::Connecting);
    assert_eq!(t.result(), None);
}

#[test]
fn remove_reports_removed_absent_and_failed() {
    let t = run(StatementKind::Delete, &[TxnEvent::Done, TxnEvent::Done, TxnEvent::Executed { affected: 1 }, TxnEvent::Done]);
    let resp = remove_table_item_result(7, t.result().unwrap()).unwrap();
    assert_eq!(resp.status, "success");
    assert_eq!(resp.message, "Removed item: 7");
    assert!(resp.message.contains("7"));
    let resp = remove_table_item_result(7, Ok(TxnOutcome::Applied { affected: 0, first_id: 0 })).unwrap();
    assert_eq!(resp.status, "success");
    assert_eq!(resp.message, "No item with id 7");
    let resp = remove_table_item_result(7, Ok(TxnOutcome::RolledBack)).unwrap();
    assert_eq!(resp.status, "failed");
    assert_eq!(resp.message, "Can NOT remove desired table item");
    assert_eq!(remove_table_item_result(7, Err(PersistenceError::DBConnError)), Err(PersistenceError::DBConnError));
}

#[test]
fn pasta_round_trip() {
    let statement = match plan_add_items(5, names(&["Pasta"])) {
        AddPlan::Insert { statement, .. } => statement,
        AddPlan::NothingToAdd(_) => panic!("expected an insert"),
    };
    let (name, minutes) = match (&statement.params[1], &statement.params[3]) {
        (SqlParam::Text(n), SqlParam::Number(m)) => (n.clone(), *m),
        _ => panic!("unexpected parameters"),
    };
    let t = run(
        StatementKind::Insert { rows: 1 },
        &[TxnEvent::Done, TxnEvent::Done, TxnEvent::Executed { affected: 1 }, TxnEvent::InsertIdRead { id: Some(77) }, TxnEvent::Done],
    );
    let resp = add_items_result(5, 1, t.result().unwrap()).unwrap();
    assert_eq!(resp.items_ids, vec![77]);
    let stored = stored_row(77, 5, &name, minutes as u64);
    let by_id = generate_query_and_params(5, Some(vec![77]), None);
    assert_eq!(by_id.params, vec![SqlParam::Number(5), SqlParam::Number(77)]);
    let by_name = generate_query_and_params(5, None, Some(names(&["Pasta"])));
    assert_eq!(by_name.params, vec![SqlParam::Number(5), SqlParam::Text("Pasta".to_string())]);
    let a = table_items_from_rows(&vec![Some(stored.clone())]).unwrap();
    let b = table_items_from_rows(&vec![Some(stored)]).unwrap();
    assert_eq!(a, b);
    assert_eq!(a[0].item_name, "Pasta");
    assert_eq!(a[0].item_id, 77);
    assert!(5 <= a[0].prepare_minutes && a[0].prepare_minutes < 16);
}

#[test]
fn batches_of_two_tables_keep_their_ranges() {
    let a = add_items_result(1, 3, Ok(TxnOutcome::Applied { affected: 3, first_id: 100 })).unwrap();
    let b = add_items_result(2, 2, Ok(TxnOutcome::Applied { affected: 2, first_id: 103 })).unwrap();
    assert_eq!(a.items_ids, vec![100, 101, 102]);
    assert_eq!(b.items_ids, vec![103, 104]);
    assert!(a.items_ids.iter().all(|id| !b.items_ids.contains(id)));
}

#[test]
fn error_kinds_and_messages() {
    assert_eq!(PersistenceError::DBConnError.message(), "No connections available from pool");
    assert_eq!(PersistenceError::TransactionStartError.message(), "Can NOT begin the transaction");
    assert_eq!(PersistenceError::CommitError.message(), "Can NOT commit the transaction");
    assert_eq!(PersistenceError::RollbackError.message(), "Can NOT rollback the transaction");
    assert_eq!(PersistenceError::DBOpError.message(), "Can NOT Execute SQL");
    let (status, body) = PersistenceError::ResourceNotFound.error_response();
    assert_eq!(status, 404);
    assert_eq!(body.message, "Can NOT found the resource");
    assert_eq!(PersistenceError::CommitError.status_code(), 500);
}

#[test]
fn value_errors() {
    let e = generate_mysql_value_error(MysqlValueError::MissingDatetime, "ordered_on".to_string());
    assert_eq!(e.code(), 3);
    assert_eq!(e.message(), "Error: Issue with value existing in column(ordered_on)");
    assert_eq!(generate_mysql_value_error(MysqlValueError::MissingString, "a".to_string()).code(), 1);
    assert_eq!(generate_mysql_value_error(MysqlValueError::MissingInteger, "a".to_string()).code(), 2);
}

#[test]
fn numbers_in_text() {
    assert_eq!(text_then_number("n=", 0), "n=0");
    assert_eq!(text_then_number("", 18446744073709551615), "18446744073709551615");
}

#[test]
fn resource_links() {
    assert_eq!(table_orders::links::table_href(12), "/tables/12");
    assert_eq!(table_orders::links::item_href(12, 305), "/tables/12/items/305");
}
