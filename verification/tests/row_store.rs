use rust_sqlite::executor::ExecuteResult;
use rust_sqlite::executor::Statement;
use rust_sqlite::executor::execute;
use rust_sqlite::layout::EMAIL_SIZE;
use rust_sqlite::layout::ID_SIZE;
use rust_sqlite::layout::PAGE_SIZE;
use rust_sqlite::layout::ROWS_PER_PAGE;
use rust_sqlite::layout::ROW_SIZE;
use rust_sqlite::layout::TABLE_MAX_ROWS;
use rust_sqlite::layout::USERNAME_SIZE;
use rust_sqlite::layout::row_byte_offset;
use rust_sqlite::layout::row_page;
use rust_sqlite::row::Row;
use rust_sqlite::row::RowError;
use rust_sqlite::row::decode;
use rust_sqlite::row::encode;
use rust_sqlite::table::InsertResult;
use rust_sqlite::table::Table;

fn mk_row(id: u32, username: &str, email: &str) -> Row {
    Row::new(id, &username.as_bytes().to_vec(), &email.as_bytes().to_vec()).unwrap()
}

fn padded(s: &str, n: usize) -> Vec<u8> {
    let mut v = s.as_bytes().to_vec();
    v.resize(n, 0u8);
    v
}

#[test]
fn layout_constants() {
    assert_eq!(ID_SIZE, 4);
    assert_eq!(USERNAME_SIZE, 32);
    assert_eq!(EMAIL_SIZE, 255);
    assert_eq!(ROW_SIZE, 291);
    assert_eq!(ROW_SIZE, ID_SIZE + USERNAME_SIZE + EMAIL_SIZE);
    assert_eq!(PAGE_SIZE, 4096);
    assert_eq!(ROWS_PER_PAGE, PAGE_SIZE / ROW_SIZE);
    assert_eq!(ROWS_PER_PAGE, 14);
    assert_eq!(TABLE_MAX_ROWS, 1400);
}

#[test]
fn encode_fixed_width() {
    assert_eq!(encode(&mk_row(0, "", "")).len(), ROW_SIZE);
    assert_eq!(encode(&mk_row(1, "a", "b")).len(), ROW_SIZE);
    let max_username = "u".repeat(USERNAME_SIZE);
    let max_email = "e".repeat(EMAIL_SIZE);
    assert_eq!(encode(&mk_row(u32::MAX, &max_username, &max_email)).len(), ROW_SIZE);
}

#[test]
fn encode_exact_layout() {
    let row = mk_row(0x0102_0304, "ab", "xy");
    let block = encode(&row);
    assert_eq!(&block[0..4], &[0x04, 0x03, 0x02, 0x01]);
    assert_eq!(block[4], b'a');
    assert_eq!(block[5], b'b');
    assert!(block[6..36].iter().all(|&b| b == 0));
    assert_eq!(block[36], b'x');
    assert_eq!(block[37], b'y');
    assert!(block[38..291].iter().all(|&b| b == 0));
}

#[test]
fn round_trip() {
    let row = mk_row(7, "alice", "alice@example.com");
    let block = encode(&row);
    let back = decode(block.as_slice());
    assert_eq!(back, row);
    assert_eq!(back.id, 7);
    assert_eq!(back.username, padded("alice", USERNAME_SIZE));
    assert_eq!(back.email, padded("alice@example.com", EMAIL_SIZE));
}

#[test]
fn round_trip_full_width_fields() {
    let max_username = "u".repeat(USERNAME_SIZE);
    let max_email = "e".repeat(EMAIL_SIZE);
    let row = mk_row(u32::MAX, &max_username, &max_email);
    let back = decode(encode(&row).as_slice());
    assert_eq!(back, row);
}

#[test]
fn decode_handmade_block() {
    let mut block = vec![0u8; ROW_SIZE];
    block[0] = 7;
    block[4] = b'z';
    block[36] = b'q';
    let row = decode(block.as_slice());
    assert_eq!(row.id, 7);
    assert_eq!(row.username, padded("z", USERNAME_SIZE));
    assert_eq!(row.email, padded("q", EMAIL_SIZE));
}

#[test]
fn row_new_rejects_long_username() {
    let long = vec![b'u'; USERNAME_SIZE + 1];
    let email = b"e@x.y".to_vec();
    assert_eq!(Row::new(1, &long, &email), Err(RowError::UsernameTooLong));
}

#[test]
fn row_new_rejects_long_email() {
    let username = b"u".to_vec();
    let long = vec![b'e'; EMAIL_SIZE + 1];
    assert_eq!(Row::new(1, &username, &long), Err(RowError::EmailTooLong));
}

#[test]
fn append_only_ordering() {
    let mut table = Table::new();
    let rows = [mk_row(9, "r0", "a@x"), mk_row(4, "r1", "b@x"), mk_row(9, "r2", "c@x")];
    for row in &rows {
        assert_eq!(table.insert(row), InsertResult::Success);
    }
    let scanned = table.scan();
    assert_eq!(scanned.len(), 3);
    for (got, expected) in scanned.iter().zip(rows.iter()) {
        assert_eq!(got, expected);
    }
}

#[test]
fn capacity_boundary() {
    let mut table = Table::new();
    for i in 0..TABLE_MAX_ROWS {
        let row = mk_row(i as u32, "user", "user@example.com");
        assert_eq!(table.insert(&row), InsertResult::Success);
    }
    assert_eq!(table.num_rows(), TABLE_MAX_ROWS);
    let extra = mk_row(9999, "late", "late@example.com");
    assert_eq!(table.insert(&extra), InsertResult::TableFull);
    assert_eq!(table.num_rows(), TABLE_MAX_ROWS);
    let scanned = table.scan();
    assert_eq!(scanned.len(), TABLE_MAX_ROWS);
    assert_eq!(scanned[0].id, 0);
    assert_eq!(scanned[TABLE_MAX_ROWS - 1].id, (TABLE_MAX_ROWS - 1) as u32);
}

#[test]
fn idempotent_scan() {
    let mut table = Table::new();
    for i in 0..20u32 {
        table.insert(&mk_row(i, "user", "user@example.com"));
    }
    let first = table.scan();
    let second = table.scan();
    assert_eq!(first, second);
}

#[test]
fn concrete_scenario() {
    let mut table = Table::new();
    for (id, name) in [(1u32, "alice"), (2, "bob"), (3, "carol")] {
        let row = mk_row(id, name, &format!("{}@example.com", name));
        assert_eq!(execute(Statement::Insert(row), &mut table), ExecuteResult::Success);
    }
    assert_eq!(table.num_rows(), 3);
    match execute(Statement::Select, &mut table) {
        ExecuteResult::Rows(rows) => {
            assert_eq!(rows.len(), 3);
            assert_eq!(rows[0].id, 1);
            assert_eq!(rows[1].id, 2);
            assert_eq!(rows[2].id, 3);
            assert_eq!(rows[0].username, padded("alice", USERNAME_SIZE));
            assert_eq!(rows[1].username, padded("bob", USERNAME_SIZE));
            assert_eq!(rows[2].username, padded("carol", USERNAME_SIZE));
            assert_eq!(rows[0].email, padded("alice@example.com", EMAIL_SIZE));
        }
        other => panic!("select returned {:?}", other),
    }
    assert_eq!(table.num_rows(), 3);
}

#[test]
fn page_boundary() {
    let mut table = Table::new();
    assert_eq!(table.num_pages(), 0);
    for i in 0..ROWS_PER_PAGE {
        table.insert(&mk_row(i as u32, "user", "u@x"));
        assert_eq!(table.num_pages(), 1);
    }
    assert_eq!(row_page(ROWS_PER_PAGE), 1);
    assert_eq!(row_byte_offset(ROWS_PER_PAGE), 0);
    table.insert(&mk_row(14, "edge", "e@x"));
    assert_eq!(table.num_pages(), 2);
    let scanned = table.scan();
    assert_eq!(scanned.len(), ROWS_PER_PAGE + 1);
    assert_eq!(scanned[ROWS_PER_PAGE].username, padded("edge", USERNAME_SIZE));
}

#[test]
fn executor_table_full() {
    let mut table = Table::new();
    for i in 0..TABLE_MAX_ROWS {
        table.insert(&mk_row(i as u32, "user", "u@x"));
    }
    let late = mk_row(0, "late", "l@x");
    assert_eq!(execute(Statement::Insert(late), &mut table), ExecuteResult::TableFull);
    assert_eq!(table.num_rows(), TABLE_MAX_ROWS);
}

#[test]
fn empty_table_select() {
    let mut table = Table::new();
    assert_eq!(table.num_rows(), 0);
    match execute(Statement::Select, &mut table) {
        ExecuteResult::Rows(rows) => assert!(rows.is_empty()),
        other => panic!("select returned {:?}", other),
    }
}
