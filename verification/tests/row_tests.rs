use synced_notes::note::{describe_fault, notes_from_rows, NoteItem, RowFault, COLUMNS};
use synced_notes::statement::Statement;
use synced_notes::value::{timestamp_value, value_text, value_timestamp, Value};

fn text(s: &str) -> Value {
    Value::Text(s.to_string())
}

fn good_row() -> Vec<Value> {
    vec![text("id-1"), text("Title"), text("Title\nbody"), Value::Integer(10), Value::Integer(20)]
}

#[test]
fn row_maps_to_note_in_column_order() {
    let note = NoteItem::from_row(&good_row()).unwrap();
    assert_eq!(note.id, "id-1");
    assert_eq!(note.title, "Title");
    assert_eq!(note.text, "Title\nbody");
    assert_eq!(note.created_at, 10);
    assert_eq!(note.updated_at, 20);
}

#[test]
fn row_of_wrong_width_is_refused() {
    assert_eq!(COLUMNS, 5);
    let mut short = good_row();
    short.pop();
    assert_eq!(NoteItem::from_row(&short).unwrap_err(), RowFault::Width);
    let mut long = good_row();
    long.push(Value::Null);
    assert_eq!(NoteItem::from_row(&long).unwrap_err(), RowFault::Width);
    assert_eq!(NoteItem::from_row(&Vec::new()).unwrap_err(), RowFault::Width);
}

#[test]
fn row_with_a_wrong_column_names_the_first_one() {
    for i in 0..5 {
        let mut row = good_row();
        row[i] = Value::Null;
        assert_eq!(NoteItem::from_row(&row).unwrap_err(), RowFault::Column(i));
    }
    let mut row = good_row();
    row[1] = Value::Integer(3);
    row[4] = text("late");
    assert_eq!(NoteItem::from_row(&row).unwrap_err(), RowFault::Column(1));
    let mut row = good_row();
    row[2] = Value::Blob(vec![1, 2]);
    assert_eq!(NoteItem::from_row(&row).unwrap_err(), RowFault::Column(2));
    let mut row = good_row();
    row[3] = Value::Real;
    assert_eq!(NoteItem::from_row(&row).unwrap_err(), RowFault::Column(3));
}

#[test]
fn negative_timestamp_is_refused() {
    let mut row = good_row();
    row[3] = Value::Integer(-1);
    assert_eq!(NoteItem::from_row(&row).unwrap_err(), RowFault::Column(3));
    let mut row = good_row();
    row[4] = Value::Integer(i64::MIN);
    assert_eq!(NoteItem::from_row(&row).unwrap_err(), RowFault::Column(4));
}

#[test]
fn largest_timestamp_is_accepted() {
    let mut row = good_row();
    row[3] = Value::Integer(0);
    row[4] = Value::Integer(i64::MAX);
    let note = NoteItem::from_row(&row).unwrap();
    assert_eq!(note.created_at, 0);
    assert_eq!(note.updated_at, i64::MAX as u64);
}

#[test]
fn note_to_row_and_back() {
    let note = NoteItem {
        id: "k".to_string(),
        title: "t".to_string(),
        text: "t\nx".to_string(),
        created_at: 7,
        updated_at: 9,
    };
    let row = note.to_row().unwrap();
    assert_eq!(row.len(), 5);
    assert!(matches!(&row[0], Value::Text(s) if s == "k"));
    assert!(matches!(&row[3], Value::Integer(7)));
    assert!(matches!(&row[4], Value::Integer(9)));
    let back = NoteItem::from_row(&row).unwrap();
    assert_eq!(back.id, note.id);
    assert_eq!(back.title, note.title);
    assert_eq!(back.text, note.text);
    assert_eq!(back.created_at, note.created_at);
    assert_eq!(back.updated_at, note.updated_at);
}

#[test]
fn note_with_a_timestamp_beyond_sql_has_no_row() {
    let mut note = NoteItem::fresh("k".to_string(), 1);
    note.updated_at = i64::MAX as u64 + 1;
    assert!(note.to_row().is_none());
    note.updated_at = 1;
    note.created_at = u64::MAX;
    assert!(note.to_row().is_none());
}

#[test]
fn fresh_note_holds_the_placeholder() {
    let note = NoteItem::fresh("abc".to_string(), 42);
    assert_eq!(note.id, "abc");
    assert_eq!(note.title, "New note..");
    assert_eq!(note.text, "New note..");
    assert_eq!(note.created_at, 42);
    assert_eq!(note.updated_at, 42);
    let copy = note.duplicate();
    assert_eq!(copy.id, "abc");
    assert_eq!(copy.updated_at, 42);
}

#[test]
fn timestamp_values_at_the_bounds() {
    assert!(matches!(timestamp_value(0), Some(Value::Integer(0))));
    assert!(matches!(timestamp_value(i64::MAX as u64), Some(Value::Integer(i64::MAX))));
    assert!(timestamp_value(i64::MAX as u64 + 1).is_none());
    assert!(timestamp_value(u64::MAX).is_none());
    assert_eq!(value_timestamp(&Value::Integer(5)), Some(5));
    assert_eq!(value_timestamp(&Value::Integer(-5)), None);
    assert_eq!(value_timestamp(&text("5")), None);
    assert_eq!(value_timestamp(&Value::Null), None);
    assert_eq!(value_text(&text("x")), Some("x".to_string()));
    assert_eq!(value_text(&Value::Integer(1)), None);
    assert_eq!(value_text(&Value::Null), None);
}

#[test]
fn rows_map_in_order() {
    let mut second = good_row();
    second[0] = text("id-2");
    let notes = notes_from_rows(&vec![good_row(), second]).unwrap();
    assert_eq!(notes.len(), 2);
    assert_eq!(notes[0].id, "id-1");
    assert_eq!(notes[1].id, "id-2");
    assert!(notes_from_rows(&Vec::new()).unwrap().is_empty());
}

#[test]
fn rows_fail_with_the_first_fault() {
    let mut bad_column = good_row();
    bad_column[2] = Value::Null;
    let mut bad_width = good_row();
    bad_width.pop();
    let fault = notes_from_rows(&vec![good_row(), bad_column, bad_width]).unwrap_err();
    assert_eq!(fault, RowFault::Column(2));
    assert_eq!(describe_fault(fault), "column does not hold what the schema says");
    assert_eq!(describe_fault(RowFault::Width), "row does not have the five columns of a note");
}

#[test]
fn statement_texts() {
    assert_eq!(Statement::SelectAll.sql(), "SELECT * FROM notes order by created_at desc");
    assert_eq!(
        Statement::SelectById { id: "a".to_string() }.sql(),
        "SELECT * from notes WHERE id = ?"
    );
    assert_eq!(
        Statement::Insert { note: NoteItem::fresh("a".to_string(), 1) }.sql(),
        "INSERT INTO notes (id, title, text, created_at, updated_at) VALUES (?, ?, ?, ?, ?)"
    );
    let update = Statement::Update {
        id: "a".to_string(),
        title: "t".to_string(),
        text: "t".to_string(),
        updated_at: 2,
    };
    assert_eq!(update.sql(), "UPDATE notes SET title = ?, text = ?, updated_at = ? WHERE id = ?");
    assert_eq!(Statement::Delete { id: "a".to_string() }.sql(), "DELETE from notes WHERE id = ?");
    assert!(!Statement::SelectAll.writes());
    assert!(!Statement::SelectById { id: "a".to_string() }.writes());
    assert!(update.writes());
    assert!(Statement::Delete { id: "a".to_string() }.writes());
}

#[test]
fn statement_params_follow_the_placeholders() {
    assert!(Statement::SelectAll.params().unwrap().is_empty());
    let by_id = Statement::SelectById { id: "a".to_string() }.params().unwrap();
    assert_eq!(by_id.len(), 1);
    assert!(matches!(&by_id[0], Value::Text(s) if s == "a"));
    let insert = Statement::Insert { note: NoteItem::fresh("a".to_string(), 3) }.params().unwrap();
    assert_eq!(insert.len(), 5);
    assert!(matches!(&insert[0], Value::Text(s) if s == "a"));
    assert!(matches!(&insert[1], Value::Text(s) if s == "New note.."));
    assert!(matches!(&insert[2], Value::Text(s) if s == "New note.."));
    assert!(matches!(&insert[3], Value::Integer(3)));
    assert!(matches!(&insert[4], Value::Integer(3)));
    let update = Statement::Update {
        id: "a".to_string(),
        title: "t".to_string(),
        text: "t\nu".to_string(),
        updated_at: 8,
    }
    .params()
    .unwrap();
    assert_eq!(update.len(), 4);
    assert!(matches!(&update[0], Value::Text(s) if s == "t"));
    assert!(matches!(&update[1], Value::Text(s) if s == "t\nu"));
    assert!(matches!(&update[2], Value::Integer(8)));
    assert!(matches!(&update[3], Value::Text(s) if s == "a"));
    let delete = Statement::Delete { id: "z".to_string() }.params().unwrap();
    assert_eq!(delete.len(), 1);
    assert!(matches!(&delete[0], Value::Text(s) if s == "z"));
}

#[test]
fn statement_with_a_timestamp_beyond_sql_has_no_params() {
    let update = Statement::Update {
        id: "a".to_string(),
        title: "t".to_string(),
        text: "t".to_string(),
        updated_at: u64::MAX,
    };
    assert!(update.params().is_none());
    let insert = Statement::Insert { note: NoteItem::fresh("a".to_string(), i64::MAX as u64 + 1) };
    assert!(insert.params().is_none());
}
