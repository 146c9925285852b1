use synced_notes::commands::{new_note, update_note};
use synced_notes::coordinator::{Action, Reply, Request};
use synced_notes::error::ErrorKind;
use synced_notes::event::Event;
use synced_notes::note::NoteItem;
use synced_notes::session::serve;
use synced_notes::statement::Statement;
use synced_notes::table::NoteTable;
use synced_notes::title::derive_title;

fn create(table: &mut NoteTable, id: &str, now: u64, up: bool) -> Reply {
    serve(table, Request::Create { id: id.to_string(), now }, up)
}

fn update(table: &mut NoteTable, id: &str, text: &str, now: u64) -> Reply {
    serve(table, Request::Update { id: id.to_string(), text: text.to_string(), now }, true)
}

fn delete(table: &mut NoteTable, id: &str) -> Reply {
    serve(table, Request::Delete { id: id.to_string() }, true)
}

fn list(table: &mut NoteTable) -> Vec<NoteItem> {
    match serve(table, Request::List { fresh: false }, true) {
        Reply::Notes { notes, warning } => {
            assert!(warning.is_none());
            notes
        }
        other => panic!("unexpected reply {:?}", other),
    }
}

fn ids(notes: &[NoteItem]) -> Vec<String> {
    notes.iter().map(|n| n.id.clone()).collect()
}

fn note_of(reply: Reply) -> NoteItem {
    match reply {
        Reply::Note { note, warning } => {
            assert!(warning.is_none());
            note
        }
        other => panic!("unexpected reply {:?}", other),
    }
}

#[test]
fn created_note_is_in_the_next_listing() {
    let mut table = NoteTable::new();
    let note = note_of(create(&mut table, "n1", 100, true));
    assert_eq!(note.id, "n1");
    assert_eq!(note.title, "New note..");
    assert_eq!(note.created_at, 100);
    assert_eq!(note.updated_at, 100);
    let notes = list(&mut table);
    assert_eq!(notes.len(), 1);
    assert_eq!(notes[0].id, "n1");
    assert_eq!(notes[0].title, notes[0].text.split('\n').next().unwrap());
    assert_eq!(notes[0].title, derive_title(&notes[0].text));
}

#[test]
fn update_keeps_id_and_creation_time() {
    let mut table = NoteTable::new();
    create(&mut table, "n1", 100, true);
    let mut last = 100;
    for (text, now) in [("first", 110u64), ("second\nline", 110), ("", 125), ("third", 130)] {
        let note = note_of(update(&mut table, "n1", text, now));
        assert_eq!(note.id, "n1");
        assert_eq!(note.created_at, 100);
        assert_eq!(note.updated_at, now);
        assert!(note.updated_at >= last);
        assert_eq!(note.text, text);
        last = note.updated_at;
    }
    let notes = list(&mut table);
    assert_eq!(notes.len(), 1);
    assert_eq!(notes[0].title, "third");
    assert_eq!(notes[0].created_at, 100);
    assert_eq!(notes[0].updated_at, 130);
}

#[test]
fn update_derives_the_title() {
    let mut table = NoteTable::new();
    create(&mut table, "n1", 1, true);
    assert_eq!(note_of(update(&mut table, "n1", "Hello\nWorld", 2)).title, "Hello");
    let emptied = note_of(update(&mut table, "n1", "", 3));
    assert_eq!(emptied.title, "Unamed note");
    assert_eq!(emptied.text, "");
}

#[test]
fn update_leaves_the_other_notes_alone() {
    let mut table = NoteTable::new();
    create(&mut table, "a", 1, true);
    create(&mut table, "b", 2, true);
    update(&mut table, "a", "changed", 9);
    let notes = list(&mut table);
    assert_eq!(ids(&notes), ["b", "a"]);
    assert_eq!(notes[0].text, "New note..");
    assert_eq!(notes[0].updated_at, 2);
    assert_eq!(notes[1].text, "changed");
    assert_eq!(notes[1].updated_at, 9);
}

#[test]
fn delete_of_a_missing_id_succeeds_twice() {
    let mut table = NoteTable::new();
    create(&mut table, "kept", 1, true);
    assert!(matches!(delete(&mut table, "ghost"), Reply::Deleted { warning: None }));
    assert!(matches!(delete(&mut table, "ghost"), Reply::Deleted { warning: None }));
    assert_eq!(ids(&list(&mut table)), ["kept"]);
}

#[test]
fn delete_removes_the_note_for_good() {
    let mut table = NoteTable::new();
    create(&mut table, "a", 1, true);
    create(&mut table, "b", 2, true);
    create(&mut table, "c", 3, true);
    assert!(matches!(delete(&mut table, "b"), Reply::Deleted { warning: None }));
    assert_eq!(ids(&list(&mut table)), ["c", "a"]);
    assert_eq!(table.len(), 2);
    assert!(matches!(delete(&mut table, "b"), Reply::Deleted { warning: None }));
    assert!(matches!(update(&mut table, "b", "x", 4), Reply::Failed(e)
        if e.kind == ErrorKind::NotFound));
    assert_eq!(ids(&list(&mut table)), ["c", "a"]);
}

#[test]
fn listing_is_newest_first() {
    let mut table = NoteTable::new();
    create(&mut table, "t2", 20, true);
    create(&mut table, "t1", 10, true);
    create(&mut table, "t3", 30, true);
    assert_eq!(ids(&list(&mut table)), ["t3", "t2", "t1"]);
    let mut in_order = NoteTable::new();
    create(&mut in_order, "t1", 10, true);
    create(&mut in_order, "t2", 20, true);
    create(&mut in_order, "t3", 30, true);
    assert_eq!(ids(&list(&mut in_order)), ["t3", "t2", "t1"]);
}

#[test]
fn notes_of_one_second_are_listed_in_the_order_of_creation() {
    let mut table = NoteTable::new();
    create(&mut table, "x", 5, true);
    create(&mut table, "y", 5, true);
    create(&mut table, "z", 6, true);
    assert_eq!(ids(&list(&mut table)), ["z", "x", "y"]);
}

#[test]
fn create_with_unreachable_remote_still_stores_the_note() {
    let mut table = NoteTable::new();
    match create(&mut table, "n1", 100, false) {
        Reply::Note { note, warning } => {
            assert_eq!(note.id, "n1");
            let warning = warning.unwrap();
            assert_eq!(warning.kind, ErrorKind::Sync);
            assert_eq!(warning.msg, "the remote endpoint is unreachable");
        }
        other => panic!("unexpected reply {:?}", other),
    }
    assert_eq!(ids(&list(&mut table)), ["n1"]);
    match serve(&mut table, Request::List { fresh: true }, false) {
        Reply::Notes { notes, warning } => {
            assert_eq!(ids(&notes), ["n1"]);
            assert_eq!(warning.unwrap().kind, ErrorKind::Sync);
        }
        other => panic!("unexpected reply {:?}", other),
    }
    match serve(&mut table, Request::Delete { id: "n1".to_string() }, false) {
        Reply::Deleted { warning } => assert_eq!(warning.unwrap().kind, ErrorKind::Sync),
        other => panic!("unexpected reply {:?}", other),
    }
    assert!(list(&mut table).is_empty());
}

#[test]
fn update_of_a_missing_id_fails_and_changes_nothing() {
    let mut table = NoteTable::new();
    create(&mut table, "a", 1, true);
    update(&mut table, "a", "body", 2);
    let before = table.snapshot();
    match update(&mut table, "nonexistent-id", "x", 3) {
        Reply::Failed(e) => {
            assert_eq!(e.kind, ErrorKind::NotFound);
            assert_eq!(e.msg, "no note has this id");
        }
        other => panic!("unexpected reply {:?}", other),
    }
    let after = list(&mut table);
    assert_eq!(after.len(), before.len());
    assert_eq!(after[0].id, before[0].id);
    assert_eq!(after[0].title, before[0].title);
    assert_eq!(after[0].text, before[0].text);
    assert_eq!(after[0].created_at, before[0].created_at);
    assert_eq!(after[0].updated_at, before[0].updated_at);
}

#[test]
fn create_under_a_taken_id_fails_and_changes_nothing() {
    let mut table = NoteTable::new();
    create(&mut table, "a", 1, true);
    update(&mut table, "a", "body", 2);
    match create(&mut table, "a", 3, true) {
        Reply::Failed(e) => {
            assert_eq!(e.kind, ErrorKind::Write);
            assert_eq!(e.msg, "UNIQUE constraint failed: notes.id");
        }
        other => panic!("unexpected reply {:?}", other),
    }
    let notes = list(&mut table);
    assert_eq!(notes.len(), 1);
    assert_eq!(notes[0].text, "body");
    assert_eq!(notes[0].created_at, 1);
}

#[test]
fn write_at_a_time_beyond_sql_fails_and_changes_nothing() {
    let mut table = NoteTable::new();
    let too_late = i64::MAX as u64 + 1;
    match create(&mut table, "a", too_late, true) {
        Reply::Failed(e) => {
            assert_eq!(e.kind, ErrorKind::Write);
            assert_eq!(e.msg, "u64 is too large to fit in an i64");
        }
        other => panic!("unexpected reply {:?}", other),
    }
    assert!(list(&mut table).is_empty());
    create(&mut table, "a", i64::MAX as u64, true);
    assert!(matches!(update(&mut table, "a", "x", too_late), Reply::Failed(e)
        if e.kind == ErrorKind::Write));
    assert!(matches!(update(&mut table, "ghost", "x", too_late), Reply::Failed(e)
        if e.kind == ErrorKind::Write));
    let notes = list(&mut table);
    assert_eq!(notes[0].text, "New note..");
    assert_eq!(notes[0].updated_at, i64::MAX as u64);
}

#[test]
fn table_answers_statements_as_the_store_would() {
    let mut table = NoteTable::new();
    assert_eq!(table.len(), 0);
    let insert = Statement::Insert { note: NoteItem::fresh("a".to_string(), 4) };
    assert!(matches!(table.execute(&insert), Event::Rows(rows) if rows.is_empty()));
    assert!(matches!(table.execute(&insert), Event::StatementFailed(_)));
    match table.execute(&Statement::SelectById { id: "a".to_string() }) {
        Event::Rows(rows) => {
            assert_eq!(rows.len(), 1);
            assert_eq!(NoteItem::from_row(&rows[0]).unwrap().created_at, 4);
        }
        other => panic!("unexpected event {:?}", other),
    }
    assert!(matches!(table.execute(&Statement::SelectById { id: "b".to_string() }),
        Event::Rows(rows) if rows.is_empty()));
    assert!(matches!(table.execute(&Statement::SelectAll), Event::Rows(rows) if rows.len() == 1));
    assert!(matches!(table.execute(&Statement::Delete { id: "a".to_string() }),
        Event::Rows(rows) if rows.is_empty()));
    assert!(matches!(table.execute(&Statement::SelectAll), Event::Rows(rows) if rows.is_empty()));
}

fn is_lower_hex(c: char) -> bool {
    c.is_ascii_digit() || ('a'..='f').contains(&c)
}

#[test]
fn new_note_takes_a_random_uuid_and_the_current_time() {
    let (first, action) = new_note().unwrap();
    let note = match action {
        Action::Run(Statement::Insert { note }) => note,
        other => panic!("unexpected action {:?}", other),
    };
    assert!(first.awaits(&Event::Rows(Vec::new())));
    let id: Vec<char> = note.id.chars().collect();
    assert_eq!(id.len(), 36);
    for (i, c) in id.iter().enumerate() {
        if i == 8 || i == 13 || i == 18 || i == 23 {
            assert_eq!(*c, '-');
        } else {
            assert!(is_lower_hex(*c));
        }
    }
    assert_eq!(id[14], '4');
    assert!(matches!(id[19], '8' | '9' | 'a' | 'b'));
    assert_eq!(note.title, "New note..");
    assert_eq!(note.created_at, note.updated_at);
    assert!(note.created_at > 1_500_000_000);
    let (_, again) = new_note().unwrap();
    assert!(matches!(&again, Action::Run(Statement::Insert { note: other }) if other.id != note.id));
}

#[test]
fn update_note_takes_the_current_time() {
    let (_, action) = update_note("n1".to_string(), "Hello\nWorld".to_string()).unwrap();
    match action {
        Action::Run(Statement::Update { id, title, text, updated_at }) => {
            assert_eq!(id, "n1");
            assert_eq!(title, "Hello");
            assert_eq!(text, "Hello\nWorld");
            assert!(updated_at > 1_500_000_000);
            assert!(updated_at <= i64::MAX as u64);
        }
        other => panic!("unexpected action {:?}", other),
    }
}

#[test]
fn new_note_runs_to_its_end_on_a_table() {
    let mut table = NoteTable::new();
    let (mut call, mut action) = new_note().unwrap();
    let reply = loop {
        let event = match action {
            Action::Finish(reply) => break reply,
            Action::Run(statement) => table.execute(&statement),
            Action::Sync => Event::Synced,
        };
        assert!(call.awaits(&event));
        let next = call.advance(event);
        call = next.0;
        action = next.1;
    };
    let note = note_of(reply);
    let notes = list(&mut table);
    assert_eq!(notes.len(), 1);
    assert_eq!(notes[0].id, note.id);
    assert_eq!(notes[0].created_at, note.created_at);
}
