use notepad::jasper_ji::note::{Note, WriteNote};
use notepad::jasper_ji::repository::{
    new_note, CursorEvent, CursorStep, NoteCursor, AUTO_INCREMENT, DATE_FORMAT_STR, DB_NAME, DB_VERSION, KEY_PATH,
    STORE_NAME,
};

#[test]
fn store_layout() {
    assert_eq!((DB_NAME, DB_VERSION, STORE_NAME, KEY_PATH), ("notepad", 1, "note", "id"));
    assert_eq!(DATE_FORMAT_STR, "%Y-%m-%d %H:%M:%S");
    assert!(AUTO_INCREMENT);
}

fn has_time_shape(t: &str) -> bool {
    let cs: Vec<char> = t.chars().collect();
    cs.len() == 19
        && cs.iter().enumerate().all(|(i, c)| match i {
            4 | 7 => *c == '-',
            10 => *c == ' ',
            13 | 16 => *c == ':',
            _ => c.is_ascii_digit(),
        })
}

#[test]
fn new_note_time_shape_at_the_ends_of_four_digit_years() {
    let first = new_note(&String::new(), -62_167_219_200_000).unwrap();
    assert_eq!(first.create_time, "0000-01-01 00:00:00");
    let last = new_note(&String::new(), 253_402_300_800_000 - 1).unwrap();
    assert_eq!(last.create_time, "9999-12-31 23:59:59");
    for ms in [0i64, 1, 86_399_999, 1_700_000_000_000, -1_000_000_000_000, 32_503_680_000_000] {
        assert!(has_time_shape(&new_note(&String::new(), ms).unwrap().create_time));
    }
    let past = new_note(&String::new(), 253_402_300_800_000).unwrap();
    assert_eq!(past.create_time, "+10000-01-01 00:00:00");
}

#[test]
fn new_note_is_stamped_in_utc() {
    let w = new_note(&"hello".to_string(), 947_638_923_004).unwrap();
    assert_eq!(w.content, "hello");
    assert_eq!(w.create_time, "2000-01-12 01:02:03");
    let epoch = new_note(&String::new(), 0).unwrap();
    assert_eq!(epoch.create_time, "1970-01-01 00:00:00");
    let before = new_note(&String::new(), -1).unwrap();
    assert_eq!(before.create_time, "1969-12-31 23:59:59");
}

#[test]
fn new_note_out_of_range() {
    assert!(new_note(&"x".to_string(), i64::MAX).is_none());
    assert!(new_note(&"x".to_string(), i64::MIN).is_none());
}

#[test]
fn stamped_record() {
    let w = WriteNote::stamped(&"t".to_string(), Some("then".to_string())).unwrap();
    assert_eq!((w.content.as_str(), w.create_time.as_str()), ("t", "then"));
    assert!(WriteNote::stamped(&"t".to_string(), None).is_none());
}

#[test]
fn cursor_walk_delivers_rows_in_order() {
    let mut cursor = NoteCursor::new();
    for id in [3u32, 1, 2] {
        let n = Note { id, content: id.to_string(), create_time: String::new() };
        assert!(matches!(cursor.step(CursorEvent::Row(n)), CursorStep::Continue));
        assert!(!cursor.is_finished());
    }
    match cursor.step(CursorEvent::End) {
        CursorStep::Deliver(notes) => {
            assert_eq!(notes.iter().map(|n| n.id).collect::<Vec<_>>(), vec![3, 1, 2]);
        }
        CursorStep::Continue => panic!("expected the notes"),
    }
    assert!(cursor.is_finished());
}

#[test]
fn cursor_over_empty_store() {
    let mut cursor = NoteCursor::new();
    match cursor.step(CursorEvent::End) {
        CursorStep::Deliver(notes) => assert!(notes.is_empty()),
        CursorStep::Continue => panic!("expected an empty list"),
    }
}
