use notepad::jasper_ji::fetch_error::FetchError;
use notepad::jasper_ji::note::Note;

#[test]
fn edit_form_roundtrip() {
    let note = Note { id: 42, content: "hello".to_string(), create_time: "2024-01-02 03:04:05".to_string() };
    let id_text = note.id_text();
    assert_eq!(id_text, "42");
    let back = Note::from_form(&id_text, note.content.clone(), note.create_time.clone()).unwrap();
    assert_eq!(back.id, 42);
    assert_eq!(back.content, "hello");
    assert_eq!(back.create_time, "2024-01-02 03:04:05");
}

#[test]
fn edit_form_with_bad_id() {
    assert!(Note::from_form("x1", String::new(), String::new()).is_none());
    assert!(Note::from_form("", String::new(), String::new()).is_none());
}

#[test]
fn note_clone_keeps_fields() {
    let note = Note { id: 1, content: "a".to_string(), create_time: "b".to_string() };
    let c = note.clone();
    assert_eq!((c.id, c.content.as_str(), c.create_time.as_str()), (1, "a", "b"));
}

#[test]
fn fetch_error_from_string_and_text() {
    let e = FetchError::from("not found".to_string());
    assert_eq!(e.message(), "not found");
    assert_eq!(e.to_string(), "\"not found\"");
    let q = FetchError::from("say \"hi\"\n".to_string());
    assert_eq!(q.to_string(), format!("{:?}", "say \"hi\"\n"));
    assert_eq!(e.clone(), e);
    assert!(e != q);
}
