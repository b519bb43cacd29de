use notepad::jasper_ji::edit::{self, Edit, Props};
use notepad::jasper_ji::fetch_error::FetchError;
use notepad::jasper_ji::home::{self, FetchState, Home};
use notepad::jasper_ji::note::Note;
use notepad::jasper_ji::route::Route;

fn note(id: u32) -> Note {
    Note { id, content: format!("note {}", id), create_time: "2024-01-01 00:00:00".to_string() }
}

fn is_home_load(effects: &[home::Effect]) -> bool {
    effects.len() == 2
        && matches!(effects[0], home::Effect::FetchNotes)
        && matches!(effects[1], home::Effect::Send(home::Msg::SetTodoFetchState(FetchState::Fetching)))
}

#[test]
fn home_opens_and_loads() {
    let (mut page, effects) = Home::create();
    assert!(matches!(page.todo(), FetchState::NotFetching));
    assert!(is_home_load(&effects));
    let (render, more) = page.update(home::Msg::SetTodoFetchState(FetchState::Fetching));
    assert!(render && more.is_empty());
    assert!(matches!(page.todo(), FetchState::Fetching));
    let (render, more) = page.update(home::Msg::loaded(Ok(vec![note(1), note(2)])));
    assert!(render && more.is_empty());
    match page.todo() {
        FetchState::Success(list) => {
            assert_eq!(list.len(), 2);
            assert_eq!(list[1].id, 2);
        }
        _ => panic!("expected the notes"),
    }
}

#[test]
fn home_shows_a_failed_load() {
    let (mut page, _) = Home::create();
    page.update(home::Msg::loaded(Err(FetchError::from("broken".to_string()))));
    match page.todo() {
        FetchState::Failed(e) => assert_eq!(e.message(), "broken"),
        _ => panic!("expected the error"),
    }
}

#[test]
fn home_buttons() {
    let (mut page, _) = Home::create();
    let (render, effects) = page.update(home::Msg::GetTodo);
    assert!(!render && is_home_load(&effects));
    let (render, effects) = page.update(home::Msg::GetError);
    assert!(!render && is_home_load(&effects));
    assert!(matches!(page.todo(), FetchState::NotFetching));
    let (render, effects) = page.update(home::Msg::SetEdit(9));
    assert!(!render);
    assert_eq!(effects.len(), 2);
    assert!(matches!(effects[0], home::Effect::Log(9)));
    assert!(matches!(effects[1], home::Effect::Navigate(Route::Edit { id: 9 })));
    assert!(is_home_load(&page.send_get_todo_msg()));
}

#[test]
fn edit_opens_and_loads_its_note() {
    let (mut page, effects) = Edit::create(&Props { id: 4 });
    assert_eq!(page.id(), 4);
    assert!(matches!(page.note(), edit::FetchState::NotFetching));
    assert_eq!(effects.len(), 3);
    assert!(matches!(effects[0], edit::Effect::Log(4)));
    assert!(matches!(effects[1], edit::Effect::FetchNote(4)));
    assert!(matches!(effects[2], edit::Effect::Send(edit::Msg::SetTodoFetchState(edit::FetchState::Fetching))));
    let (render, more) = page.update(edit::Msg::loaded(Ok(note(4))));
    assert!(render && more.is_empty());
    match page.note() {
        edit::FetchState::Success(n) => assert_eq!(n.content, "note 4"),
        _ => panic!("expected the note"),
    }
    let (render, more) = page.update(edit::Msg::GetTodo);
    assert!(!render);
    assert!(matches!(more[0], edit::Effect::FetchNote(4)));
    assert_eq!(page.id(), 4);
}

#[test]
fn edit_shows_a_failed_load() {
    let (mut page, _) = Edit::create(&Props { id: 1 });
    page.update(edit::Msg::loaded(Err(FetchError::from("gone".to_string()))));
    assert!(matches!(page.note(), edit::FetchState::Failed(_)));
}
