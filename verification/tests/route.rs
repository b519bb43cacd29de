use notepad::jasper_ji::route::Route;

#[test]
fn recognize_pages() {
    assert_eq!(Route::recognize("/"), Some(Route::Home));
    assert_eq!(Route::recognize(""), Some(Route::Home));
    assert_eq!(Route::recognize("/add"), Some(Route::Add));
    assert_eq!(Route::recognize("/add/"), Some(Route::Add));
    assert_eq!(Route::recognize("/404"), Some(Route::NotFound));
    assert_eq!(Route::recognize("/edit/5"), Some(Route::Edit { id: 5 }));
    assert_eq!(Route::recognize("/edit/5/"), Some(Route::Edit { id: 5 }));
    assert_eq!(Route::recognize("/edit/+12"), Some(Route::Edit { id: 12 }));
    assert_eq!(Route::recognize("/edit/4294967295"), Some(Route::Edit { id: u32::MAX }));
}

#[test]
fn recognize_unknown_addresses_as_not_found() {
    assert_eq!(Route::recognize("/nope"), Some(Route::NotFound));
    assert_eq!(Route::recognize("/edit"), Some(Route::NotFound));
    assert_eq!(Route::recognize("/edit/"), Some(Route::NotFound));
    assert_eq!(Route::recognize("/edit/abc"), Some(Route::NotFound));
    assert_eq!(Route::recognize("/edit/4294967296"), Some(Route::NotFound));
    assert_eq!(Route::recognize("/edit/1/2"), Some(Route::NotFound));
    assert_eq!(Route::recognize("/Add"), Some(Route::NotFound));
    assert_eq!(Route::recognize("/adds"), Some(Route::NotFound));
}

#[test]
fn to_path_of_pages() {
    assert_eq!(Route::Home.to_path(), "/");
    assert_eq!(Route::NotFound.to_path(), "/404");
    assert_eq!(Route::Add.to_path(), "/add");
    assert_eq!(Route::Edit { id: 17 }.to_path(), "/edit/17");
}

#[test]
fn every_page_is_found_at_its_address() {
    for r in [Route::Home, Route::NotFound, Route::Add, Route::Edit { id: 0 }, Route::Edit { id: u32::MAX }] {
        assert_eq!(Route::recognize(&r.to_path()), Some(r));
    }
}

#[test]
fn from_pattern_of_the_table() {
    assert_eq!(Route::from_pattern("/", None), Some(Route::Home));
    assert_eq!(Route::from_pattern("/404", None), Some(Route::NotFound));
    assert_eq!(Route::from_pattern("/add", None), Some(Route::Add));
    assert_eq!(Route::from_pattern("/edit/:id", Some("3")), Some(Route::Edit { id: 3 }));
    assert_eq!(Route::from_pattern("/edit/:id", Some("x")), None);
    assert_eq!(Route::from_pattern("/edit/:id", None), None);
    assert_eq!(Route::from_pattern("/other", None), None);
    assert_eq!(Route::not_found_route(), Some(Route::NotFound));
}
