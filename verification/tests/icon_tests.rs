use swtchr::sway::icon::IconLocator;

#[test]
fn locators_are_ordered_by_reliability() {
    let locator = IconLocator {
        app_id: Some("app".to_owned()),
        x_window_class: Some("Class".to_owned()),
        x_window_instance: Some("instance".to_owned()),
        window_title: Some("Title".to_owned()),
    };
    let hints: Vec<&str> = locator.locators().iter().map(|s| s.as_str()).collect();
    assert_eq!(hints, vec!["app", "instance", "Class", "Title"]);
}

#[test]
fn missing_hints_are_skipped() {
    let locator = IconLocator {
        app_id: None,
        x_window_class: Some("Class".to_owned()),
        x_window_instance: None,
        window_title: Some("Title".to_owned()),
    };
    let hints: Vec<&str> = locator.locators().iter().map(|s| s.as_str()).collect();
    assert_eq!(hints, vec!["Class", "Title"]);
}

#[test]
fn no_hints_yield_an_empty_list() {
    let locator = IconLocator {
        app_id: None,
        x_window_class: None,
        x_window_instance: None,
        window_title: None,
    };
    assert!(locator.locators().is_empty());
}

#[test]
fn clone_keeps_every_hint() {
    let locator = IconLocator {
        app_id: Some("app".to_owned()),
        x_window_class: None,
        x_window_instance: None,
        window_title: Some("Title".to_owned()),
    };
    let copy = locator.clone();
    assert_eq!(copy.app_id, locator.app_id);
    assert_eq!(copy.x_window_class, locator.x_window_class);
    assert_eq!(copy.x_window_instance, locator.x_window_instance);
    assert_eq!(copy.window_title, locator.window_title);
}
