use swtchr::config::{
    dismiss_key, dismiss_on_release, next_key, peek_key, peek_next_key, peek_prev_key, prev_key,
    select_key, select_on_release, urgent_first, Config, KeybindCheck, KeymapConfig,
};

fn check(name: &str, key: &str, parses: bool) -> KeybindCheck {
    KeybindCheck { name: name.to_owned(), key: key.to_owned(), parses }
}

#[test]
fn defaults_are_stable() {
    assert!(urgent_first());
    assert!(dismiss_on_release());
    assert!(select_on_release());
    assert_eq!(dismiss_key().as_deref(), Some("Escape"));
    assert_eq!(select_key().as_deref(), Some("Return"));
    assert_eq!(peek_key(), None);
    assert_eq!(next_key().as_deref(), Some("<Super>Tab"));
    assert_eq!(prev_key().as_deref(), Some("<Super><Shift>Tab"));
    assert_eq!(peek_next_key(), None);
    assert_eq!(peek_prev_key(), None);
}

#[test]
fn read_yields_the_default_config() {
    let config = Config::read().unwrap();
    assert_eq!(config.icon_theme.as_deref(), Some("Papirus-Dark"));
    assert_eq!(config.font.as_deref(), Some("Fira Sans 13"));
    assert!(config.urgent_first);
    assert!(config.dismiss_on_release);
    assert!(config.select_on_release);
    assert!(config.release_keys.is_empty());
    assert_eq!(config.keymap.dismiss.as_deref(), Some("Escape"));
    assert_eq!(config.keymap.select.as_deref(), Some("Return"));
    assert_eq!(config.keymap.peek, None);
    assert_eq!(config.keymap.next.as_deref(), Some("<Super>Tab"));
    assert_eq!(config.keymap.prev.as_deref(), Some("<Super><Shift>Tab"));
    assert_eq!(config.keymap.peek_next, None);
    assert_eq!(config.keymap.peek_prev, None);
}

#[test]
fn keybind_entries_list_release_keys_then_bound_actions() {
    let config = Config {
        icon_theme: None,
        font: None,
        urgent_first: true,
        dismiss_on_release: true,
        select_on_release: true,
        release_keys: vec!["Super_L".to_owned(), "Super_R".to_owned()],
        keymap: KeymapConfig {
            dismiss: Some("Escape".to_owned()),
            select: None,
            peek: None,
            next: Some("<Super>Tab".to_owned()),
            prev: None,
            peek_next: None,
            peek_prev: None,
        },
    };
    let entries = config.keybind_entries();
    let expected = vec![
        ("release_keys".to_owned(), "Super_L".to_owned()),
        ("release_keys".to_owned(), "Super_R".to_owned()),
        ("dismiss".to_owned(), "Escape".to_owned()),
        ("next".to_owned(), "<Super>Tab".to_owned()),
    ];
    assert_eq!(entries, expected);
}

#[test]
fn default_config_keybind_entries() {
    let config = Config::read().unwrap();
    let entries = config.keybind_entries();
    let names: Vec<&str> = entries.iter().map(|(name, _)| name.as_str()).collect();
    assert_eq!(names, vec!["dismiss", "select", "next", "prev"]);
}

#[test]
fn validate_accepts_all_parsing_keybinds() {
    let checks = vec![check("dismiss", "Escape", true), check("select", "Return", true)];
    assert!(Config::validate(&checks).is_ok());
}

#[test]
fn validate_accepts_no_keybinds() {
    assert!(Config::validate(&Vec::new()).is_ok());
}

#[test]
fn validate_names_the_first_bad_keybind() {
    let checks = vec![
        check("dismiss", "Escape", true),
        check("select", "NotAKey", false),
        check("next", "AlsoBad", false),
    ];
    let err = Config::validate(&checks).unwrap_err();
    assert_eq!(err.keybind_name, "select");
    assert_eq!(err.key, "NotAKey");
    assert_eq!(err.message(), "invalid keybind in config");
}
