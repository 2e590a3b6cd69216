use game_client::i18n::{load, Translations};

#[test]
fn lookup_unregistered_key_returns_key() {
    let table = Translations::empty();
    assert_eq!(table.get("missing.key"), "missing.key");
}

#[test]
fn lookup_unregistered_key_after_load() {
    let table = load("[ui]\nwindow_title = \"Hallo\"\n").unwrap();
    assert_eq!(table.get("missing.key"), "missing.key");
}

#[test]
fn load_flattens_nested_tables() {
    let table = load("[ui]\nwindow_title = \"Hallo\"\n\n[error]\nfile = \"Datei\"\n").unwrap();
    assert_eq!(table.get("ui.window_title"), "Hallo");
    assert_eq!(table.get("error.file"), "Datei");
}

#[test]
fn load_deeply_nested_key() {
    let table = load("[a.b]\nc = \"x\"\n").unwrap();
    assert_eq!(table.get("a.b.c"), "x");
}

#[test]
fn load_top_level_key() {
    let table = load("greeting = \"hi\"\n").unwrap();
    assert_eq!(table.get("greeting"), "hi");
}

#[test]
fn load_integer_leaf_uses_document_form() {
    let table = load("answer = 42\n").unwrap();
    assert_eq!(table.get("answer"), "42");
}

#[test]
fn load_boolean_leaf_uses_document_form() {
    let table = load("flag = true\n").unwrap();
    assert_eq!(table.get("flag"), "true");
}

#[test]
fn load_invalid_document_fails() {
    assert!(load("= this is not toml").is_none());
}

#[test]
fn load_empty_document_gives_empty_table() {
    let table = load("").unwrap();
    assert_eq!(table.get("anything"), "anything");
}

#[test]
fn from_pairs_later_binding_wins() {
    let table = Translations::from_pairs(vec![
        ("key".to_string(), "first".to_string()),
        ("key".to_string(), "second".to_string()),
    ]);
    assert_eq!(table.get("key"), "second");
}

#[test]
fn from_pairs_lookup_finds_value() {
    let table = Translations::from_pairs(vec![
        ("ui.error_title".to_string(), "Fehler".to_string()),
        ("error.unknown".to_string(), "Unbekannter Fehler".to_string()),
    ]);
    assert_eq!(table.get("ui.error_title"), "Fehler");
    assert_eq!(table.get("error.unknown"), "Unbekannter Fehler");
}
