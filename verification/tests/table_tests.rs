use dayz_linux_gui_launcher::table::{TomlItem, TomlTable};
use dayz_linux_gui_launcher::text::{join, text_compare, text_eq, TextOrder};

fn text_of(item: Option<&TomlItem>) -> Option<String> {
    match item {
        Some(TomlItem::Str(s)) => Some(s.clone()),
        _ => None,
    }
}

#[test]
fn text_compare_orders_by_code_point() {
    assert_eq!(text_compare("a", "b"), TextOrder::Less);
    assert_eq!(text_compare("b", "a"), TextOrder::Greater);
    assert_eq!(text_compare("ab", "b"), TextOrder::Less);
    assert_eq!(text_compare("", "a"), TextOrder::Less);
    assert_eq!(text_compare("abc", "abc"), TextOrder::Equal);
    assert_eq!(text_compare("abc", "ab"), TextOrder::Greater);
    assert_eq!(text_compare("Z", "a"), TextOrder::Less);
    assert_eq!(text_compare("é", "z"), TextOrder::Greater);
}

#[test]
fn text_eq_and_join() {
    assert!(text_eq("main", "main"));
    assert!(!text_eq("main", "mains"));
    assert!(!text_eq("Default", "default"));
    assert_eq!(join("/home/user", "/.config"), "/home/user/.config");
    assert_eq!(join("", ""), "");
}

#[test]
fn table_get_after_insert() {
    let mut t = TomlTable::new();
    assert!(!t.contains_key("a"));
    t.insert("a".to_string(), TomlItem::Str("1".to_string()));
    assert!(t.contains_key("a"));
    assert_eq!(t.get_text("a"), Some("1".to_string()));
    assert_eq!(t.get_text("b"), None);
    assert!(t.get_table("a").is_none());
}

#[test]
fn table_insert_replaces_and_keeps_others() {
    let mut t = TomlTable::new();
    t.insert_text("x", "1");
    t.insert_text("y", "2");
    t.insert_text("x", "3");
    assert_eq!(t.get_text("x"), Some("3".to_string()));
    assert_eq!(t.get_text("y"), Some("2".to_string()));
    assert_eq!(t.keys(), vec!["x".to_string(), "y".to_string()]);
}

#[test]
fn table_keys_ascend() {
    let mut t = TomlTable::new();
    for k in ["zeta", "alpha", "mid", "Alpha", "alp"] {
        t.insert_text(k, k);
    }
    assert_eq!(
        t.keys(),
        vec![
            "Alpha".to_string(),
            "alp".to_string(),
            "alpha".to_string(),
            "mid".to_string(),
            "zeta".to_string()
        ]
    );
    assert_eq!(text_of(t.get("mid")), Some("mid".to_string()));
}

#[test]
fn table_remove() {
    let mut t = TomlTable::new();
    t.insert_text("a", "1");
    t.insert_text("b", "2");
    let mut parsed = TomlTable::parse_config("c = 3").unwrap();
    let three = parsed.remove("c").unwrap();
    t.insert("c".to_string(), three);
    match t.remove("b") {
        Some(TomlItem::Str(s)) => assert_eq!(s, "2"),
        _ => panic!("b held text"),
    }
    assert!(t.remove("b").is_none());
    assert!(!t.contains_key("b"));
    assert_eq!(t.keys(), vec!["a".to_string(), "c".to_string()]);
    match t.get("c") {
        Some(TomlItem::Other(_)) => {}
        _ => panic!("c held another value"),
    }
}

#[test]
fn table_nested_tables() {
    let mut inner = TomlTable::new();
    inner.insert_text("k", "v");
    let mut outer = TomlTable::new();
    outer.insert_table("inner", inner);
    let got = outer.get_table("inner").expect("a nested table");
    assert_eq!(got.get_text("k"), Some("v".to_string()));
    assert_eq!(outer.get_text("inner"), None);
}

#[test]
fn parse_config_reads_texts_tables_and_other_values() {
    let t = TomlTable::parse_config("a = \"x\"\nn = 7\n[inner]\nb = \"y\"\n").unwrap();
    assert_eq!(t.keys(), vec!["a".to_string(), "inner".to_string(), "n".to_string()]);
    assert_eq!(t.get_text("a"), Some("x".to_string()));
    assert_eq!(t.get_table("inner").unwrap().get_text("b"), Some("y".to_string()));
    match t.get("n") {
        Some(TomlItem::Other(_)) => {}
        _ => panic!("n holds a number"),
    }
}

#[test]
fn parse_config_refuses_invalid_text() {
    assert!(TomlTable::parse_config("a = ").is_none());
    assert!(TomlTable::parse_config("[a\nb = 1").is_none());
    assert!(TomlTable::parse_config("").unwrap().keys().is_empty());
}

#[test]
fn render_config_then_parse_gives_same_content() {
    let mut inner = TomlTable::new();
    inner.insert_text("k", "v w");
    let mut t = TomlTable::parse_config("count = 3\nflag = true").unwrap();
    t.insert_table("inner", inner);
    t.insert_text("name", "n");
    let text = t.render_config().unwrap();
    assert!(text.contains("[inner]"));
    assert!(text.contains("count = 3"));
    assert!(text.contains("flag = true"));
    let back = TomlTable::parse_config(&text).unwrap();
    assert_eq!(back.keys(), t.keys());
    assert_eq!(back.get_text("name"), Some("n".to_string()));
    assert_eq!(back.get_table("inner").unwrap().get_text("k"), Some("v w".to_string()));
    match back.get("flag") {
        Some(TomlItem::Other(_)) => {}
        _ => panic!("flag holds a boolean"),
    }
}

#[test]
fn render_empty_table() {
    assert_eq!(TomlTable::new().render_config(), Some(String::new()));
}

#[test]
fn other_values_render_as_parsed() {
    let t = TomlTable::parse_config("when = 1979-05-27T07:32:00Z\nlist = [1, 2]\nx = 1.5\n").unwrap();
    let text = t.render_config().unwrap();
    assert!(text.contains("when = 1979-05-27T07:32:00Z"));
    assert!(text.contains("list = [1, 2]"));
    assert!(text.contains("x = 1.5"));
    assert_eq!(t.get_text("when"), None);
}
