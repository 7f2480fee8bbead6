use warp_rules_client::message::{
    build_message_fields, join_items, preference_entry, preference_list, starts_with,
    strip_all_prefixes, trim_char,
};

fn entries(v: &[(&str, &str)]) -> Vec<(String, String)> {
    v.iter().map(|(k, x)| (k.to_string(), x.to_string())).collect()
}

#[test]
fn prefix_test() {
    assert!(starts_with("pref_x", "pref_"));
    assert!(starts_with("abc", ""));
    assert!(!starts_with("pre", "pref_"));
    assert!(!starts_with("xpref_", "pref_"));
}

#[test]
fn repeated_prefixes_are_all_removed() {
    assert_eq!(strip_all_prefixes("pref_pref_color", "pref_"), "color");
    assert_eq!(strip_all_prefixes("pref_", "pref_"), "");
    assert_eq!(strip_all_prefixes("color", "pref_"), "color");
    assert_eq!(strip_all_prefixes("pref_x", ""), "pref_x");
    assert_eq!(strip_all_prefixes("", ""), "");
}

#[test]
fn quotes_are_trimmed_at_both_ends() {
    assert_eq!(trim_char("\"blue\"", '"'), "blue");
    assert_eq!(trim_char("\"\"\"", '"'), "");
    assert_eq!(trim_char("a\"b", '"'), "a\"b");
    assert_eq!(trim_char("", '"'), "");
    assert_eq!(trim_char("42", '"'), "42");
}

#[test]
fn preference_entries() {
    assert_eq!(preference_entry("pref_lang", "\"pt\""), Some("lang=pt".to_string()));
    assert_eq!(preference_entry("pref_level", "3"), Some("level=3".to_string()));
    assert_eq!(preference_entry("mode", "\"x\""), None);
}

#[test]
fn preference_list_keeps_order_and_skips_others() {
    let e = entries(&[("pref_b", "\"2\""), ("message", "\"hi\""), ("pref_a", "true")]);
    assert_eq!(preference_list(&e), vec!["b=2".to_string(), "a=true".to_string()]);
}

#[test]
fn joining() {
    assert_eq!(join_items(&vec![]), "");
    assert_eq!(join_items(&vec!["x".to_string()]), "x");
    assert_eq!(join_items(&vec!["x".to_string(), "y".to_string(), "z".to_string()]), "x, y, z");
}

#[test]
fn message_fields_defaults() {
    let f = build_message_fields(None, None, None, &entries(&[("runtime", "\"tokio\"")]));
    assert_eq!(f.agent, "rust_agent");
    assert_eq!(f.task, "teste_conexao");
    assert_eq!(f.message, "Rust conectado ao EON-Framework!");
    assert!(f.preferences.is_none());
}

#[test]
fn message_fields_from_state() {
    let f = build_message_fields(
        Some("agent-7".to_string()),
        Some("sync".to_string()),
        Some("hello".to_string()),
        &entries(&[("pref_color", "\"red\""), ("pref_size", "10")]),
    );
    assert_eq!(f.agent, "agent-7");
    assert_eq!(f.task, "sync");
    assert_eq!(f.message, "hello");
    assert_eq!(f.preferences.as_deref(), Some("color=red, size=10"));
}
