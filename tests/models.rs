use chrono::Utc;
use warp_rules_client::http::{decimal_string, describe_status, is_success};
use warp_rules_client::{ClientConfig, Rule, RulesCache, RulesList, Token, WarpRulesError};

fn token(issued_at: Option<i64>, expires_in: i64) -> Token {
    Token {
        access_token: "abc".to_string(),
        token_type: "Bearer".to_string(),
        expires_in,
        issued_at,
    }
}

fn rule(id: &str) -> Rule {
    Rule {
        id: id.to_string(),
        name: format!("name {}", id),
        content: format!("content {}", id),
        active: true,
        version: "1".to_string(),
    }
}

#[test]
fn token_inside_margin_is_invalid() {
    let now: i64 = 1_700_000_000;
    let t = token(Some(now - (3600 - 30)), 3600);
    assert!(!t.is_valid(now));
}

#[test]
fn token_outside_margin_is_valid() {
    let now: i64 = 1_700_000_000;
    let t = token(Some(now - (3600 - 120)), 3600);
    assert!(t.is_valid(now));
}

#[test]
fn token_at_exact_margin_is_invalid() {
    let now: i64 = 1_700_000_000;
    let t = token(Some(now - (3600 - 60)), 3600);
    assert!(!t.is_valid(now));
    let t = token(Some(now - (3600 - 61)), 3600);
    assert!(t.is_valid(now));
}

#[test]
fn unstamped_token_is_never_valid() {
    let t = token(None, 3600);
    assert!(!t.is_valid(0));
    assert!(!t.is_valid(i64::MIN));
}

#[test]
fn token_validity_with_extreme_values() {
    let t = token(Some(i64::MAX), i64::MAX);
    assert!(t.is_valid(i64::MAX));
    let t = token(Some(i64::MIN), i64::MIN);
    assert!(!t.is_valid(i64::MIN));
}

#[test]
fn token_stamped_now_is_valid_by_the_clock() {
    let now = Utc::now().timestamp();
    assert!(token(Some(now), 3600).is_valid(now));
    assert!(!token(Some(now - 3600), 3600).is_valid(now));
}

#[test]
fn cache_round_trip_keeps_rules_and_count() {
    let list = RulesList {
        rules: vec![rule("r1"), rule("r2")],
        count: 7,
        version: "v3".to_string(),
    };
    let stored = RulesCache::from_rules_list(&list, 1234);
    assert_eq!(stored.timestamp, 1234);
    assert_eq!(stored.version, "v3");
    let back = stored.into_rules_list();
    assert_eq!(back.rules, list.rules);
    assert_eq!(back.count, back.rules.len());
    assert_eq!(back.count, 2);
    assert_eq!(back.version, "v3");
}

#[test]
fn empty_cache_record_has_zero_count() {
    let stored = RulesCache { rules: vec![], version: "v0".to_string(), timestamp: 0 };
    let back = stored.into_rules_list();
    assert_eq!(back.count, 0);
    assert!(back.rules.is_empty());
}

#[test]
fn rule_describe_text() {
    let r = rule("r1");
    assert_eq!(r.describe(), "Regra 'name r1' (r1): content r1");
}

#[test]
fn rules_compare_by_every_field() {
    let a = rule("r1");
    let mut b = rule("r1");
    assert_eq!(a, b);
    b.active = false;
    assert_ne!(a, b);
}

#[test]
fn error_messages() {
    assert_eq!(
        WarpRulesError::Authentication("x".to_string()).message(),
        "Authentication error: x"
    );
    assert_eq!(WarpRulesError::Cache("gone".to_string()).message(), "Cache error: gone");
    assert_eq!(WarpRulesError::Unknown(String::new()).message(), "Unknown error: ");
}

#[test]
fn default_config() {
    let c = ClientConfig::default();
    assert_eq!(c.api_url, "http://localhost:8001");
    assert!(c.credentials.is_none());
    assert!(c.cache_path.is_none());
    assert_eq!(c.refresh_interval, Some(300));
    assert!(c.use_sse);
}

#[test]
fn decimal_notation() {
    assert_eq!(decimal_string(0), "0");
    assert_eq!(decimal_string(7), "7");
    assert_eq!(decimal_string(10), "10");
    assert_eq!(decimal_string(304), "304");
    assert_eq!(decimal_string(u64::MAX), "18446744073709551615");
}

#[test]
fn status_classes() {
    assert!(is_success(200));
    assert!(is_success(204));
    assert!(is_success(299));
    assert!(!is_success(199));
    assert!(!is_success(304));
    assert!(!is_success(500));
}

#[test]
fn status_description() {
    assert_eq!(describe_status("Oops", 404, "missing"), "Oops. Status: 404, body: missing");
}
