use warp_rules_client::http::Method;
use warp_rules_client::sync::{AuthStep, RulesReply, WarpRulesClient as SyncClient};
use warp_rules_client::{ClientConfig, Credentials, Rule, RulesList, Token, WarpRulesError};

fn config(cache: Option<&str>, creds: bool) -> ClientConfig {
    ClientConfig {
        api_url: "http://svc".to_string(),
        credentials: if creds {
            Some(Credentials {
                client_id: "agent".to_string(),
                client_secret: "s3".to_string(),
            })
        } else {
            None
        },
        cache_path: cache.map(|p| p.to_string()),
        refresh_interval: None,
        use_sse: false,
    }
}

fn issued() -> Token {
    Token {
        access_token: "tok".to_string(),
        token_type: "Bearer".to_string(),
        expires_in: 3600,
        issued_at: None,
    }
}

fn pairs(v: &[(String, String)]) -> Vec<(&str, &str)> {
    v.iter().map(|(a, b)| (a.as_str(), b.as_str())).collect()
}

#[test]
fn authenticate_without_credentials_fails() {
    let c = SyncClient::new(config(None, false));
    match c.authenticate_step(1000) {
        AuthStep::Fail(WarpRulesError::Authentication(m)) => {
            assert_eq!(m, "credentials are not configured")
        }
        other => panic!("unexpected {:?}", other),
    }
}

#[test]
fn authenticate_builds_password_grant() {
    let c = SyncClient::new(config(None, true));
    match c.authenticate_step(1000) {
        AuthStep::Request(req) => {
            assert_eq!(req.method, Method::Post);
            assert_eq!(req.url, "http://svc/api/rules/v1/token");
            assert!(req.headers.is_empty());
            assert_eq!(
                pairs(&req.form),
                vec![("grant_type", "password"), ("username", "agent"), ("password", "s3")]
            );
        }
        other => panic!("unexpected {:?}", other),
    }
}

#[test]
fn accepted_token_is_stamped_and_reused() {
    let mut c = SyncClient::new(config(None, true));
    let t = c.accept_token(issued(), 5000);
    assert_eq!(t.issued_at, Some(5000));
    assert_eq!(c.token.as_ref().unwrap().issued_at, Some(5000));
    match c.authenticate_step(5000 + 3600 - 120) {
        AuthStep::Reuse(r) => assert_eq!(r.access_token, "tok"),
        other => panic!("unexpected {:?}", other),
    }
    match c.authenticate_step(5000 + 3600 - 30) {
        AuthStep::Request(_) => {}
        other => panic!("unexpected {:?}", other),
    }
}

#[test]
fn rejected_token_request_carries_status_and_body() {
    assert_eq!(SyncClient::check_token_status(200, "ignored"), Ok(()));
    assert_eq!(
        SyncClient::check_token_status(401, "bad secret"),
        Err(WarpRulesError::Authentication(
            "Authentication failed. Status: 401, body: bad secret".to_string()
        ))
    );
}

#[test]
fn not_modified_without_cache_is_a_cache_error() {
    let c = SyncClient::new(config(None, true));
    match c.classify_rules_status(304, "") {
        RulesReply::Failed(WarpRulesError::Cache(m)) => {
            assert_eq!(m, "cache requested but not available locally")
        }
        other => panic!("unexpected {:?}", other),
    }
}

#[test]
fn not_modified_with_cache_reads_the_record() {
    let mut c = SyncClient::new(config(Some("/tmp/rules.json"), true));
    let list = RulesList {
        rules: vec![Rule {
            id: "a".to_string(),
            name: "n".to_string(),
            content: "c".to_string(),
            active: false,
            version: "2".to_string(),
        }],
        count: 1,
        version: "2".to_string(),
    };
    let write = c.accept_rules(None, &list, 77).unwrap();
    match c.classify_rules_status(304, "") {
        RulesReply::LoadCache(p) => {
            assert_eq!(p, "/tmp/rules.json");
            let back = SyncClient::load_rules_from_cache(&p, Some(write.record)).unwrap();
            assert_eq!(back.rules, list.rules);
            assert_eq!(back.count, 1);
        }
        other => panic!("unexpected {:?}", other),
    }
}

#[test]
fn missing_cache_file_is_a_cache_error() {
    assert_eq!(
        SyncClient::load_rules_from_cache("/x/y.json", None).unwrap_err(),
        WarpRulesError::Cache("cache file not found: /x/y.json".to_string())
    );
}

#[test]
fn failed_fetch_is_a_connection_error() {
    let c = SyncClient::new(config(None, true));
    match c.classify_rules_status(500, "oops") {
        RulesReply::Failed(WarpRulesError::Connection(m)) => {
            assert_eq!(m, "Failed to fetch rules. Status: 500, body: oops")
        }
        other => panic!("unexpected {:?}", other),
    }
    assert!(matches!(c.classify_rules_status(200, ""), RulesReply::Fresh));
}

#[test]
fn fresh_rules_without_cache_write_nothing() {
    let mut c = SyncClient::new(config(None, true));
    let list = RulesList { rules: vec![], count: 0, version: "9".to_string() };
    assert!(c.accept_rules(Some("e1".to_string()), &list, 1).is_none());
    assert_eq!(c.last_etag.as_deref(), Some("e1"));
    assert_eq!(c.current_version.as_deref(), Some("9"));
    assert!(c.accept_rules(None, &list, 2).is_none());
    assert_eq!(c.last_etag.as_deref(), Some("e1"));
}

#[test]
fn stream_and_results_requests() {
    let mut c = SyncClient::new(config(None, true));
    let t = c.accept_token(issued(), 1);
    let s = c.stream_request(&t);
    assert_eq!(s.method, Method::Get);
    assert_eq!(s.url, "http://svc/api/rules/v1/rules/stream");
    assert_eq!(pairs(&s.headers), vec![("Authorization", "Bearer tok")]);
    let r = c.results_request(&t);
    assert_eq!(r.method, Method::Post);
    assert_eq!(r.url, "http://svc/api/rules/v1/results");
    assert_eq!(pairs(&r.headers), vec![("Authorization", "Bearer tok")]);
    assert!(r.form.is_empty());
}

#[test]
fn results_status() {
    assert_eq!(SyncClient::check_results_status(201, ""), Ok(()));
    assert_eq!(
        SyncClient::check_results_status(503, "busy"),
        Err(WarpRulesError::Connection(
            "Failed to send results. Status: 503, body: busy".to_string()
        ))
    );
}

#[test]
fn stream_failure_detail() {
    assert_eq!(
        SyncClient::stream_failure("reset"),
        WarpRulesError::Connection("Event stream error: reset".to_string())
    );
}

#[test]
fn second_fetch_after_not_modified_returns_identical_rules() {
    let mut c = SyncClient::new(config(Some("/var/cache/rules.json"), true));
    let token = match c.authenticate_step(100) {
        AuthStep::Request(_) => c.accept_token(issued(), 100),
        other => panic!("unexpected {:?}", other),
    };

    let first_req = c.rules_request(&token);
    assert_eq!(first_req.url, "http://svc/api/rules/v1/rules");
    assert_eq!(pairs(&first_req.headers), vec![("Authorization", "Bearer tok")]);
    assert!(matches!(c.classify_rules_status(200, ""), RulesReply::Fresh));
    let first = RulesList {
        rules: vec![Rule {
            id: "r1".to_string(),
            name: "n".to_string(),
            content: "c".to_string(),
            active: true,
            version: "1".to_string(),
        }],
        count: 1,
        version: "1".to_string(),
    };
    let disk = c.accept_rules(Some("\"etag-1\"".to_string()), &first, 101).unwrap();
    assert_eq!(disk.path, "/var/cache/rules.json");

    let token = match c.authenticate_step(200) {
        AuthStep::Reuse(t) => t,
        other => panic!("unexpected {:?}", other),
    };
    let second_req = c.rules_request(&token);
    assert_eq!(
        pairs(&second_req.headers),
        vec![("If-None-Match", "\"etag-1\""), ("Authorization", "Bearer tok")]
    );
    let second = match c.classify_rules_status(304, "") {
        RulesReply::LoadCache(p) => SyncClient::load_rules_from_cache(&p, Some(disk.record)).unwrap(),
        other => panic!("unexpected {:?}", other),
    };
    assert_eq!(second.rules.len(), 1);
    assert_eq!(second.rules, first.rules);
    assert_eq!(second.count, 1);
    assert_eq!(second.version, "1");
}

#[test]
fn stream_status() {
    assert_eq!(SyncClient::check_stream_status(200, ""), Ok(()));
    assert_eq!(
        SyncClient::check_stream_status(401, "denied"),
        Err(WarpRulesError::Connection(
            "Failed to open the rule stream. Status: 401, body: denied".to_string()
        ))
    );
}
