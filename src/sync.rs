use vstd::prelude::*;

use crate::http::{
    describe_status, endpoint, form_of, headers_of, is_success, pair, status_detail,
    success_status, HttpRequest, Method, NOT_MODIFIED,
};
use crate::models::{ClientConfig, Credentials, RulesCache, RulesList, Token, WarpRulesError};

verus! {

/// Path of the token endpoint.
pub open spec fn token_path() -> Seq<char> {
    "/api/rules/v1/token"@
}

/// Path of the rules endpoint.
pub open spec fn rules_path() -> Seq<char> {
    "/api/rules/v1/rules"@
}

/// Path of the rule event stream.
pub open spec fn stream_path() -> Seq<char> {
    "/api/rules/v1/rules/stream"@
}

/// Path of the results endpoint.
pub open spec fn results_path() -> Seq<char> {
    "/api/rules/v1/results"@
}

/// Value of the `Authorization` header for a token: its kind, a space, and
/// the access value.
pub open spec fn auth_value(token: Token) -> Seq<char> {
    token.token_type@ + " "@ + token.access_token@
}

/// The password-grant form that exchanges credentials for a token.
pub open spec fn token_form(creds: Credentials) -> Seq<(Seq<char>, Seq<char>)> {
    seq![
        ("grant_type"@, "password"@),
        ("username"@, creds.client_id@),
        ("password"@, creds.client_secret@),
    ]
}

/// The conditional-fetch header for the last tag seen, if any.
pub open spec fn validator_headers(etag: Option<String>) -> Seq<(Seq<char>, Seq<char>)> {
    match etag {
        Some(e) => seq![("If-None-Match"@, e@)],
        None => seq![],
    }
}

/// A bearer request to `path` on the service at `base`, with no form body
/// and, after `extra`, the `Authorization` header.
pub open spec fn bearer_request(
    req: HttpRequest,
    method: Method,
    base: Seq<char>,
    path: Seq<char>,
    extra: Seq<(Seq<char>, Seq<char>)>,
    token: Token,
) -> bool {
    &&& req.method == method
    &&& req.url@ == base + path
    &&& headers_of(req) == extra + seq![("Authorization"@, auth_value(token))]
    &&& req.form@.len() == 0
}

/// Detail of the error given when the service answers "unchanged" and no
/// cache is configured.
pub open spec fn cache_unavailable_detail() -> Seq<char> {
    "cache requested but not available locally"@
}

/// `r` is what an answer with `status` and `body` means under `config`.
pub open spec fn rules_reply_for(r: RulesReply, config: ClientConfig, status: u16, body: Seq<char>) -> bool {
    if status == NOT_MODIFIED {
        match config.cache_path {
            Some(path) => r == RulesReply::LoadCache(path),
            None => r is Failed && r->Failed_0 is Cache && r->Failed_0->Cache_0@
                == cache_unavailable_detail(),
        }
    } else if success_status(status) {
        r is Fresh
    } else {
        r is Failed && r->Failed_0 is Connection && r->Failed_0->Connection_0@ == status_detail(
            "Failed to fetch rules"@,
            status,
            body,
        )
    }
}

/// `r` is the outcome of reading the cache file at `path`, which held
/// `stored` (`None`: the file does not exist).
pub open spec fn cache_load_for(
    r: Result<RulesList, WarpRulesError>,
    path: Seq<char>,
    stored: Option<RulesCache>,
) -> bool {
    match stored {
        None => r is Err && r->Err_0 is Cache && r->Err_0->Cache_0@ == "cache file not found: "@
            + path,
        Some(record) => r is Ok && record.restores(r->Ok_0),
    }
}

/// What to do with the answer to a rules request.
#[derive(Debug)]
pub enum RulesReply {
    /// The rules are unchanged: read them from the cache file at this path.
    LoadCache(String),
    /// The body holds a new rule set.
    Fresh,
    /// The request failed.
    Failed(WarpRulesError),
}

/// The first step of obtaining a token.
#[derive(Debug)]
pub enum AuthStep {
    /// The cached token is still valid: use it, with no request.
    Reuse(Token),
    /// Send this request; its answer goes to `check_token_status` and, on
    /// success, to `accept_token`.
    Request(HttpRequest),
    /// No token can be had.
    Fail(WarpRulesError),
}

/// A cache record to write, and where.
#[derive(Debug)]
pub struct CacheWrite {
    pub path: String,
    pub record: RulesCache,
}

/// The client's state towards the rule service: its configuration, the
/// current token, the tag of the last rule set received, and its version.
///
/// Its methods decide what to send and what to make of the answers; the
/// caller performs the requests.
pub struct WarpRulesClient {
    pub config: ClientConfig,
    pub token: Option<Token>,
    pub last_etag: Option<String>,
    pub current_version: Option<String>,
}

fn authorization_header(token: &Token) -> (r: (String, String))
    ensures
        r.0@ == "Authorization"@,
        r.1@ == auth_value(*token),
{
    let mut value = token.token_type.clone();
    value.append(" ");
    value.append(token.access_token.as_str());
    (String::from_str("Authorization"), value)
}

impl WarpRulesClient {
    /// A cached token exists and is valid at `now`.
    pub open spec fn has_valid_token(&self, now: int) -> bool {
        self.token is Some && self.token->Some_0.valid_at(now)
    }

    /// A client with no token and no rule set seen yet.
    pub fn new(config: ClientConfig) -> (r: Self)
        ensures
            r.config == config,
            r.token is None,
            r.last_etag is None,
            r.current_version is None,
    {
        WarpRulesClient { config, token: None, last_etag: None, current_version: None }
    }

    /// Decides how to obtain a token at the instant `now`: reuse the cached
    /// one while it is valid, fail without credentials, or else request a new
    /// one with the password grant.
    pub fn authenticate_step(&self, now: i64) -> (r: AuthStep)
        ensures
            self.has_valid_token(now as int) ==> r == AuthStep::Reuse(self.token->Some_0),
            !self.has_valid_token(now as int) && self.config.credentials is None ==> r
                == AuthStep::Fail(WarpRulesError::Authentication(r->Fail_0->Authentication_0))
                && r->Fail_0->Authentication_0@ == "credentials are not configured"@,
            !self.has_valid_token(now as int) && self.config.credentials is Some ==> {
                &&& r is Request
                &&& r->Request_0.method == Method::Post
                &&& r->Request_0.url@ == self.config.api_url@ + token_path()
                &&& r->Request_0.headers@.len() == 0
                &&& form_of(r->Request_0) == token_form(self.config.credentials->Some_0)
            },
    {
        if let Some(token) = &self.token {
            if token.is_valid(now) {
                return AuthStep::Reuse(token.clone());
            }
        }
        match &self.config.credentials {
            None => AuthStep::Fail(
                WarpRulesError::Authentication(String::from_str("credentials are not configured")),
            ),
            Some(creds) => {
                let mut form: Vec<(String, String)> = Vec::new();
                form.push(pair("grant_type", "password"));
                form.push((String::from_str("username"), creds.client_id.clone()));
                form.push((String::from_str("password"), creds.client_secret.clone()));
                let req = HttpRequest {
                    method: Method::Post,
                    url: endpoint(&self.config.api_url, "/api/rules/v1/token"),
                    headers: Vec::new(),
                    form,
                };
                assert(form_of(req) =~= token_form(*creds));
                AuthStep::Request(req)
            },
        }
    }

    /// Judges the status of the answer to a token request: anything but a
    /// success is an authentication failure that carries status and body.
    pub fn check_token_status(status: u16, body: &str) -> (r: Result<(), WarpRulesError>)
        ensures
            r is Ok <==> success_status(status),
            r is Err ==> r->Err_0 == WarpRulesError::Authentication(
                r->Err_0->Authentication_0,
            ) && r->Err_0->Authentication_0@ == status_detail(
                "Authentication failed"@,
                status,
                body@,
            ),
    {
        if is_success(status) {
            Ok(())
        } else {
            Err(WarpRulesError::Authentication(describe_status("Authentication failed", status, body)))
        }
    }

    /// Keeps a token that was just issued, stamped with the instant `now`,
    /// in place of any earlier one, and returns it.
    pub fn accept_token(&mut self, token: Token, now: i64) -> (r: Token)
        ensures
            r.access_token == token.access_token,
            r.token_type == token.token_type,
            r.expires_in == token.expires_in,
            r.issued_at == Some(now),
            final(self).token == Some(r),
            final(self).config == old(self).config,
            final(self).last_etag == old(self).last_etag,
            final(self).current_version == old(self).current_version,
    {
        let mut token = token;
        token.issued_at = Some(now);
        self.token = Some(token.clone());
        token
    }

    /// The request that fetches the rules: the conditional header when a tag
    /// is known, then the token.
    pub fn rules_request(&self, token: &Token) -> (r: HttpRequest)
        ensures
            bearer_request(
                r,
                Method::Get,
                self.config.api_url@,
                rules_path(),
                validator_headers(self.last_etag),
                *token,
            ),
    {
        let mut headers: Vec<(String, String)> = Vec::new();
        if let Some(etag) = &self.last_etag {
            headers.push((String::from_str("If-None-Match"), etag.clone()));
        }
        headers.push(authorization_header(token));
        let req = HttpRequest {
            method: Method::Get,
            url: endpoint(&self.config.api_url, "/api/rules/v1/rules"),
            headers,
            form: Vec::new(),
        };
        assert(headers_of(req) =~= validator_headers(self.last_etag) + seq![
            ("Authorization"@, auth_value(*token)),
        ]);
        req
    }

    /// Decides what the answer to a rules request means. "Unchanged" sends
    /// the caller to the cache file when one is configured and fails with a
    /// cache error otherwise; another status that is not a success is a
    /// connection failure carrying status and body.
    pub fn classify_rules_status(&self, status: u16, body: &str) -> (r: RulesReply)
        ensures
            rules_reply_for(r, self.config, status, body@),
    {
        if status == NOT_MODIFIED {
            match &self.config.cache_path {
                Some(path) => RulesReply::LoadCache(path.clone()),
                None => RulesReply::Failed(
                    WarpRulesError::Cache(
                        String::from_str("cache requested but not available locally"),
                    ),
                ),
            }
        } else if is_success(status) {
            RulesReply::Fresh
        } else {
            RulesReply::Failed(
                WarpRulesError::Connection(describe_status("Failed to fetch rules", status, body)),
            )
        }
    }

    /// Takes in a fresh rule set received at `now` with the tag `etag`:
    /// remembers the tag (an answer without one keeps the earlier tag) and the
    /// version, and returns the cache record to write when a cache file is
    /// configured.
    pub fn accept_rules(&mut self, etag: Option<String>, list: &RulesList, now: i64) -> (r: Option<
        CacheWrite,
    >)
        ensures
            final(self).last_etag == (if etag is Some {
                etag
            } else {
                old(self).last_etag
            }),
            final(self).current_version == Some(list.version),
            final(self).config == old(self).config,
            final(self).token == old(self).token,
            r is Some <==> old(self).config.cache_path is Some,
            r is Some ==> {
                &&& r->Some_0.path == old(self).config.cache_path->Some_0
                &&& r->Some_0.record.rules@ == list.rules@
                &&& r->Some_0.record.version == list.version
                &&& r->Some_0.record.timestamp == now
            },
    {
        if etag.is_some() {
            self.last_etag = etag;
        }
        self.current_version = Some(list.version.clone());
        match &self.config.cache_path {
            Some(path) => Some(
                CacheWrite { path: path.clone(), record: RulesCache::from_rules_list(list, now) },
            ),
            None => None,
        }
    }

    /// The error given when the cache file at `path` does not exist.
    pub fn missing_cache(path: &str) -> (r: WarpRulesError)
        ensures
            r == WarpRulesError::Cache(r->Cache_0),
            r->Cache_0@ == "cache file not found: "@ + path@,
    {
        WarpRulesError::Cache(String::from_str("cache file not found: ").concat(path))
    }

    /// The rule set read back from the cache file at `path`: `stored` is the
    /// record the file held, or `None` when the file does not exist, which is
    /// a cache error. The count is that of the stored rules.
    pub fn load_rules_from_cache(path: &str, stored: Option<RulesCache>) -> (r: Result<
        RulesList,
        WarpRulesError,
    >)
        ensures
            cache_load_for(r, path@, stored),
    {
        match stored {
            None => Err(Self::missing_cache(path)),
            Some(record) => Ok(record.into_rules_list()),
        }
    }

    /// The request that opens the rule event stream.
    pub fn stream_request(&self, token: &Token) -> (r: HttpRequest)
        ensures
            bearer_request(r, Method::Get, self.config.api_url@, stream_path(), seq![], *token),
    {
        let mut headers: Vec<(String, String)> = Vec::new();
        headers.push(authorization_header(token));
        let req = HttpRequest {
            method: Method::Get,
            url: endpoint(&self.config.api_url, "/api/rules/v1/rules/stream"),
            headers,
            form: Vec::new(),
        };
        assert(headers_of(req) =~= seq![("Authorization"@, auth_value(*token))]);
        req
    }

    /// Judges the status of the answer that opens the event stream: anything
    /// but a success is a connection failure carrying status and body.
    pub fn check_stream_status(status: u16, body: &str) -> (r: Result<(), WarpRulesError>)
        ensures
            r is Ok <==> success_status(status),
            r is Err ==> r->Err_0 == WarpRulesError::Connection(r->Err_0->Connection_0)
                && r->Err_0->Connection_0@ == status_detail(
                "Failed to open the rule stream"@,
                status,
                body@,
            ),
    {
        if is_success(status) {
            Ok(())
        } else {
            Err(
                WarpRulesError::Connection(
                    describe_status("Failed to open the rule stream", status, body),
                ),
            )
        }
    }

    /// The error given when the event stream itself fails.
    pub fn stream_failure(detail: &str) -> (r: WarpRulesError)
        ensures
            r == WarpRulesError::Connection(r->Connection_0),
            r->Connection_0@ == "Event stream error: "@ + detail@,
    {
        WarpRulesError::Connection(String::from_str("Event stream error: ").concat(detail))
    }

    /// The request that submits results; its JSON body is the payload.
    pub fn results_request(&self, token: &Token) -> (r: HttpRequest)
        ensures
            bearer_request(r, Method::Post, self.config.api_url@, results_path(), seq![], *token),
    {
        let mut headers: Vec<(String, String)> = Vec::new();
        headers.push(authorization_header(token));
        let req = HttpRequest {
            method: Method::Post,
            url: endpoint(&self.config.api_url, "/api/rules/v1/results"),
            headers,
            form: Vec::new(),
        };
        assert(headers_of(req) =~= seq![("Authorization"@, auth_value(*token))]);
        req
    }

    /// Judges the status of the answer to a submission: anything but a
    /// success is a connection failure carrying status and body.
    pub fn check_results_status(status: u16, body: &str) -> (r: Result<(), WarpRulesError>)
        ensures
            r is Ok <==> success_status(status),
            r is Err ==> r->Err_0 == WarpRulesError::Connection(r->Err_0->Connection_0)
                && r->Err_0->Connection_0@ == status_detail("Failed to send results"@, status, body@),
    {
        if is_success(status) {
            Ok(())
        } else {
            Err(WarpRulesError::Connection(describe_status("Failed to send results", status, body)))
        }
    }
}

/// An "unchanged" answer with no cache configured is a cache error; with a
/// cache file configured that holds a record, the rules returned are that
/// record's, with their count.
pub proof fn lemma_not_modified_fallback(
    config: ClientConfig,
    body: Seq<char>,
    reply: RulesReply,
    record: RulesCache,
    loaded: Result<RulesList, WarpRulesError>,
)
    requires
        rules_reply_for(reply, config, NOT_MODIFIED, body),
        config.cache_path is Some ==> cache_load_for(loaded, config.cache_path->Some_0@, Some(record)),
    ensures
        config.cache_path is None ==> reply is Failed && reply->Failed_0 is Cache,
        config.cache_path is Some ==> {
            &&& reply == RulesReply::LoadCache(config.cache_path->Some_0)
            &&& loaded is Ok
            &&& loaded->Ok_0.rules@ == record.rules@
            &&& loaded->Ok_0.count == loaded->Ok_0.rules@.len()
        },
{
}

} // verus!
