use vstd::prelude::*;

use std::collections::HashMap;


verus! {

/// Seconds before expiry from which a token is no longer trusted.
pub const EXPIRY_MARGIN_SECS: i64 = 60;

/// Failure of a client operation.
#[derive(Debug, PartialEq, Eq)]
pub enum WarpRulesError {
    /// Missing credentials, or the service refused them.
    Authentication(String),
    /// The service answered with a status that is not a success.
    Connection(String),
    /// The rules could not be evaluated, or the rule store could not be locked.
    RuleProcessing(String),
    /// A cached rule set was needed and none could be read.
    Cache(String),
    /// The HTTP transport failed.
    Http(String),
    /// A body could not be encoded or decoded.
    Serialization(String),
    /// A file could not be read or written.
    Io(String),
    /// Anything else.
    Unknown(String),
}

impl WarpRulesError {
    pub open spec fn label(&self) -> Seq<char> {
        match self {
            WarpRulesError::Authentication(_) => "Authentication error: "@,
            WarpRulesError::Connection(_) => "Connection error: "@,
            WarpRulesError::RuleProcessing(_) => "Rule processing error: "@,
            WarpRulesError::Cache(_) => "Cache error: "@,
            WarpRulesError::Http(_) => "HTTP request error: "@,
            WarpRulesError::Serialization(_) => "Serialization error: "@,
            WarpRulesError::Io(_) => "I/O error: "@,
            WarpRulesError::Unknown(_) => "Unknown error: "@,
        }
    }

    pub open spec fn detail(&self) -> Seq<char> {
        match self {
            WarpRulesError::Authentication(m) => m@,
            WarpRulesError::Connection(m) => m@,
            WarpRulesError::RuleProcessing(m) => m@,
            WarpRulesError::Cache(m) => m@,
            WarpRulesError::Http(m) => m@,
            WarpRulesError::Serialization(m) => m@,
            WarpRulesError::Io(m) => m@,
            WarpRulesError::Unknown(m) => m@,
        }
    }

    /// Human-readable text: the kind of failure followed by its detail.
    pub fn message(&self) -> (r: String)
        ensures
            r@ == self.label() + self.detail(),
    {
        let (label, detail) = match self {
            WarpRulesError::Authentication(m) => ("Authentication error: ", m),
            WarpRulesError::Connection(m) => ("Connection error: ", m),
            WarpRulesError::RuleProcessing(m) => ("Rule processing error: ", m),
            WarpRulesError::Cache(m) => ("Cache error: ", m),
            WarpRulesError::Http(m) => ("HTTP request error: ", m),
            WarpRulesError::Serialization(m) => ("Serialization error: ", m),
            WarpRulesError::Io(m) => ("I/O error: ", m),
            WarpRulesError::Unknown(m) => ("Unknown error: ", m),
        };
        String::from_str(label).concat(detail.as_str())
    }
}

/// Result of a client operation.
pub type WarpRulesResult<T> = Result<T, WarpRulesError>;

/// Where the rule service lives and how the client keeps up with it.
#[derive(Debug)]
pub struct ClientConfig {
    /// Base URL of the rule service, without a trailing slash.
    pub api_url: String,
    /// Credentials used to obtain tokens.
    pub credentials: Option<Credentials>,
    /// File holding the last rule set received, if one is kept.
    pub cache_path: Option<String>,
    /// Seconds between two fetches when polling.
    pub refresh_interval: Option<u64>,
    /// Whether the monitor listens to the event stream rather than polling.
    pub use_sse: bool,
}

impl Clone for ClientConfig {
    fn clone(&self) -> (r: Self)
        ensures
            r == *self,
    {
        ClientConfig {
            api_url: self.api_url.clone(),
            credentials: match &self.credentials {
                Some(c) => Some(c.clone()),
                None => None,
            },
            cache_path: match &self.cache_path {
                Some(p) => Some(p.clone()),
                None => None,
            },
            refresh_interval: self.refresh_interval,
            use_sse: self.use_sse,
        }
    }
}

/// Refresh interval of the default configuration, in seconds.
pub const DEFAULT_REFRESH_SECS: u64 = 300;

impl Default for ClientConfig {
    /// A local service, no credentials and no cache, streaming enabled, and
    /// polling every five minutes as the fallback.
    fn default() -> (r: Self)
        ensures
            r.api_url@ == "http://localhost:8001"@,
            r.credentials is None,
            r.cache_path is None,
            r.refresh_interval == Some(DEFAULT_REFRESH_SECS),
            r.use_sse,
    {
        ClientConfig {
            api_url: String::from_str("http://localhost:8001"),
            credentials: None,
            cache_path: None,
            refresh_interval: Some(DEFAULT_REFRESH_SECS),
            use_sse: true,
        }
    }
}

/// One rule as the service describes it. Two rules are equal when every field is.
#[derive(Debug, PartialEq, Eq)]
pub struct Rule {
    pub id: String,
    pub name: String,
    pub content: String,
    pub active: bool,
    pub version: String,
}

impl Clone for Rule {
    fn clone(&self) -> (r: Self)
        ensures
            r == *self,
    {
        Rule {
            id: self.id.clone(),
            name: self.name.clone(),
            content: self.content.clone(),
            active: self.active,
            version: self.version.clone(),
        }
    }
}

impl Rule {
    /// `Regra '<name>' (<id>): <content>`.
    pub fn describe(&self) -> (r: String)
        ensures
            r@ == "Regra '"@ + self.name@ + "' ("@ + self.id@ + "): "@ + self.content@,
    {
        let mut s = String::from_str("Regra '");
        s.append(self.name.as_str());
        s.append("' (");
        s.append(self.id.as_str());
        s.append("): ");
        s.append(self.content.as_str());
        s
    }
}

/// Copies a list of rules, rule by rule.
pub fn copy_rules(rules: &Vec<Rule>) -> (r: Vec<Rule>)
    ensures
        r@ == rules@,
{
    let r = rules.clone();
    assert(r@ =~= rules@);
    r
}

/// A rule set: the rules in order, the count the service gave, and the
/// version tag that marks its freshness.
#[derive(Debug)]
pub struct RulesList {
    pub rules: Vec<Rule>,
    pub count: usize,
    pub version: String,
}

impl Clone for RulesList {
    fn clone(&self) -> (r: Self)
        ensures
            r.rules@ == self.rules@,
            r.count == self.count,
            r.version == self.version,
    {
        RulesList { rules: copy_rules(&self.rules), count: self.count, version: self.version.clone() }
    }
}

/// The rule set kept on disk, with the instant it was written (seconds since
/// the Unix epoch).
#[derive(Debug)]
pub struct RulesCache {
    pub rules: Vec<Rule>,
    pub version: String,
    pub timestamp: i64,
}

impl RulesCache {
    /// This record stores `list`, stamped with `timestamp`.
    pub open spec fn records(self, list: RulesList, timestamp: i64) -> bool {
        &&& self.rules@ == list.rules@
        &&& self.version == list.version
        &&& self.timestamp == timestamp
    }

    /// `list` is the rule set this record stands for: its rules and version,
    /// with the count of its rules.
    pub open spec fn restores(self, list: RulesList) -> bool {
        &&& list.rules@ == self.rules@
        &&& list.count == self.rules@.len()
        &&& list.version == self.version
    }

    /// The record to persist for `list`, stamped with `timestamp`.
    pub fn from_rules_list(list: &RulesList, timestamp: i64) -> (r: RulesCache)
        ensures
            r.records(*list, timestamp),
    {
        RulesCache { rules: copy_rules(&list.rules), version: list.version.clone(), timestamp }
    }

    /// The rule set a stored record stands for; its count is that of the
    /// stored rules.
    pub fn into_rules_list(self) -> (r: RulesList)
        ensures
            self.restores(r),
    {
        let count = self.rules.len();
        RulesList { rules: self.rules, count, version: self.version }
    }
}

/// Storing a rule set and reading the record back gives the same rules, in
/// the same order, the same version, and a count equal to the number of rules.
pub proof fn lemma_cache_round_trip(list: RulesList, timestamp: i64, stored: RulesCache, back: RulesList)
    requires
        stored.records(list, timestamp),
        stored.restores(back),
    ensures
        back.rules@ == list.rules@,
        back.version == list.version,
        back.count == back.rules@.len(),
{
}

/// Declares `serde_json::Value` so that the library's records can carry
/// free-form structured values through unchanged.
#[verifier::external_type_specification]
#[verifier::external_body]
pub struct ExJsonValue(serde_json::Value);

/// The state an agent exposes to rule evaluation.
pub struct AgentContext {
    pub agent_id: String,
    pub agent_name: String,
    /// Free-form values read and written by rule evaluation.
    pub state: HashMap<String, serde_json::Value>,
    /// Last change, in seconds since the Unix epoch.
    pub last_updated: i64,
}

impl Default for AgentContext {
    /// Empty identifiers, no state, and the epoch as the last change.
    fn default() -> (r: Self)
        ensures
            r.agent_id@ == Seq::<char>::empty(),
            r.agent_name@ == Seq::<char>::empty(),
            r.state@ == Map::<String, serde_json::Value>::empty(),
            r.last_updated == 0,
    {
        AgentContext {
            agent_id: String::new(),
            agent_name: String::new(),
            state: HashMap::new(),
            last_updated: 0,
        }
    }
}

/// Outcome of applying one rule.
pub struct RuleResult {
    pub rule_id: String,
    pub applied: bool,
    pub outcome: Option<serde_json::Value>,
    /// Instant of application, in seconds since the Unix epoch.
    pub timestamp: i64,
    pub agent_id: String,
}

/// Results submitted to the service in one request.
pub struct ResultsPayload {
    pub results: Vec<RuleResult>,
    pub agent_info: serde_json::Value,
}

/// Client identifier and secret used to obtain a token.
#[derive(Debug)]
pub struct Credentials {
    pub client_id: String,
    pub client_secret: String,
}

impl Clone for Credentials {
    fn clone(&self) -> (r: Self)
        ensures
            r == *self,
    {
        Credentials { client_id: self.client_id.clone(), client_secret: self.client_secret.clone() }
    }
}

/// Bearer credential handed out by the rule service.
///
/// `issued_at` is the instant it was received, in seconds since the Unix
/// epoch; a token that was never stamped is never valid.
#[derive(Debug)]
pub struct Token {
    pub access_token: String,
    pub token_type: String,
    pub expires_in: i64,
    pub issued_at: Option<i64>,
}

impl Clone for Token {
    fn clone(&self) -> (r: Self)
        ensures
            r == *self,
    {
        Token {
            access_token: self.access_token.clone(),
            token_type: self.token_type.clone(),
            expires_in: self.expires_in,
            issued_at: self.issued_at,
        }
    }
}

impl Token {
    /// The token expires more than the safety margin after `now`.
    pub open spec fn valid_at(&self, now: int) -> bool {
        match self.issued_at {
            Some(t) => t + self.expires_in > now + EXPIRY_MARGIN_SECS,
            None => false,
        }
    }

    /// Whether the token can still be used at the instant `now` (seconds since
    /// the Unix epoch).
    pub fn is_valid(&self, now: i64) -> (r: bool)
        ensures
            r == self.valid_at(now as int),
    {
        match self.issued_at {
            Some(t) => (t as i128) + (self.expires_in as i128) > (now as i128) + (
            EXPIRY_MARGIN_SECS as i128),
            None => false,
        }
    }
}

/// A token stamped `lifetime - 30` seconds ago falls inside the safety margin
/// and is invalid; one stamped `lifetime - 120` seconds ago is still valid.
pub proof fn lemma_validity_margin(token: Token, now: int)
    requires
        token.issued_at is Some,
    ensures
        token.issued_at->Some_0 == now - (token.expires_in - 30) ==> !token.valid_at(now),
        token.issued_at->Some_0 == now - (token.expires_in - 120) ==> token.valid_at(now),
{
}

} // verus!
