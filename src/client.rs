use vstd::prelude::*;

use crate::models::{ClientConfig, Credentials, Rule, RulesList};
use crate::monitor::{Activity, Monitor, StartOutcome};
use crate::sync::WarpRulesClient as SyncClient;

verus! {

/// The client as its users see it: configuration, the state towards the
/// rule service, the background monitor's lifecycle, and when the rules were
/// last fetched (seconds since the Unix epoch).
pub struct WarpRulesClient {
    pub sync_client: SyncClient,
    pub config: ClientConfig,
    pub monitor: Monitor,
    pub last_fetch: Option<i64>,
}

impl WarpRulesClient {
    /// The service state follows the configuration, and the monitor is
    /// well formed.
    pub open spec fn wf(&self) -> bool {
        &&& self.sync_client.config == self.config
        &&& self.monitor.wf()
    }

    /// A client with no token, no rules fetched and no monitor running.
    pub fn new(config: ClientConfig) -> (r: Self)
        ensures
            r.config == config,
            r.sync_client.config == config,
            r.sync_client.token is None,
            r.sync_client.last_etag is None,
            r.sync_client.current_version is None,
            r.monitor.active is None,
            r.monitor.launched == 0,
            r.last_fetch is None,
            r.wf(),
    {
        let sync_client = SyncClient::new(config.clone());
        WarpRulesClient { sync_client, config, monitor: Monitor::new(), last_fetch: None }
    }

    /// Keeps the rules fetched at `now` and hands them out.
    pub fn record_fetch(&mut self, list: RulesList, now: i64) -> (r: Vec<Rule>)
        ensures
            r@ == list.rules@,
            final(self).last_fetch == Some(now),
            final(self).sync_client == old(self).sync_client,
            final(self).config == old(self).config,
            final(self).monitor == old(self).monitor,
    {
        self.last_fetch = Some(now);
        list.rules
    }

    /// Starts the background monitor, unless it runs already or neither
    /// streaming nor polling is configured. A launched activity is to be run
    /// with a service state of its own, from `monitor_client`.
    pub fn start_monitor(&mut self) -> (r: StartOutcome)
        ensures
            (final(self).monitor, r) == old(self).monitor.start_spec(old(self).config),
            final(self).sync_client == old(self).sync_client,
            final(self).config == old(self).config,
            final(self).last_fetch == old(self).last_fetch,
            old(self).wf() ==> final(self).wf(),
    {
        self.monitor.start(&self.config)
    }

    /// Stops the background monitor; returns the activity to cancel, if one
    /// was running.
    pub fn stop_monitor(&mut self) -> (r: Option<Activity>)
        ensures
            r == old(self).monitor.active,
            final(self).monitor == old(self).monitor.stop_spec(),
            final(self).sync_client == old(self).sync_client,
            final(self).config == old(self).config,
            final(self).last_fetch == old(self).last_fetch,
            old(self).wf() ==> final(self).wf(),
    {
        self.monitor.stop()
    }

    /// A fresh service state for a background activity, so that it never
    /// shares a token or a tag with the foreground path.
    pub fn monitor_client(&self) -> (r: SyncClient)
        ensures
            r.config == self.config,
            r.token is None,
            r.last_etag is None,
            r.current_version is None,
    {
        SyncClient::new(self.config.clone())
    }

    /// The same client, keeping its rules in the cache file at `path`.
    pub fn with_cache_path(self, path: String) -> (r: Self)
        ensures
            r.config == (ClientConfig { cache_path: Some(path), ..self.config }),
            r.sync_client == (SyncClient {
                config: (ClientConfig { cache_path: Some(path), ..self.sync_client.config }),
                ..self.sync_client
            }),
            r.monitor == self.monitor,
            r.last_fetch == self.last_fetch,
            self.wf() ==> r.wf(),
    {
        let mut s = self;
        s.config.cache_path = Some(path.clone());
        s.sync_client.config.cache_path = Some(path);
        s
    }

    /// The same client, authenticating with these credentials.
    pub fn with_credentials(self, client_id: &str, client_secret: &str) -> (r: Self)
        ensures
            r.config.credentials is Some,
            r.config.credentials->Some_0.client_id@ == client_id@,
            r.config.credentials->Some_0.client_secret@ == client_secret@,
            r.config == (ClientConfig { credentials: r.config.credentials, ..self.config }),
            r.sync_client == (SyncClient {
                config: (ClientConfig { credentials: r.config.credentials, ..self.sync_client.config }),
                ..self.sync_client
            }),
            r.monitor == self.monitor,
            r.last_fetch == self.last_fetch,
            self.wf() ==> r.wf(),
    {
        let creds = Credentials {
            client_id: String::from_str(client_id),
            client_secret: String::from_str(client_secret),
        };
        let mut s = self;
        s.config.credentials = Some(creds.clone());
        s.sync_client.config.credentials = Some(creds);
        s
    }

    /// The same client, with streaming switched on or off.
    pub fn with_sse(self, use_sse: bool) -> (r: Self)
        ensures
            r.config == (ClientConfig { use_sse, ..self.config }),
            r.sync_client == (SyncClient {
                config: (ClientConfig { use_sse, ..self.sync_client.config }),
                ..self.sync_client
            }),
            r.monitor == self.monitor,
            r.last_fetch == self.last_fetch,
            self.wf() ==> r.wf(),
    {
        let mut s = self;
        s.config.use_sse = use_sse;
        s.sync_client.config.use_sse = use_sse;
        s
    }

    /// The same client, polling every `seconds` when streaming is off.
    pub fn with_refresh_interval(self, seconds: u64) -> (r: Self)
        ensures
            r.config == (ClientConfig { refresh_interval: Some(seconds), ..self.config }),
            r.sync_client == (SyncClient {
                config: (ClientConfig { refresh_interval: Some(seconds), ..self.sync_client.config }),
                ..self.sync_client
            }),
            r.monitor == self.monitor,
            r.last_fetch == self.last_fetch,
            self.wf() ==> r.wf(),
    {
        let mut s = self;
        s.config.refresh_interval = Some(seconds);
        s.sync_client.config.refresh_interval = Some(seconds);
        s
    }
}

} // verus!
