use vstd::prelude::*;

use crate::models::{ClientConfig, RulesList, WarpRulesError};

verus! {

/// Seconds between the end of a stream connection and the next attempt.
pub const RECONNECT_DELAY_SECS: u64 = 5;

/// How a running monitor keeps the rules fresh.
#[derive(Debug, Clone, Copy, PartialEq, Eq, Structural)]
pub enum MonitorMode {
    /// Listen to the rule event stream, reconnecting when it ends.
    Streaming,
    /// Fetch the rules every so many seconds.
    Polling(u64),
}

/// The mode a configuration asks for: streaming when enabled, else polling
/// when an interval is set, else none.
pub open spec fn mode_for(config: ClientConfig) -> Option<MonitorMode> {
    if config.use_sse {
        Some(MonitorMode::Streaming)
    } else {
        match config.refresh_interval {
            Some(i) => Some(MonitorMode::Polling(i)),
            None => None,
        }
    }
}

/// The mode a configuration asks for.
pub fn select_mode(config: &ClientConfig) -> (r: Option<MonitorMode>)
    ensures
        r == mode_for(*config),
{
    if config.use_sse {
        Some(MonitorMode::Streaming)
    } else {
        match config.refresh_interval {
            Some(i) => Some(MonitorMode::Polling(i)),
            None => None,
        }
    }
}

/// One background activity: its number, and its mode. Numbers count the
/// launches and wrap around past `u64::MAX`, so that two activities launched
/// one after the other never share one.
#[derive(Debug, Clone, Copy, PartialEq, Eq, Structural)]
pub struct Activity {
    pub id: u64,
    pub mode: MonitorMode,
}

/// What `start` decided.
#[derive(Debug, Clone, Copy, PartialEq, Eq, Structural)]
pub enum StartOutcome {
    /// An activity is running already; nothing was launched.
    AlreadyRunning,
    /// Launch this activity.
    Launch(Activity),
    /// Neither streaming nor polling is configured; nothing was launched.
    NotConfigured,
}

/// Lifecycle of the background monitor: the activity that runs, if any, and
/// the number of the last one launched (0 before any launch).
#[derive(Debug, Clone, Copy, PartialEq, Eq, Structural)]
pub struct Monitor {
    pub active: Option<Activity>,
    pub launched: u64,
}

impl Monitor {
    /// The running activity, if any, is the last one launched.
    pub open spec fn wf(&self) -> bool {
        self.active is Some ==> self.active->Some_0.id == self.launched
    }

    /// The number the next activity receives.
    pub open spec fn next_id(self) -> u64 {
        if self.launched == u64::MAX {
            0
        } else {
            (self.launched + 1) as u64
        }
    }

    /// State and outcome of `start` under `config`.
    pub open spec fn start_spec(self, config: ClientConfig) -> (Monitor, StartOutcome) {
        if self.active is Some {
            (self, StartOutcome::AlreadyRunning)
        } else {
            match mode_for(config) {
                Some(mode) => {
                    let a = Activity { id: self.next_id(), mode };
                    (Monitor { active: Some(a), launched: a.id }, StartOutcome::Launch(a))
                },
                None => (self, StartOutcome::NotConfigured),
            }
        }
    }

    /// State after `stop`.
    pub open spec fn stop_spec(self) -> Monitor {
        Monitor { active: None, launched: self.launched }
    }

    /// No activity, none launched.
    pub fn new() -> (r: Self)
        ensures
            r.active is None,
            r.launched == 0,
            r.wf(),
    {
        Monitor { active: None, launched: 0 }
    }

    /// Whether an activity is running.
    pub fn is_running(&self) -> (r: bool)
        ensures
            r == self.active is Some,
    {
        self.active.is_some()
    }

    /// Launches one activity in the mode `config` asks for, unless one is
    /// running already or no mode is configured.
    pub fn start(&mut self, config: &ClientConfig) -> (r: StartOutcome)
        ensures
            (*final(self), r) == old(self).start_spec(*config),
            old(self).wf() ==> final(self).wf(),
    {
        if self.active.is_some() {
            return StartOutcome::AlreadyRunning;
        }
        match select_mode(config) {
            Some(mode) => {
                let id = if self.launched == u64::MAX {
                    0
                } else {
                    self.launched + 1
                };
                let a = Activity { id, mode };
                self.active = Some(a);
                self.launched = a.id;
                StartOutcome::Launch(a)
            },
            None => StartOutcome::NotConfigured,
        }
    }

    /// Ends the running activity, if any, and returns it so that the caller
    /// cancels it.
    pub fn stop(&mut self) -> (r: Option<Activity>)
        ensures
            r == old(self).active,
            *final(self) == old(self).stop_spec(),
            final(self).wf(),
    {
        let r = self.active;
        self.active = None;
        r
    }
}

/// Starting twice in a row launches at most one activity, and leaves exactly
/// one running when a mode is configured; the second start changes nothing.
pub proof fn lemma_start_twice_single_instance(m: Monitor, config: ClientConfig)
    ensures
        ({
            let (m1, o1) = m.start_spec(config);
            let (m2, o2) = m1.start_spec(config);
            &&& m2 == m1
            &&& !(o1 is Launch && o2 is Launch)
            &&& (mode_for(config) is Some || m.active is Some) ==> m2.active is Some
        }),
{
}

/// Stopping and starting again launches a new activity, different from the
/// one that was stopped.
pub proof fn lemma_restart_launches_new(m: Monitor, config: ClientConfig)
    requires
        m.wf(),
        m.active is Some,
        mode_for(config) is Some,
    ensures
        ({
            let (m2, o) = m.stop_spec().start_spec(config);
            &&& o is Launch
            &&& o->Launch_0.id != m.active->Some_0.id
            &&& m2.active == Some(o->Launch_0)
        }),
{
}

/// Where a streaming activity stands.
#[derive(Debug, Clone, Copy, PartialEq, Eq, Structural)]
pub enum StreamState {
    /// A connection is being opened.
    Connecting,
    /// A connection is open; events are being read.
    Listening,
    /// Waiting out the delay before the next attempt.
    Waiting,
}

/// What happened to a streaming activity.
#[derive(Debug)]
pub enum StreamEvent {
    /// The connection opened.
    Opened,
    /// The connection could not be opened.
    OpenFailed,
    /// An event arrived and decoded into this rule set.
    Received(RulesList),
    /// An event could not be read or decoded.
    EventFailed,
    /// The stream ended.
    Ended,
    /// The delay before the next attempt has passed.
    DelayElapsed,
}

/// What the streaming activity does next.
#[derive(Debug)]
pub enum StreamAction {
    /// Open a new connection.
    Open,
    /// Read the next event of the open connection.
    ReadNext,
    /// Replace the stored rules with these, then read the next event.
    Replace(RulesList),
    /// Drop any connection and wait this many seconds.
    Sleep(u64),
    /// Keep waiting for the operation under way.
    Continue,
}

/// State and action of the streaming activity after `event` in `state`.
/// Every failure, and the end of the stream, leads to the fixed delay and
/// then to exactly one new connection attempt; an event that does not belong
/// to the state changes nothing.
pub open spec fn stream_next(state: StreamState, event: StreamEvent) -> (StreamState, StreamAction) {
    match (state, event) {
        (StreamState::Connecting, StreamEvent::Opened) => (StreamState::Listening, StreamAction::ReadNext),
        (StreamState::Connecting, StreamEvent::OpenFailed) => (
            StreamState::Waiting,
            StreamAction::Sleep(RECONNECT_DELAY_SECS),
        ),
        (StreamState::Listening, StreamEvent::Received(list)) => (
            StreamState::Listening,
            StreamAction::Replace(list),
        ),
        (StreamState::Listening, StreamEvent::EventFailed) => (
            StreamState::Waiting,
            StreamAction::Sleep(RECONNECT_DELAY_SECS),
        ),
        (StreamState::Listening, StreamEvent::Ended) => (
            StreamState::Waiting,
            StreamAction::Sleep(RECONNECT_DELAY_SECS),
        ),
        (StreamState::Waiting, StreamEvent::DelayElapsed) => (StreamState::Connecting, StreamAction::Open),
        (s, _) => (s, StreamAction::Continue),
    }
}

/// Where a streaming activity begins: opening its first connection.
pub fn stream_start() -> (r: (StreamState, StreamAction))
    ensures
        r == (StreamState::Connecting, StreamAction::Open),
{
    (StreamState::Connecting, StreamAction::Open)
}

/// One step of a streaming activity.
pub fn stream_step(state: StreamState, event: StreamEvent) -> (r: (StreamState, StreamAction))
    ensures
        r == stream_next(state, event),
{
    match (state, event) {
        (StreamState::Connecting, StreamEvent::Opened) => (StreamState::Listening, StreamAction::ReadNext),
        (StreamState::Connecting, StreamEvent::OpenFailed) => (
            StreamState::Waiting,
            StreamAction::Sleep(RECONNECT_DELAY_SECS),
        ),
        (StreamState::Listening, StreamEvent::Received(list)) => (
            StreamState::Listening,
            StreamAction::Replace(list),
        ),
        (StreamState::Listening, StreamEvent::EventFailed) => (
            StreamState::Waiting,
            StreamAction::Sleep(RECONNECT_DELAY_SECS),
        ),
        (StreamState::Listening, StreamEvent::Ended) => (
            StreamState::Waiting,
            StreamAction::Sleep(RECONNECT_DELAY_SECS),
        ),
        (StreamState::Waiting, StreamEvent::DelayElapsed) => (StreamState::Connecting, StreamAction::Open),
        (s, _) => (s, StreamAction::Continue),
    }
}

/// A stream that ends right after it opened is followed by the fixed delay
/// and then by exactly one new connection attempt: only the end of the delay
/// opens a connection while waiting, and nothing opens another one while
/// that attempt is under way.
pub proof fn lemma_reconnect_once_after_close()
    ensures
        stream_next(StreamState::Connecting, StreamEvent::Opened) == (
            StreamState::Listening,
            StreamAction::ReadNext,
        ),
        stream_next(StreamState::Listening, StreamEvent::Ended) == (
            StreamState::Waiting,
            StreamAction::Sleep(RECONNECT_DELAY_SECS),
        ),
        stream_next(StreamState::Waiting, StreamEvent::DelayElapsed) == (
            StreamState::Connecting,
            StreamAction::Open,
        ),
        forall|e: StreamEvent|
            !(e is DelayElapsed) ==> !(#[trigger] stream_next(StreamState::Waiting, e).1 is Open),
        forall|e: StreamEvent| !(#[trigger] stream_next(StreamState::Connecting, e).1 is Open),
{
}

/// What a polling activity does after one fetch.
#[derive(Debug)]
pub struct PollStep {
    /// The rule set to store, after a successful fetch.
    pub replace: Option<RulesList>,
    /// Seconds to wait before the next fetch.
    pub sleep_secs: u64,
}

/// One step of a polling activity with the given interval: store the rules a
/// fetch returned, keep the rules after a failed one, and wait the interval
/// either way.
pub fn poll_step(interval: u64, outcome: Result<RulesList, WarpRulesError>) -> (r: PollStep)
    ensures
        outcome is Ok ==> r.replace == Some(outcome->Ok_0),
        outcome is Err ==> r.replace is None,
        r.sleep_secs == interval,
{
    match outcome {
        Ok(list) => PollStep { replace: Some(list), sleep_secs: interval },
        Err(_) => PollStep { replace: None, sleep_secs: interval },
    }
}

} // verus!
