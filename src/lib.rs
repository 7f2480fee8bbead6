//! Client core that keeps a local rule set synchronized with a remote rule
//! service: credential handling, conditional fetch with an on-disk fallback,
//! the background monitor's decisions and the shared rule store.
//!
//! No function here performs I/O or reads the clock: each takes the current
//! instant as an argument, decides what to send, and what to do with what came
//! back. The program around it performs the requests.

pub mod client;
pub mod http;
pub mod message;
pub mod models;
pub mod monitor;
pub mod store;
pub mod sync;

pub use crate::client::WarpRulesClient;
pub use crate::models::{
    AgentContext, ClientConfig, Credentials, ResultsPayload, Rule, RuleResult, RulesCache,
    RulesList, Token, WarpRulesError, WarpRulesResult,
};
