//! Agent tool-orchestration and credential lifecycle engine.
//!
//! The crate verifies the decision logic of a desktop AI sidekick: the
//! bounded conversation loop that lets a model invoke tools, and the OAuth
//! credential lifecycle (encryption at rest, staleness, refresh, retry).

pub mod audio;
pub mod briefing;
pub mod catalog;
pub mod chat;
pub mod cipher;
pub mod client;
pub mod convo;
pub mod dispatch;
pub mod encoding;
pub mod gcal;
pub mod gtasks;
pub mod lifecycle;
pub mod lines;
pub mod mail;
pub mod oauth;
pub mod orchestrator;
pub mod query;
pub mod records;
pub mod scheduler;
pub mod settings;
pub mod setup;
pub mod tokens;
pub mod value;
pub mod weather;
