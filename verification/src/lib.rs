//! A merge queue for pull requests: the queue itself, the rules that turn a
//! pull request's remote status into an action, and the agent's protocol.

pub mod text;

pub mod pull_request;
pub mod config;
pub mod notifier;
pub mod queue;
pub mod protocol;
pub mod client;
pub mod runner;
pub mod system;
pub mod agent;
