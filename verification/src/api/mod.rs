//! The daemon side: polling-monitor subscriptions and the dispatch of
//! protocol requests.

pub mod monitor;
pub mod session;
