//! HTTP decisions: retry backoff, response classification, retry verdicts
//! and the circuit breaker. The transport itself lives with the caller.

pub mod client;
pub mod query;
pub mod retry;

pub use retry::RetryConfig;
