//! Verified core of the `cog` Google Workspace client: error taxonomy,
//! destructive-operation gates, configuration lookups, credentials,
//! HTTP response classification, retry and circuit-breaker decisions,
//! and the data transformations behind the service clients.

pub mod api;
pub mod auth;
pub mod config;
pub mod destructive;
pub mod error;
pub mod http;
pub mod services;
pub mod strmap;
pub mod text;
pub mod types;

pub use error::{Error, HttpError, Result};
