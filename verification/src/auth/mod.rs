//! Credentials, token storage decisions and OAuth2 request logic.

pub mod credentials;
pub mod keyring;
pub mod oauth2;
pub mod service_account;

pub use credentials::{ClientCredentials, StoredToken};
pub use oauth2::OAuth2Client;
