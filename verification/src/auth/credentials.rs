//! OAuth2 client credentials and stored tokens.

use vstd::prelude::*;

verus! {

/// OAuth2 client credentials (from Google Cloud Console).
#[derive(Debug, Clone)]
pub struct ClientCredentials {
    pub installed: Option<InstalledCredentials>,
    pub web: Option<WebCredentials>,
}

#[derive(Debug, Clone)]
pub struct InstalledCredentials {
    pub client_id: String,
    pub client_secret: String,
    pub auth_uri: String,
    pub token_uri: String,
    pub redirect_uris: Vec<String>,
}

#[derive(Debug, Clone)]
pub struct WebCredentials {
    pub client_id: String,
    pub client_secret: String,
    pub auth_uri: String,
    pub token_uri: String,
    pub redirect_uris: Vec<String>,
}

/// The client id: the installed one first, then the web one.
pub open spec fn spec_client_id(c: ClientCredentials) -> Option<Seq<char>> {
    match c.installed {
        Some(i) => Some(i.client_id@),
        None => match c.web {
            Some(w) => Some(w.client_id@),
            None => None,
        },
    }
}

/// The client secret: the installed one first, then the web one.
pub open spec fn spec_client_secret(c: ClientCredentials) -> Option<Seq<char>> {
    match c.installed {
        Some(i) => Some(i.client_secret@),
        None => match c.web {
            Some(w) => Some(w.client_secret@),
            None => None,
        },
    }
}

/// The token URI: the installed one first, then the web one.
pub open spec fn spec_token_uri(c: ClientCredentials) -> Option<Seq<char>> {
    match c.installed {
        Some(i) => Some(i.token_uri@),
        None => match c.web {
            Some(w) => Some(w.token_uri@),
            None => None,
        },
    }
}

/// The registered redirect URIs: the installed ones first, then the web
/// ones, none when neither kind is present.
pub open spec fn spec_redirect_uris(c: ClientCredentials) -> Seq<String> {
    match c.installed {
        Some(i) => i.redirect_uris@,
        None => match c.web {
            Some(w) => w.redirect_uris@,
            None => Seq::empty(),
        },
    }
}

/// Matches an optional borrowed string against an optional spec string.
pub open spec fn opt_str_is(r: Option<&str>, s: Option<Seq<char>>) -> bool {
    match r {
        Some(x) => s == Some(x@),
        None => s.is_none(),
    }
}

impl ClientCredentials {
    /// Get the client ID regardless of credential type.
    pub fn client_id(&self) -> (r: Option<&str>)
        ensures
            opt_str_is(r, spec_client_id(*self)),
    {
        match &self.installed {
            Some(c) => Some(c.client_id.as_str()),
            None => match &self.web {
                Some(c) => Some(c.client_id.as_str()),
                None => None,
            },
        }
    }

    /// Get the client secret regardless of credential type.
    pub fn client_secret(&self) -> (r: Option<&str>)
        ensures
            opt_str_is(r, spec_client_secret(*self)),
    {
        match &self.installed {
            Some(c) => Some(c.client_secret.as_str()),
            None => match &self.web {
                Some(c) => Some(c.client_secret.as_str()),
                None => None,
            },
        }
    }

    /// Get the token URI.
    pub fn token_uri(&self) -> (r: Option<&str>)
        ensures
            opt_str_is(r, spec_token_uri(*self)),
    {
        match &self.installed {
            Some(c) => Some(c.token_uri.as_str()),
            None => match &self.web {
                Some(c) => Some(c.token_uri.as_str()),
                None => None,
            },
        }
    }

    /// Get the registered redirect URIs.
    pub fn redirect_uris(&self) -> (r: &[String])
        ensures
            r@ == spec_redirect_uris(*self),
    {
        match &self.installed {
            Some(c) => c.redirect_uris.as_slice(),
            None => match &self.web {
                Some(c) => c.redirect_uris.as_slice(),
                None => &[],
            },
        }
    }

    /// Whether this is a "web" type credential (vs "installed"/desktop).
    pub fn is_web(&self) -> (r: bool)
        ensures
            r == self.web.is_some(),
    {
        self.web.is_some()
    }
}

/// Safety margin, in milliseconds, before expiry within which an access
/// token is no longer treated as valid.
pub const VALIDITY_MARGIN_MS: i64 = 60_000;

/// A stored OAuth2 token (refresh token + metadata).
///
/// `expires_at` is the expiry instant in milliseconds since the Unix epoch.
#[derive(Debug, Clone)]
pub struct StoredToken {
    pub email: String,
    pub refresh_token: String,
    pub scopes: Vec<String>,
    pub client_name: Option<String>,
    pub access_token: Option<String>,
    pub expires_at: Option<i64>,
}

/// A token is valid at `now` when it has an access token and its expiry lies
/// more than the safety margin after `now`.
pub open spec fn token_valid_at(t: StoredToken, now_ms: int) -> bool {
    match (t.access_token, t.expires_at) {
        (Some(_), Some(exp)) => exp > now_ms + VALIDITY_MARGIN_MS,
        _ => false,
    }
}

/// The current wall-clock time in milliseconds since the Unix epoch.
///
/// Calls `chrono::Utc::now().timestamp_millis()`. The result depends on the
/// clock, so no clause relates it to anything.
#[verifier::external_body]
fn now_unix_millis() -> (r: i64) {
    chrono::Utc::now().timestamp_millis()
}

impl StoredToken {
    /// Whether the access token is still valid at `now_ms` (with a 60s margin).
    pub fn is_valid_at(&self, now_ms: i64) -> (r: bool)
        ensures
            r == token_valid_at(*self, now_ms as int),
    {
        match (&self.access_token, &self.expires_at) {
            (Some(_), Some(expires)) => {
                let e: i64 = *expires;
                e as i128 > now_ms as i128 + VALIDITY_MARGIN_MS as i128
            },
            _ => false,
        }
    }

    /// Check if the access token is still valid (with 60s margin) at the
    /// current time. The result is the validity at the instant the clock
    /// was read; which instant that was is not known here.
    pub fn is_valid(&self) -> (r: bool)
        ensures
            exists|now: i64| r == #[trigger] token_valid_at(*self, now as int),
            r ==> self.access_token.is_some() && self.expires_at.is_some(),
            self.access_token.is_none() || self.expires_at.is_none() ==> !r,
    {
        let now = now_unix_millis();
        let r = self.is_valid_at(now);
        assert(r == token_valid_at(*self, now as int));
        r
    }
}

} // verus!
