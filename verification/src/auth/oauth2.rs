//! OAuth2 scopes, authorization URLs and the token-endpoint exchanges.
//!
//! The HTTP round trips themselves are performed by the caller; this module
//! decides what is sent and what a response turns into.

pub mod scopes;

use crate::auth::credentials::{
    spec_client_id, spec_client_secret, spec_token_uri, token_valid_at, ClientCredentials,
    StoredToken, VALIDITY_MARGIN_MS,
};
use crate::error::{Error, Result};
use crate::text::{form_encode, join_strs, seq_join, str_eq, str_views, string_views, urlencoding};
use vstd::prelude::*;
use vstd::string::StringExecFns;
use vstd::utf8::encode_utf8;

verus! {

/// The scope a service name asks for, by access level; `None` for an
/// unknown service.
pub open spec fn scope_of(service: Seq<char>, readonly: bool) -> Option<Seq<char>> {
    if service == "gmail"@ {
        Some(if readonly { scopes::GMAIL_READONLY@ } else { scopes::GMAIL@ })
    } else if service == "calendar"@ {
        Some(if readonly { scopes::CALENDAR_READONLY@ } else { scopes::CALENDAR@ })
    } else if service == "drive"@ {
        Some(if readonly { scopes::DRIVE_READONLY@ } else { scopes::DRIVE@ })
    } else if service == "docs"@ {
        Some(if readonly { scopes::DOCS_READONLY@ } else { scopes::DOCS@ })
    } else if service == "sheets"@ {
        Some(if readonly { scopes::SHEETS_READONLY@ } else { scopes::SHEETS@ })
    } else if service == "slides"@ {
        Some(if readonly { scopes::SLIDES_READONLY@ } else { scopes::SLIDES@ })
    } else if service == "forms"@ {
        Some(if readonly { scopes::FORMS_READONLY@ } else { scopes::FORMS@ })
    } else if service == "contacts"@ {
        Some(if readonly { scopes::CONTACTS_READONLY@ } else { scopes::CONTACTS@ })
    } else if service == "tasks"@ {
        Some(if readonly { scopes::TASKS_READONLY@ } else { scopes::TASKS@ })
    } else if service == "people"@ {
        Some(scopes::PEOPLE@)
    } else if service == "chat"@ {
        Some(if readonly { scopes::CHAT_READONLY@ } else { scopes::CHAT@ })
    } else if service == "classroom"@ {
        Some(if readonly { scopes::CLASSROOM_READONLY@ } else { scopes::CLASSROOM@ })
    } else if service == "keep"@ {
        Some(if readonly { scopes::KEEP_READONLY@ } else { scopes::KEEP@ })
    } else if service == "appscript"@ {
        Some(scopes::APPSCRIPT@)
    } else if service == "groups"@ {
        Some(scopes::GROUPS@)
    } else {
        None
    }
}

/// The scopes requested for a list of services: the userinfo scope, then
/// each service's scope in order, every scope once.
pub open spec fn scopes_for(services: Seq<Seq<char>>, readonly: bool) -> Seq<Seq<char>>
    decreases services.len(),
{
    if services.len() == 0 {
        seq![scopes::USERINFO@]
    } else {
        let prev = scopes_for(services.drop_last(), readonly);
        match scope_of(services.last(), readonly) {
            Some(s) => if prev.contains(s) {
                prev
            } else {
                prev.push(s)
            },
            None => prev,
        }
    }
}

/// The scope string for a service name, as a static string.
pub fn scope_for_service(service: &str, readonly: bool) -> (r: Option<&'static str>)
    ensures
        match r {
            Some(s) => scope_of(service@, readonly) == Some(s@),
            None => scope_of(service@, readonly).is_none(),
        },
        readonly ==> (r matches Some(s) ==> ends_with(s@, ".readonly"@) || s@ == scopes::APPSCRIPT@),
{
    proof {
        lemma_readonly_scopes(service@);
    }
    if str_eq(service, "gmail") {
        Some(if readonly { scopes::GMAIL_READONLY } else { scopes::GMAIL })
    } else if str_eq(service, "calendar") {
        Some(if readonly { scopes::CALENDAR_READONLY } else { scopes::CALENDAR })
    } else if str_eq(service, "drive") {
        Some(if readonly { scopes::DRIVE_READONLY } else { scopes::DRIVE })
    } else if str_eq(service, "docs") {
        Some(if readonly { scopes::DOCS_READONLY } else { scopes::DOCS })
    } else if str_eq(service, "sheets") {
        Some(if readonly { scopes::SHEETS_READONLY } else { scopes::SHEETS })
    } else if str_eq(service, "slides") {
        Some(if readonly { scopes::SLIDES_READONLY } else { scopes::SLIDES })
    } else if str_eq(service, "forms") {
        Some(if readonly { scopes::FORMS_READONLY } else { scopes::FORMS })
    } else if str_eq(service, "contacts") {
        Some(if readonly { scopes::CONTACTS_READONLY } else { scopes::CONTACTS })
    } else if str_eq(service, "tasks") {
        Some(if readonly { scopes::TASKS_READONLY } else { scopes::TASKS })
    } else if str_eq(service, "people") {
        Some(scopes::PEOPLE)
    } else if str_eq(service, "chat") {
        Some(if readonly { scopes::CHAT_READONLY } else { scopes::CHAT })
    } else if str_eq(service, "classroom") {
        Some(if readonly { scopes::CLASSROOM_READONLY } else { scopes::CLASSROOM })
    } else if str_eq(service, "keep") {
        Some(if readonly { scopes::KEEP_READONLY } else { scopes::KEEP })
    } else if str_eq(service, "appscript") {
        Some(scopes::APPSCRIPT)
    } else if str_eq(service, "groups") {
        Some(scopes::GROUPS)
    } else {
        None
    }
}

/// Whether `list` holds a string equal to `s`.
fn contains_str(list: &Vec<&'static str>, s: &str) -> (r: bool)
    ensures
        r == str_views(list@).contains(s@),
{
    let mut i: usize = 0;
    while i < list.len()
        invariant
            i <= list@.len(),
            forall|k: int| 0 <= k < i ==> list@[k]@ != s@,
        decreases list.len() - i,
    {
        if str_eq(list[i], s) {
            assert(str_views(list@)[i as int] == s@);
            return true;
        }
        i = i + 1;
    }
    assert forall|k: int| 0 <= k < str_views(list@).len() implies str_views(list@)[k] != s@ by {
        assert(str_views(list@)[k] == list@[k]@);
    }
    false
}

/// The OAuth2 token endpoint used when the credentials name none.
pub const DEFAULT_TOKEN_URI: &'static str = "https://oauth2.googleapis.com/token";

/// Response from Google's OAuth2 token endpoint.
#[derive(Debug, Clone)]
pub struct TokenResponse {
    pub access_token: String,
    pub refresh_token: Option<String>,
    pub expires_in: i64,
    pub scope: Option<String>,
    pub token_type: String,
}

/// The authorization URL for the browser flow, with each parameter
/// form-urlencoded from its UTF-8 bytes.
pub open spec fn spec_authorization_url(
    client_id: Seq<char>,
    scopes: Seq<Seq<char>>,
    redirect_uri: Seq<char>,
) -> Seq<char> {
    "https://accounts.google.com/o/oauth2/v2/auth?client_id="@ + form_encode(
        encode_utf8(client_id),
    ) + "&redirect_uri="@ + form_encode(encode_utf8(redirect_uri)) + "&response_type=code&scope="@
        + form_encode(encode_utf8(seq_join(scopes, " "@))) + "&access_type=offline&prompt=consent"@
}

/// The expiry, in Unix milliseconds, of a token issued at `now_ms` that
/// lives `expires_in` seconds.
pub open spec fn expiry_ms(now_ms: int, expires_in: int) -> int {
    now_ms + expires_in * 1000
}

/// Whether the expiry computation stays within `i64`.
pub open spec fn expiry_fits(now_ms: int, expires_in: int) -> bool {
    i64::MIN <= expires_in * 1000 <= i64::MAX && i64::MIN <= expiry_ms(now_ms, expires_in) <= i64::MAX
}

/// Whether the expiry of a token issued at `now_ms` for `expires_in`
/// seconds can be computed (see `expiry_fits`).
pub fn expiry_in_range(now_ms: i64, expires_in: i64) -> (r: bool)
    ensures
        r == expiry_fits(now_ms as int, expires_in as int),
{
    let ms = expires_in as i128 * 1000;
    let total = now_ms as i128 + ms;
    i64::MIN as i128 <= ms && ms <= i64::MAX as i128 && i64::MIN as i128 <= total && total <= i64::MAX as i128
}

/// The token after a refresh response: new access token and expiry, the
/// new refresh token when one was issued, everything else unchanged.
pub open spec fn refreshed(t: StoredToken, resp: TokenResponse, now_ms: int) -> StoredToken {
    StoredToken {
        access_token: Some(resp.access_token),
        expires_at: Some(expiry_ms(now_ms, resp.expires_in as int) as i64),
        refresh_token: match resp.refresh_token {
            Some(r) => r,
            None => t.refresh_token,
        },
        ..t
    }
}

/// The token endpoint: the credentials' token URI, or Google's default.
pub open spec fn spec_token_endpoint(c: ClientCredentials) -> Seq<char> {
    match spec_token_uri(c) {
        Some(u) => u,
        None => DEFAULT_TOKEN_URI@,
    }
}

/// The views of form parameters.
pub open spec fn pair_views(p: Seq<(String, String)>) -> Seq<(Seq<char>, Seq<char>)> {
    p.map_values(|kv: (String, String)| (kv.0@, kv.1@))
}

/// Form parameters of an authorization-code exchange.
pub open spec fn spec_exchange_params(
    code: Seq<char>,
    client_id: Seq<char>,
    client_secret: Seq<char>,
    redirect_uri: Seq<char>,
) -> Seq<(Seq<char>, Seq<char>)> {
    seq![
        ("grant_type"@, "authorization_code"@),
        ("code"@, code),
        ("client_id"@, client_id),
        ("client_secret"@, client_secret),
        ("redirect_uri"@, redirect_uri),
    ]
}

/// Form parameters of a refresh-token exchange.
pub open spec fn spec_refresh_params(
    refresh_token: Seq<char>,
    client_id: Seq<char>,
    client_secret: Seq<char>,
) -> Seq<(Seq<char>, Seq<char>)> {
    seq![
        ("grant_type"@, "refresh_token"@),
        ("refresh_token"@, refresh_token),
        ("client_id"@, client_id),
        ("client_secret"@, client_secret),
    ]
}

fn pair(k: &str, v: &str) -> (r: (String, String))
    ensures
        r.0@ == k@,
        r.1@ == v@,
{
    (k.to_owned(), v.to_owned())
}

/// OAuth2 client for Google API authorization.
#[derive(Debug, Clone)]
pub struct OAuth2Client {
    pub credentials: ClientCredentials,
}

impl OAuth2Client {
    /// Create a new OAuth2 client from credentials.
    pub fn new(credentials: ClientCredentials) -> (r: Self)
        ensures
            r.credentials == credentials,
    {
        Self { credentials }
    }

    /// Get scopes for a set of service names: the userinfo scope first,
    /// then each known service's scope once, in order of first request.
    pub fn scopes_for_services(services: &[&str], readonly: bool) -> (r: Vec<&'static str>)
        ensures
            str_views(r@) == scopes_for(str_views(services@), readonly),
    {
        let mut result: Vec<&'static str> = Vec::new();
        result.push(scopes::USERINFO);
        let ghost sv = str_views(services@);
        assert(str_views(result@) =~= scopes_for(sv.take(0), readonly));
        let mut i: usize = 0;
        while i < services.len()
            invariant
                i <= services@.len(),
                sv == str_views(services@),
                str_views(result@) == scopes_for(sv.take(i as int), readonly),
            decreases services.len() - i,
        {
            assert(sv.take(i + 1).drop_last() =~= sv.take(i as int));
            assert(sv.take(i + 1).last() == services@[i as int]@);
            match scope_for_service(services[i], readonly) {
                Some(scope) => {
                    if !contains_str(&result, scope) {
                        let ghost before = result@;
                        result.push(scope);
                        assert(str_views(result@) =~= str_views(before).push(scope@));
                    }
                },
                None => {},
            }
            i = i + 1;
        }
        assert(sv.take(services@.len() as int) =~= sv);
        result
    }

    /// The token endpoint to post exchanges to.
    pub fn token_endpoint(&self) -> (r: &str)
        ensures
            r@ == spec_token_endpoint(self.credentials),
    {
        match self.credentials.token_uri() {
            Some(u) => u,
            None => DEFAULT_TOKEN_URI,
        }
    }

    /// The form parameters that exchange an authorization code for tokens;
    /// fails when the credentials lack a client id or secret.
    pub fn exchange_params(&self, code: &str, redirect_uri: &str) -> (r: Result<Vec<(String, String)>>)
        ensures
            r is Ok <==> spec_client_id(self.credentials).is_some() && spec_client_secret(
                self.credentials,
            ).is_some(),
            r matches Ok(p) ==> pair_views(p@) == spec_exchange_params(
                code@,
                spec_client_id(self.credentials).unwrap(),
                spec_client_secret(self.credentials).unwrap(),
                redirect_uri@,
            ),
            spec_client_id(self.credentials).is_none() ==> (r matches Err(Error::OAuth2(m)) && m@
                == "missing client_id"@),
            spec_client_id(self.credentials).is_some() && spec_client_secret(self.credentials).is_none()
                ==> (r matches Err(Error::OAuth2(m)) && m@ == "missing client_secret"@),
    {
        let client_id = match self.credentials.client_id() {
            Some(c) => c,
            None => return Err(Error::OAuth2("missing client_id".to_owned())),
        };
        let client_secret = match self.credentials.client_secret() {
            Some(c) => c,
            None => return Err(Error::OAuth2("missing client_secret".to_owned())),
        };
        let mut params: Vec<(String, String)> = Vec::new();
        params.push(pair("grant_type", "authorization_code"));
        params.push(pair("code", code));
        params.push(pair("client_id", client_id));
        params.push(pair("client_secret", client_secret));
        params.push(pair("redirect_uri", redirect_uri));
        assert(pair_views(params@) =~= spec_exchange_params(
            code@,
            spec_client_id(self.credentials).unwrap(),
            spec_client_secret(self.credentials).unwrap(),
            redirect_uri@,
        ));
        Ok(params)
    }

    /// The form parameters that refresh an access token; fails when the
    /// credentials lack a client id or secret.
    pub fn refresh_params(&self, refresh_token: &str) -> (r: Result<Vec<(String, String)>>)
        ensures
            r is Ok <==> spec_client_id(self.credentials).is_some() && spec_client_secret(
                self.credentials,
            ).is_some(),
            r matches Ok(p) ==> pair_views(p@) == spec_refresh_params(
                refresh_token@,
                spec_client_id(self.credentials).unwrap(),
                spec_client_secret(self.credentials).unwrap(),
            ),
            spec_client_id(self.credentials).is_none() ==> (r matches Err(Error::OAuth2(m)) && m@
                == "missing client_id"@),
            spec_client_id(self.credentials).is_some() && spec_client_secret(self.credentials).is_none()
                ==> (r matches Err(Error::OAuth2(m)) && m@ == "missing client_secret"@),
    {
        let client_id = match self.credentials.client_id() {
            Some(c) => c,
            None => return Err(Error::OAuth2("missing client_id".to_owned())),
        };
        let client_secret = match self.credentials.client_secret() {
            Some(c) => c,
            None => return Err(Error::OAuth2("missing client_secret".to_owned())),
        };
        let mut params: Vec<(String, String)> = Vec::new();
        params.push(pair("grant_type", "refresh_token"));
        params.push(pair("refresh_token", refresh_token));
        params.push(pair("client_id", client_id));
        params.push(pair("client_secret", client_secret));
        assert(pair_views(params@) =~= spec_refresh_params(
            refresh_token@,
            spec_client_id(self.credentials).unwrap(),
            spec_client_secret(self.credentials).unwrap(),
        ));
        Ok(params)
    }

    /// The refresh token a code exchange must return; its absence is an
    /// `Error::OAuth2`.
    pub fn exchange_refresh_token(resp: &TokenResponse) -> (r: Result<String>)
        ensures
            match resp.refresh_token {
                Some(t) => r == Ok::<String, Error>(t),
                None => r matches Err(Error::OAuth2(m)) && m@ == "no refresh_token in response"@,
            },
    {
        match &resp.refresh_token {
            Some(t) => Ok(t.clone()),
            None => Err(Error::OAuth2("no refresh_token in response".to_owned())),
        }
    }

    /// The stored token produced by a successful code exchange at `now_ms`.
    pub fn token_from_exchange(
        resp: TokenResponse,
        refresh_token: String,
        email: String,
        scopes: &[&str],
        client_name: Option<&str>,
        now_ms: i64,
    ) -> (t: StoredToken)
        requires
            expiry_fits(now_ms as int, resp.expires_in as int),
        ensures
            t.email == email,
            t.refresh_token == refresh_token,
            string_views(t.scopes@) == str_views(scopes@),
            match client_name {
                Some(c) => t.client_name matches Some(n) && n@ == c@,
                None => t.client_name.is_none(),
            },
            t.access_token == Some(resp.access_token),
            t.expires_at == Some(expiry_ms(now_ms as int, resp.expires_in as int) as i64),
    {
        let mut scope_list: Vec<String> = Vec::new();
        let mut i: usize = 0;
        while i < scopes.len()
            invariant
                i <= scopes@.len(),
                string_views(scope_list@) == str_views(scopes@.take(i as int)),
            decreases scopes.len() - i,
        {
            let ghost before = scope_list@;
            scope_list.push(scopes[i].to_owned());
            assert(string_views(scope_list@) =~= string_views(before).push(scopes@[i as int]@));
            assert(str_views(scopes@.take(i + 1)) =~= str_views(scopes@.take(i as int)).push(
                scopes@[i as int]@,
            ));
            i = i + 1;
        }
        assert(scopes@.take(scopes@.len() as int) =~= scopes@);
        let expires = now_ms + resp.expires_in * 1000;
        StoredToken {
            email,
            refresh_token,
            scopes: scope_list,
            client_name: match client_name {
                Some(c) => Some(c.to_owned()),
                None => None,
            },
            access_token: Some(resp.access_token),
            expires_at: Some(expires),
        }
    }

    /// Whether `token` must be refreshed before use at `now_ms`.
    pub fn needs_refresh(token: &StoredToken, now_ms: i64) -> (r: bool)
        ensures
            r == !token_valid_at(*token, now_ms as int),
    {
        !token.is_valid_at(now_ms)
    }

    /// Applies a refresh response received at `now_ms` to a stored token.
    pub fn apply_refresh(token: &mut StoredToken, resp: TokenResponse, now_ms: i64)
        requires
            expiry_fits(now_ms as int, resp.expires_in as int),
        ensures
            *final(token) == refreshed(*old(token), resp, now_ms as int),
    {
        let expires = now_ms + resp.expires_in * 1000;
        token.access_token = Some(resp.access_token);
        token.expires_at = Some(expires);
        match resp.refresh_token {
            Some(r) => {
                token.refresh_token = r;
            },
            None => {},
        }
    }

    /// Applies the token endpoint's answer to a refresh request, received at
    /// `now_ms`: a response refreshes the token (see `refreshed`); a failed
    /// request leaves the token as it was and returns its error.
    pub fn apply_refresh_answer(token: &mut StoredToken, answer: Result<TokenResponse>, now_ms: i64) -> (r: Result<()>)
        requires
            answer matches Ok(resp) ==> expiry_fits(now_ms as int, resp.expires_in as int),
        ensures
            match answer {
                Ok(resp) => r is Ok && *final(token) == refreshed(*old(token), resp, now_ms as int),
                Err(e) => r == Err::<(), Error>(e) && *final(token) == *old(token),
            },
    {
        match answer {
            Ok(resp) => {
                OAuth2Client::apply_refresh(token, resp, now_ms);
                Ok(())
            },
            Err(e) => Err(e),
        }
    }

    /// The access token to use once the token is fresh; its absence is an
    /// `Error::OAuth2`.
    pub fn current_access_token(token: &StoredToken) -> (r: Result<String>)
        ensures
            match token.access_token {
                Some(a) => r == Ok::<String, Error>(a),
                None => r matches Err(Error::OAuth2(m)) && m@ == "no access token after refresh"@,
            },
    {
        match &token.access_token {
            Some(a) => Ok(a.clone()),
            None => Err(Error::OAuth2("no access token after refresh".to_owned())),
        }
    }

    /// Generate the authorization URL for the browser-based flow; fails
    /// with `Error::OAuth2` exactly when the credentials carry no client id.
    pub fn authorization_url(&self, scopes: &[&str], redirect_uri: &str) -> (r: Result<String>)
        ensures
            r is Ok <==> spec_client_id(self.credentials).is_some(),
            r matches Ok(u) ==> u@ == spec_authorization_url(
                spec_client_id(self.credentials).unwrap(),
                str_views(scopes@),
                redirect_uri@,
            ),
            r matches Err(Error::OAuth2(m)) ==> m@ == "missing client_id"@,
            r is Err ==> r matches Err(Error::OAuth2(_)),
    {
        let client_id = match self.credentials.client_id() {
            Some(c) => c,
            None => return Err(Error::OAuth2("missing client_id".to_owned())),
        };
        let scope_str = join_strs(scopes, " ");
        let mut url = String::from_str("https://accounts.google.com/o/oauth2/v2/auth?client_id=");
        let enc_id = urlencoding(client_id);
        url.append(enc_id.as_str());
        url.append("&redirect_uri=");
        let enc_redirect = urlencoding(redirect_uri);
        url.append(enc_redirect.as_str());
        url.append("&response_type=code&scope=");
        let enc_scope = urlencoding(scope_str.as_str());
        url.append(enc_scope.as_str());
        url.append("&access_type=offline&prompt=consent");
        Ok(url)
    }
}

/// Whether `s` ends with `suffix`.
pub open spec fn ends_with(s: Seq<char>, suffix: Seq<char>) -> bool {
    s.len() >= suffix.len() && s.skip(s.len() - suffix.len()) == suffix
}

proof fn lemma_readonly_scopes_end_readonly()
    ensures
        ends_with(scopes::GMAIL_READONLY@, ".readonly"@),
        ends_with(scopes::CALENDAR_READONLY@, ".readonly"@),
        ends_with(scopes::DRIVE_READONLY@, ".readonly"@),
        ends_with(scopes::DOCS_READONLY@, ".readonly"@),
        ends_with(scopes::SHEETS_READONLY@, ".readonly"@),
        ends_with(scopes::SLIDES_READONLY@, ".readonly"@),
        ends_with(scopes::FORMS_READONLY@, ".readonly"@),
        ends_with(scopes::CONTACTS_READONLY@, ".readonly"@),
        ends_with(scopes::TASKS_READONLY@, ".readonly"@),
        ends_with(scopes::PEOPLE@, ".readonly"@),
        ends_with(scopes::CHAT_READONLY@, ".readonly"@),
        ends_with(scopes::CLASSROOM_READONLY@, ".readonly"@),
        ends_with(scopes::KEEP_READONLY@, ".readonly"@),
        ends_with(scopes::GROUPS@, ".readonly"@),
        !ends_with(scopes::GMAIL@, ".readonly"@),
        !ends_with(scopes::CALENDAR@, ".readonly"@),
        !ends_with(scopes::DRIVE@, ".readonly"@),
        !ends_with(scopes::DOCS@, ".readonly"@),
        !ends_with(scopes::SHEETS@, ".readonly"@),
        !ends_with(scopes::SLIDES@, ".readonly"@),
        !ends_with(scopes::FORMS@, ".readonly"@),
        !ends_with(scopes::CONTACTS@, ".readonly"@),
        !ends_with(scopes::TASKS@, ".readonly"@),
        !ends_with(scopes::CHAT@, ".readonly"@),
        !ends_with(scopes::CLASSROOM@, ".readonly"@),
        !ends_with(scopes::KEEP@, ".readonly"@),
        !ends_with(scopes::APPSCRIPT@, ".readonly"@),
{
    reveal_strlit(".readonly");
    reveal_strlit("https://www.googleapis.com/auth/gmail.readonly");
    assert(scopes::GMAIL_READONLY@.skip(scopes::GMAIL_READONLY@.len() - 9) =~= ".readonly"@);
    reveal_strlit("https://www.googleapis.com/auth/calendar.readonly");
    assert(scopes::CALENDAR_READONLY@.skip(scopes::CALENDAR_READONLY@.len() - 9) =~= ".readonly"@);
    reveal_strlit("https://www.googleapis.com/auth/drive.readonly");
    assert(scopes::DRIVE_READONLY@.skip(scopes::DRIVE_READONLY@.len() - 9) =~= ".readonly"@);
    reveal_strlit("https://www.googleapis.com/auth/documents.readonly");
    assert(scopes::DOCS_READONLY@.skip(scopes::DOCS_READONLY@.len() - 9) =~= ".readonly"@);
    reveal_strlit("https://www.googleapis.com/auth/spreadsheets.readonly");
    assert(scopes::SHEETS_READONLY@.skip(scopes::SHEETS_READONLY@.len() - 9) =~= ".readonly"@);
    reveal_strlit("https://www.googleapis.com/auth/presentations.readonly");
    assert(scopes::SLIDES_READONLY@.skip(scopes::SLIDES_READONLY@.len() - 9) =~= ".readonly"@);
    reveal_strlit("https://www.googleapis.com/auth/forms.body.readonly");
    assert(scopes::FORMS_READONLY@.skip(scopes::FORMS_READONLY@.len() - 9) =~= ".readonly"@);
    reveal_strlit("https://www.googleapis.com/auth/contacts.readonly");
    assert(scopes::CONTACTS_READONLY@.skip(scopes::CONTACTS_READONLY@.len() - 9) =~= ".readonly"@);
    reveal_strlit("https://www.googleapis.com/auth/tasks.readonly");
    assert(scopes::TASKS_READONLY@.skip(scopes::TASKS_READONLY@.len() - 9) =~= ".readonly"@);
    reveal_strlit("https://www.googleapis.com/auth/directory.readonly");
    assert(scopes::PEOPLE@.skip(scopes::PEOPLE@.len() - 9) =~= ".readonly"@);
    reveal_strlit("https://www.googleapis.com/auth/chat.messages.readonly");
    assert(scopes::CHAT_READONLY@.skip(scopes::CHAT_READONLY@.len() - 9) =~= ".readonly"@);
    reveal_strlit("https://www.googleapis.com/auth/classroom.courses.readonly");
    assert(scopes::CLASSROOM_READONLY@.skip(scopes::CLASSROOM_READONLY@.len() - 9) =~= ".readonly"@);
    reveal_strlit("https://www.googleapis.com/auth/keep.readonly");
    assert(scopes::KEEP_READONLY@.skip(scopes::KEEP_READONLY@.len() - 9) =~= ".readonly"@);
    reveal_strlit("https://www.googleapis.com/auth/cloud-identity.groups.readonly");
    assert(scopes::GROUPS@.skip(scopes::GROUPS@.len() - 9) =~= ".readonly"@);
    reveal_strlit("https://www.googleapis.com/auth/gmail.modify");
    assert(scopes::GMAIL@.skip(scopes::GMAIL@.len() - 9)[0] != ".readonly"@[0]);
    reveal_strlit("https://www.googleapis.com/auth/calendar");
    assert(scopes::CALENDAR@.skip(scopes::CALENDAR@.len() - 9)[0] != ".readonly"@[0]);
    reveal_strlit("https://www.googleapis.com/auth/drive");
    assert(scopes::DRIVE@.skip(scopes::DRIVE@.len() - 9)[0] != ".readonly"@[0]);
    reveal_strlit("https://www.googleapis.com/auth/documents");
    assert(scopes::DOCS@.skip(scopes::DOCS@.len() - 9)[0] != ".readonly"@[0]);
    reveal_strlit("https://www.googleapis.com/auth/spreadsheets");
    assert(scopes::SHEETS@.skip(scopes::SHEETS@.len() - 9)[0] != ".readonly"@[0]);
    reveal_strlit("https://www.googleapis.com/auth/presentations");
    assert(scopes::SLIDES@.skip(scopes::SLIDES@.len() - 9)[0] != ".readonly"@[0]);
    reveal_strlit("https://www.googleapis.com/auth/forms.body");
    assert(scopes::FORMS@.skip(scopes::FORMS@.len() - 9)[0] != ".readonly"@[0]);
    reveal_strlit("https://www.googleapis.com/auth/contacts");
    assert(scopes::CONTACTS@.skip(scopes::CONTACTS@.len() - 9)[0] != ".readonly"@[0]);
    reveal_strlit("https://www.googleapis.com/auth/tasks");
    assert(scopes::TASKS@.skip(scopes::TASKS@.len() - 9)[0] != ".readonly"@[0]);
    reveal_strlit("https://www.googleapis.com/auth/chat.messages");
    assert(scopes::CHAT@.skip(scopes::CHAT@.len() - 9)[1] != ".readonly"@[1]);
    reveal_strlit("https://www.googleapis.com/auth/classroom.courses");
    assert(scopes::CLASSROOM@.skip(scopes::CLASSROOM@.len() - 9)[0] != ".readonly"@[0]);
    reveal_strlit("https://www.googleapis.com/auth/keep");
    assert(scopes::KEEP@.skip(scopes::KEEP@.len() - 9)[0] != ".readonly"@[0]);
    reveal_strlit("https://www.googleapis.com/auth/script.projects");
    assert(scopes::APPSCRIPT@.skip(scopes::APPSCRIPT@.len() - 9)[1] != ".readonly"@[1]);
}

/// The scopes requested for a list of services start with the userinfo
/// scope, hold no scope twice, include the scope of every known service
/// asked for, and hold nothing else.
pub proof fn lemma_scopes_for(services: Seq<Seq<char>>, readonly: bool)
    ensures
        scopes_for(services, readonly).len() >= 1,
        scopes_for(services, readonly)[0] == scopes::USERINFO@,
        forall|i: int, j: int|
            0 <= i < j < scopes_for(services, readonly).len() ==> scopes_for(services, readonly)[i]
                != scopes_for(services, readonly)[j],
        forall|k: int|
            0 <= k < services.len() && (#[trigger] scope_of(services[k], readonly)).is_some()
                ==> scopes_for(services, readonly).contains(scope_of(services[k], readonly).unwrap()),
        forall|i: int|
            1 <= i < scopes_for(services, readonly).len() ==> exists|k: int|
                0 <= k < services.len() && scope_of(services[k], readonly) == Some(
                    #[trigger] scopes_for(services, readonly)[i],
                ),
    decreases services.len(),
{
    if services.len() > 0 {
        let prev_services = services.drop_last();
        lemma_scopes_for(prev_services, readonly);
        let prev = scopes_for(prev_services, readonly);
        let r = scopes_for(services, readonly);
        assert forall|k: int|
            0 <= k < services.len() && (#[trigger] scope_of(services[k], readonly)).is_some()
                implies r.contains(scope_of(services[k], readonly).unwrap()) by {
            if k < services.len() - 1 {
                assert(prev_services[k] == services[k]);
                let w = choose|j: int| 0 <= j < prev.len() && prev[j] == scope_of(services[k], readonly).unwrap();
                assert(r[w] == prev[w]);
            } else {
                match scope_of(services.last(), readonly) {
                    Some(s) => {
                        if !prev.contains(s) {
                            assert(r[r.len() - 1] == s);
                        }
                    },
                    None => {},
                }
            }
        }
        assert forall|i: int| 1 <= i < r.len() implies exists|k: int|
            0 <= k < services.len() && scope_of(services[k], readonly) == Some(
                #[trigger] r[i],
            ) by {
            if i < prev.len() {
                let k = choose|k: int|
                    0 <= k < prev_services.len() && scope_of(prev_services[k], readonly) == Some(
                        #[trigger] prev[i],
                    );
                assert(services[k] == prev_services[k]);
                assert(r[i] == prev[i]);
            } else {
                assert(scope_of(services[services.len() - 1], readonly) == Some(r[i]));
            }
        }
    }
}

/// A read-only request asks only for read-only access. For every service
/// name: it has a scope in read-only mode exactly when it has one in
/// read-write mode; the read-only scope ends with `.readonly`, save Apps
/// Script's, which has no read-only variant; and wherever the read-write
/// scope is not itself read-only (nor Apps Script's), the read-only scope
/// is a different one.
pub proof fn lemma_readonly_scopes(service: Seq<char>)
    ensures
        scope_of(service, true).is_some() == scope_of(service, false).is_some(),
        scope_of(service, true) matches Some(s) ==> ends_with(s, ".readonly"@) || s == scopes::APPSCRIPT@,
        scope_of(service, false) matches Some(w) ==> (!ends_with(w, ".readonly"@) && w != scopes::APPSCRIPT@
            ==> scope_of(service, true) != scope_of(service, false)),
{
    lemma_readonly_scopes_end_readonly();
    assert(scopes::GMAIL_READONLY@ != scopes::GMAIL@);
    assert(scopes::CALENDAR_READONLY@ != scopes::CALENDAR@);
    assert(scopes::DRIVE_READONLY@ != scopes::DRIVE@);
    assert(scopes::DOCS_READONLY@ != scopes::DOCS@);
    assert(scopes::SHEETS_READONLY@ != scopes::SHEETS@);
    assert(scopes::SLIDES_READONLY@ != scopes::SLIDES@);
    assert(scopes::FORMS_READONLY@ != scopes::FORMS@);
    assert(scopes::CONTACTS_READONLY@ != scopes::CONTACTS@);
    assert(scopes::TASKS_READONLY@ != scopes::TASKS@);
    assert(scopes::CHAT_READONLY@ != scopes::CHAT@);
    assert(scopes::CLASSROOM_READONLY@ != scopes::CLASSROOM@);
    assert(scopes::KEEP_READONLY@ != scopes::KEEP@);
}

/// Every scope a read-only login requests, but the userinfo scope that
/// comes first, is a read-only scope (or Apps Script's, which has no
/// read-only variant).
pub proof fn lemma_readonly_login_scopes(services: Seq<Seq<char>>)
    ensures
        forall|i: int|
            1 <= i < scopes_for(services, true).len() ==> ends_with(#[trigger] scopes_for(services, true)[i], ".readonly"@)
                || scopes_for(services, true)[i] == scopes::APPSCRIPT@,
{
    lemma_scopes_for(services, true);
    assert forall|i: int| 1 <= i < scopes_for(services, true).len() implies ends_with(
        #[trigger] scopes_for(services, true)[i],
        ".readonly"@,
    ) || scopes_for(services, true)[i] == scopes::APPSCRIPT@ by {
        let k = choose|k: int|
            0 <= k < services.len() && scope_of(services[k], true) == Some(scopes_for(services, true)[i]);
        lemma_readonly_scopes(services[k]);
    }
}

/// A refresh keeps the account, scopes and client, and leaves a token
/// that is valid at the refresh instant exactly when its lifetime exceeds
/// the validity margin.
pub proof fn lemma_refresh_validity(t: StoredToken, resp: TokenResponse, now_ms: int)
    requires
        expiry_fits(now_ms, resp.expires_in as int),
    ensures
        refreshed(t, resp, now_ms).email == t.email,
        refreshed(t, resp, now_ms).scopes == t.scopes,
        refreshed(t, resp, now_ms).client_name == t.client_name,
        token_valid_at(refreshed(t, resp, now_ms), now_ms) <==> resp.expires_in * 1000
            > VALIDITY_MARGIN_MS,
{
}

} // verus!
