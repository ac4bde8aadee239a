//! Configuration: account aliases and the choice of OAuth client per
//! account or domain.

use crate::text::{decimal, decimal_string, find_char, find_char_from, lemma_find_char};
use vstd::string::StringExecFns;
use crate::strmap::StrMap;
use vstd::prelude::*;
use vstd::string::StrSliceExecFns;

verus! {

/// The domain of an email address as `split('@').nth(1)` yields it: the text
/// after the first `@`, up to the next `@` (or the end). `None` without `@`.
pub open spec fn email_domain(email: Seq<char>) -> Option<Seq<char>> {
    let i = find_char(email, '@');
    if i >= email.len() {
        None
    } else {
        let rest = email.skip(i + 1);
        Some(rest.take(find_char(rest, '@')))
    }
}

/// Main configuration file.
pub struct Config {
    /// Keyring backend: "auto", "keychain", "file"
    pub keyring_backend: Option<String>,
    /// Default timezone (IANA, "UTC", or "local")
    pub default_timezone: Option<String>,
    /// Account aliases: alias -> email
    pub account_aliases: StrMap<String>,
    /// Account-specific OAuth client: email -> client name
    pub account_clients: StrMap<String>,
    /// Domain-specific OAuth client: domain -> client name
    pub client_domains: StrMap<String>,
}

/// The email an account identifier stands for: the alias target when the
/// identifier is an alias, the identifier itself otherwise.
pub open spec fn resolved_account(aliases: Map<Seq<char>, String>, account: Seq<char>) -> Seq<char> {
    if aliases.contains_key(account) {
        aliases[account]@
    } else {
        account
    }
}

/// The OAuth client name for an email: the account-specific client first,
/// then the client registered for the email's domain.
pub open spec fn client_for(
    clients: Map<Seq<char>, String>,
    domains: Map<Seq<char>, String>,
    email: Seq<char>,
) -> Option<Seq<char>> {
    if clients.contains_key(email) {
        Some(clients[email]@)
    } else {
        match email_domain(email) {
            Some(d) => if domains.contains_key(d) {
                Some(domains[d]@)
            } else {
                None
            },
            None => None,
        }
    }
}

/// Extracts `email_domain(email)` from an address.
pub fn domain_of(email: &str) -> (r: Option<&str>)
    ensures
        match r {
            Some(d) => email_domain(email@) == Some(d@),
            None => email_domain(email@).is_none(),
        },
{
    let n = email.unicode_len();
    let at = find_char_from(email, '@', 0);
    assert(email@.skip(0) =~= email@);
    if at >= n {
        return None;
    }
    let end = find_char_from(email, '@', at + 1);
    proof {
        let rest = email@.skip(at + 1);
        lemma_find_char(rest, '@');
        assert(email@.subrange(at + 1, end as int) =~= rest.take(find_char(rest, '@')));
    }
    Some(email.substring_char(at + 1, end))
}

impl Config {
    /// A configuration with no backend, timezone, aliases or client mappings.
    pub fn new_default() -> (c: Self)
        ensures
            c.keyring_backend.is_none(),
            c.default_timezone.is_none(),
            c.account_aliases@ == Map::<Seq<char>, String>::empty(),
            c.account_clients@ == Map::<Seq<char>, String>::empty(),
            c.client_domains@ == Map::<Seq<char>, String>::empty(),
    {
        Config {
            keyring_backend: None,
            default_timezone: None,
            account_aliases: StrMap::new(),
            account_clients: StrMap::new(),
            client_domains: StrMap::new(),
        }
    }

    /// Resolve an account identifier (alias or email) to an email.
    pub fn resolve_account(&self, account: &str) -> (r: String)
        ensures
            r@ == resolved_account(self.account_aliases@, account@),
    {
        match self.account_aliases.get(account) {
            Some(email) => email.clone(),
            None => account.to_owned(),
        }
    }

    /// Get the OAuth client name for an account.
    pub fn client_for_account(&self, email: &str) -> (r: Option<&str>)
        ensures
            match r {
                Some(c) => client_for(self.account_clients@, self.client_domains@, email@)
                    == Some(c@),
                None => client_for(self.account_clients@, self.client_domains@, email@).is_none(),
            },
    {
        if let Some(client) = self.account_clients.get(email) {
            return Some(client.as_str());
        }
        if let Some(domain) = domain_of(email) {
            if let Some(client) = self.client_domains.get(domain) {
                return Some(client.as_str());
            }
        }
        None
    }
}

impl Default for Config {
    fn default() -> (c: Self)
        ensures
            c.keyring_backend.is_none(),
            c.default_timezone.is_none(),
            c.account_aliases@ == Map::<Seq<char>, String>::empty(),
            c.account_clients@ == Map::<Seq<char>, String>::empty(),
            c.client_domains@ == Map::<Seq<char>, String>::empty(),
    {
        Config::new_default()
    }
}


/// Where the daemon's socket lives.
#[derive(Debug, Clone, Copy, PartialEq, Eq)]
pub enum SocketLocation {
    /// `cog.sock` in the cog home directory.
    CogHome,
    /// `cog.sock` in `$XDG_RUNTIME_DIR`.
    RuntimeDir,
    /// `/tmp/cog-<uid>.sock`.
    Tmp,
}

/// The socket location: the cog home when it can be determined, else the
/// runtime directory when it is set, else the per-user file in `/tmp`.
pub fn socket_location(has_cog_home: bool, has_runtime_dir: bool) -> (r: SocketLocation)
    ensures
        has_cog_home ==> r == SocketLocation::CogHome,
        !has_cog_home && has_runtime_dir ==> r == SocketLocation::RuntimeDir,
        !has_cog_home && !has_runtime_dir ==> r == SocketLocation::Tmp,
{
    if has_cog_home {
        SocketLocation::CogHome
    } else if has_runtime_dir {
        SocketLocation::RuntimeDir
    } else {
        SocketLocation::Tmp
    }
}

/// The per-user socket path in `/tmp`.
pub fn tmp_socket_path(uid: u32) -> (r: String)
    ensures
        r@ == "/tmp/cog-"@ + decimal(uid as nat) + ".sock"@,
{
    let mut p = String::from_str("/tmp/cog-");
    let n = decimal_string(uid as u64);
    p.append(n.as_str());
    p.append(".sock");
    p
}

/// The credentials file of an OAuth client: `credentials-<name>.json` for
/// a named client, `credentials.json` for the default one.
pub open spec fn credentials_file(client_name: Option<Seq<char>>) -> Seq<char> {
    match client_name {
        Some(n) => "credentials-"@ + n + ".json"@,
        None => "credentials.json"@,
    }
}

/// The credentials file name of an OAuth client (see `credentials_file`).
pub fn credentials_file_name(client_name: Option<&str>) -> (r: String)
    ensures
        r@ == credentials_file(match client_name {
            Some(n) => Some(n@),
            None => None,
        }),
{
    match client_name {
        Some(name) => {
            let mut f = String::from_str("credentials-");
            f.append(name);
            f.append(".json");
            f
        },
        None => String::from_str("credentials.json"),
    }
}

/// The message of a missing credentials file, naming the path looked at.
pub fn missing_credentials_message(path: &str) -> (r: String)
    ensures
        r@ == "credentials file not found: "@ + path@
            + "\nDownload OAuth credentials from Google Cloud Console and save them there."@,
{
    let mut m = String::from_str("credentials file not found: ");
    m.append(path);
    m.append("\nDownload OAuth credentials from Google Cloud Console and save them there.");
    m
}

} // verus!
