//! Keyring backend choice and the bookkeeping of stored accounts.
//!
//! Reading and writing the OS keyring or the token files is done by the
//! caller; this module decides which backend is used, which file holds an
//! account, which directory entries are accounts, and how the account index
//! changes on store and remove.

use crate::text::{rfind_char, rfind_char_exec, str_eq, string_views, lemma_rfind_char};
use vstd::prelude::*;
use vstd::string::StrSliceExecFns;
use vstd::string::StringExecFns;

verus! {

/// A filesystem path, carried through unchanged.
#[verifier::external_type_specification]
#[verifier::external_body]
pub struct ExPathBuf(std::path::PathBuf);

/// `PathBuf::clone` (std): copies the path; nothing about the copy is relied on.
pub assume_specification[ <std::path::PathBuf as std::clone::Clone>::clone ](
    p: &std::path::PathBuf,
) -> std::path::PathBuf;

/// Keyring service name under which tokens are stored.
pub const SERVICE_NAME: &'static str = "cog";

/// Keyring entry that holds the index of stored accounts.
pub const ACCOUNTS_KEY: &'static str = "__cog_accounts__";

/// Keyring backend for storing OAuth2 tokens.
#[derive(Debug, Clone)]
pub enum KeyringBackend {
    /// OS-native keyring (macOS Keychain, Linux Secret Service).
    Native,
    /// File-based fallback at `$COG_HOME/keyring/`.
    File(std::path::PathBuf),
}

/// Whether a configured backend name selects the file backend; every other
/// name ("auto", "keychain", "native", unknown, or none) selects the native one.
pub open spec fn selects_file(backend: Option<Seq<char>>) -> bool {
    backend == Some("file"@)
}

impl KeyringBackend {
    /// The backend for a configured name, with `file_dir` as the directory of
    /// the file backend.
    pub fn from_config_in(backend: Option<&str>, file_dir: std::path::PathBuf) -> (r: Self)
        ensures
            selects_file(match backend { Some(b) => Some(b@), None => None }) ==> r == KeyringBackend::File(file_dir),
            !selects_file(match backend { Some(b) => Some(b@), None => None }) ==> r is Native,
    {
        match backend {
            Some(b) => if str_eq(b, "file") {
                KeyringBackend::File(file_dir)
            } else {
                KeyringBackend::Native
            },
            None => KeyringBackend::Native,
        }
    }

    /// The backend named by the configuration, or else by the
    /// `COG_KEYRING_BACKEND` environment value (`env_backend`), with
    /// `file_dir` as the directory of the file backend.
    pub fn from_config_or_env(backend: Option<&str>, env_backend: Option<&str>, file_dir: std::path::PathBuf) -> (r: Self)
        ensures
            ({
                let name = match backend {
                    Some(b) => Some(b@),
                    None => match env_backend {
                        Some(e) => Some(e@),
                        None => None,
                    },
                };
                &&& selects_file(name) ==> r == KeyringBackend::File(file_dir)
                &&& !selects_file(name) ==> r is Native
            }),
    {
        match backend {
            Some(b) => KeyringBackend::from_config_in(Some(b), file_dir),
            None => KeyringBackend::from_config_in(env_backend, file_dir),
        }
    }
}

/// The account index after storing `email`: unchanged when present,
/// extended at the end otherwise.
pub open spec fn index_with(accounts: Seq<Seq<char>>, email: Seq<char>) -> Seq<Seq<char>> {
    if accounts.contains(email) {
        accounts
    } else {
        accounts.push(email)
    }
}

/// The account index after removing `email`: every other entry, in order.
pub open spec fn index_without(accounts: Seq<Seq<char>>, email: Seq<char>) -> Seq<Seq<char>> {
    accounts.filter(other_than(email))
}

/// The predicate "is not `email`".
pub open spec fn other_than(email: Seq<char>) -> spec_fn(Seq<char>) -> bool {
    |a: Seq<char>| a != email
}

/// Adds `email` to the account index; the flag tells whether it changed
/// (and so has to be saved).
pub fn add_to_index(accounts: Vec<String>, email: &str) -> (r: (Vec<String>, bool))
    ensures
        string_views(r.0@) == index_with(string_views(accounts@), email@),
        r.1 == !string_views(accounts@).contains(email@),
{
    let mut i: usize = 0;
    while i < accounts.len()
        invariant
            i <= accounts@.len(),
            forall|k: int| 0 <= k < i ==> accounts@[k]@ != email@,
        decreases accounts.len() - i,
    {
        if str_eq(accounts[i].as_str(), email) {
            assert(string_views(accounts@)[i as int] == email@);
            return (accounts, false);
        }
        i = i + 1;
    }
    assert(!string_views(accounts@).contains(email@)) by {
        assert forall|k: int| 0 <= k < string_views(accounts@).len() implies string_views(accounts@)[k]
            != email@ by {
            assert(string_views(accounts@)[k] == accounts@[k]@);
        }
    }
    let mut out = accounts;
    let ghost before = out@;
    out.push(email.to_owned());
    assert(string_views(out@) =~= string_views(before).push(email@));
    (out, true)
}

/// Removes every occurrence of `email` from the account index.
pub fn remove_from_index(accounts: Vec<String>, email: &str) -> (r: Vec<String>)
    ensures
        string_views(r@) == index_without(string_views(accounts@), email@),
{
    let ghost views = string_views(accounts@);
    let mut out: Vec<String> = Vec::new();
    let mut i: usize = 0;
    while i < accounts.len()
        invariant
            i <= accounts@.len(),
            views == string_views(accounts@),
            string_views(out@) == index_without(views.take(i as int), email@),
        decreases accounts.len() - i,
    {
        let ghost before = out@;
        assert(views.take(i + 1) =~= views.take(i as int).push(views[i as int]));
        proof {
            views.take(i as int).lemma_filter_push(views[i as int], other_than(email@));
        }
        if !str_eq(accounts[i].as_str(), email) {
            out.push(accounts[i].clone());
            assert(string_views(out@) =~= string_views(before).push(views[i as int]));
        }
        i = i + 1;
    }
    assert(views.take(accounts@.len() as int) =~= views);
    out
}

/// Name of the file that holds an account's token in the file backend.
pub open spec fn spec_token_file_name(email: Seq<char>) -> Seq<char> {
    email + ".json"@
}

/// The account a directory entry of the file backend stands for: the file
/// stem of a name whose extension is exactly `json`. A name without a dot,
/// or whose only dot leads it, has no extension.
pub open spec fn account_of_file_name(name: Seq<char>) -> Option<Seq<char>> {
    let k = rfind_char(name, '.');
    if k > 0 && name.skip(k + 1) == "json"@ {
        Some(name.take(k))
    } else {
        None
    }
}

/// The token file name for an account.
pub fn token_file_name(email: &str) -> (r: String)
    ensures
        r@ == spec_token_file_name(email@),
{
    let mut s = email.to_owned();
    s.append(".json");
    s
}

/// The account a token file name stands for, if it is one.
pub fn stored_account(name: &str) -> (r: Option<String>)
    ensures
        match r {
            Some(a) => account_of_file_name(name@) == Some(a@),
            None => account_of_file_name(name@).is_none(),
        },
{
    let n = name.unicode_len();
    proof {
        lemma_rfind_char(name@, '.');
    }
    match rfind_char_exec(name, '.') {
        Some(k) => {
            if k == 0 {
                return None;
            }
            let ext = name.substring_char(k + 1, n);
            assert(ext@ =~= name@.skip(k + 1));
            if str_eq(ext, "json") {
                let stem = name.substring_char(0, k);
                assert(stem@ =~= name@.take(k as int));
                Some(stem.to_owned())
            } else {
                None
            }
        },
        None => None,
    }
}

/// Storing then removing an account leaves the index as removing alone
/// would; after storing, the account is listed; after removing, it is not.
pub proof fn lemma_index_store_remove(accounts: Seq<Seq<char>>, email: Seq<char>)
    ensures
        index_with(accounts, email).contains(email),
        !index_without(accounts, email).contains(email),
        index_without(index_with(accounts, email), email) == index_without(accounts, email),
        forall|a: Seq<char>|
            a != email ==> (index_without(accounts, email).contains(a) <==> accounts.contains(a)),
{
    let f = other_than(email);
    let w = index_with(accounts, email);
    if !accounts.contains(email) {
        assert(w.last() == email);
        accounts.lemma_filter_push(email, f);
    } else {
        assert(w == accounts);
    }
    assert(index_with(accounts, email).contains(email)) by {
        if !accounts.contains(email) {
            assert(w[w.len() - 1] == email);
        }
    }
    if index_without(accounts, email).contains(email) {
        let k = choose|k: int| 0 <= k < accounts.filter(f).len() && accounts.filter(f)[k] == email;
        accounts.lemma_filter_pred(f, k);
    }
    assert forall|a: Seq<char>|
        a != email implies (index_without(accounts, email).contains(a) <==> accounts.contains(a)) by {
        if accounts.contains(a) {
            let k = choose|k: int| 0 <= k < accounts.len() && accounts[k] == a;
            accounts.lemma_filter_contains(f, k);
        }
        if index_without(accounts, email).contains(a) {
            accounts.lemma_filter_contains_rev(f, a);
        }
    }
}

/// The file backend gives back the account it stored: the token file name
/// of a non-empty email maps back to that email.
pub proof fn lemma_token_file_round_trip(email: Seq<char>)
    requires
        email.len() > 0,
    ensures
        account_of_file_name(spec_token_file_name(email)) == Some(email),
{
    let name = spec_token_file_name(email);
    reveal_strlit(".json");
    reveal_strlit("json");
    assert(name.last() == 'n');
    assert(name.drop_last().drop_last().drop_last().drop_last().last() == '.');
    assert(name.drop_last().last() != '.');
    assert(rfind_char(name, '.') == rfind_char(name.drop_last(), '.'));
    assert(rfind_char(name.drop_last(), '.') == rfind_char(name.drop_last().drop_last(), '.'));
    assert(rfind_char(name.drop_last().drop_last(), '.') == rfind_char(name.drop_last().drop_last().drop_last(), '.'));
    assert(rfind_char(name.drop_last().drop_last().drop_last(), '.') == rfind_char(name.drop_last().drop_last().drop_last().drop_last(), '.'));
    assert(rfind_char(name, '.') == email.len());
    assert(name.skip(email.len() as int + 1) =~= "json"@);
    assert(name.take(email.len() as int) =~= email);
}

} // verus!
