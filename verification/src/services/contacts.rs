//! Google Contacts and the People directory: listing and search URLs.

use crate::auth::oauth2::pair_views;
use crate::http::query::{add_encoded, add_number, add_param, enc, enc_opt, num_opt, opt_param, query_of, url_with_query};
use crate::text::urlencoding;
use vstd::prelude::*;
use vstd::string::StringExecFns;

verus! {

/// Base URL of the People API.
pub const PEOPLE_BASE: &'static str = "https://people.googleapis.com/v1";

/// Query parameters of a contact listing: the fields read, then page size
/// and page token when given.
pub open spec fn connections_params(page_token: Option<&str>, page_size: Option<u32>) -> Seq<
    (Seq<char>, Seq<char>),
> {
    seq![("personFields"@, "names,emailAddresses,phoneNumbers"@)] + opt_param("pageSize"@, num_opt(page_size))
        + opt_param("pageToken"@, enc_opt(page_token))
}

/// The URL listing the user's contacts.
pub fn connections_url(page_token: Option<&str>, page_size: Option<u32>) -> (r: String)
    ensures
        r@ == PEOPLE_BASE@ + "/people/me/connections"@ + query_of(connections_params(page_token, page_size)),
{
    let mut params: Vec<(String, String)> = Vec::new();
    add_param(&mut params, "personFields", String::from_str("names,emailAddresses,phoneNumbers"));
    add_number(&mut params, "pageSize", page_size);
    add_encoded(&mut params, "pageToken", page_token);
    assert(pair_views(params@) =~= connections_params(page_token, page_size));
    let mut base = String::from_str(PEOPLE_BASE);
    base.append("/people/me/connections");
    url_with_query(base.as_str(), &params)
}

/// The URL searching the user's contacts by name or email.
pub fn contacts_search_url(query: &str) -> (r: String)
    ensures
        r@ == PEOPLE_BASE@ + "/people:searchContacts"@ + query_of(
            seq![("query"@, enc(query@)), ("readMask"@, "names,emailAddresses,phoneNumbers"@)],
        ),
{
    let mut params: Vec<(String, String)> = Vec::new();
    add_param(&mut params, "query", urlencoding(query));
    add_param(&mut params, "readMask", String::from_str("names,emailAddresses,phoneNumbers"));
    assert(pair_views(params@) =~= seq![
        ("query"@, enc(query@)),
        ("readMask"@, "names,emailAddresses,phoneNumbers"@),
    ]);
    let mut base = String::from_str(PEOPLE_BASE);
    base.append("/people:searchContacts");
    url_with_query(base.as_str(), &params)
}

/// The URL searching the domain directory.
pub fn directory_search_url(query: &str) -> (r: String)
    ensures
        r@ == PEOPLE_BASE@ + "/people:searchDirectoryPeople"@ + query_of(
            seq![
                ("query"@, enc(query@)),
                ("readMask"@, "names,emailAddresses"@),
                ("sources"@, "DIRECTORY_SOURCE_TYPE_DOMAIN_PROFILE"@),
            ],
        ),
{
    let mut params: Vec<(String, String)> = Vec::new();
    add_param(&mut params, "query", urlencoding(query));
    add_param(&mut params, "readMask", String::from_str("names,emailAddresses"));
    add_param(&mut params, "sources", String::from_str("DIRECTORY_SOURCE_TYPE_DOMAIN_PROFILE"));
    assert(pair_views(params@) =~= seq![
        ("query"@, enc(query@)),
        ("readMask"@, "names,emailAddresses"@),
        ("sources"@, "DIRECTORY_SOURCE_TYPE_DOMAIN_PROFILE"@),
    ]);
    let mut base = String::from_str(PEOPLE_BASE);
    base.append("/people:searchDirectoryPeople");
    url_with_query(base.as_str(), &params)
}

/// The URL creating a contact.
pub fn create_contact_url() -> (r: String)
    ensures
        r@ == PEOPLE_BASE@ + "/people:createContact"@,
{
    let mut url = String::from_str(PEOPLE_BASE);
    url.append("/people:createContact");
    url
}

/// The profile fields read of a person.
pub const PROFILE_FIELDS: &'static str = "personFields=names,emailAddresses,photos";

/// The URL of the signed-in user's profile.
pub fn me_profile_url() -> (r: String)
    ensures
        r@ == PEOPLE_BASE@ + "/people/me?"@ + PROFILE_FIELDS@,
{
    let mut url = String::from_str(PEOPLE_BASE);
    url.append("/people/me?");
    url.append(PROFILE_FIELDS);
    url
}

/// The URL of a person's profile, by resource name (such as
/// `people/c123`), the name form-urlencoded.
pub fn profile_url(resource_name: &str) -> (r: String)
    ensures
        r@ == PEOPLE_BASE@ + "/"@ + enc(resource_name@) + "?"@ + PROFILE_FIELDS@,
{
    let mut url = String::from_str(PEOPLE_BASE);
    url.append("/");
    let name = urlencoding(resource_name);
    url.append(name.as_str());
    url.append("?");
    url.append(PROFILE_FIELDS);
    url
}

} // verus!
