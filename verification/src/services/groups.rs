//! Google Groups (Cloud Identity) and Forms: listing URLs.

use crate::auth::oauth2::pair_views;
use crate::http::query::{add_encoded, add_param, enc, enc_opt, opt_param, paged_url, paging_params, query_of, url_with_query};
use crate::text::urlencoding;
use vstd::prelude::*;
use vstd::string::StringExecFns;

verus! {

/// Base URL of the Cloud Identity API.
pub const GROUPS_BASE: &'static str = "https://cloudidentity.googleapis.com/v1";

/// Base URL of the Forms API.
pub const FORMS_BASE: &'static str = "https://forms.googleapis.com/v1";

/// The URL listing the groups under `parent` (such as
/// `customers/my_customer`).
pub fn groups_list_url(parent: &str, page_token: Option<&str>) -> (r: String)
    ensures
        r@ == GROUPS_BASE@ + "/groups"@ + query_of(
            seq![("parent"@, enc(parent@))] + opt_param("pageToken"@, enc_opt(page_token)),
        ),
{
    let mut params: Vec<(String, String)> = Vec::new();
    add_param(&mut params, "parent", urlencoding(parent));
    assert(pair_views(params@) =~= seq![("parent"@, enc(parent@))]);
    add_encoded(&mut params, "pageToken", page_token);
    let mut base = String::from_str(GROUPS_BASE);
    base.append("/groups");
    url_with_query(base.as_str(), &params)
}

/// The URL listing the members of a group (by resource name, such as
/// `groups/abc123`).
pub fn members_url(group_name: &str, page_token: Option<&str>) -> (r: String)
    ensures
        r@ == GROUPS_BASE@ + "/"@ + group_name@ + "/memberships"@ + query_of(paging_params(None, page_token)),
{
    let mut base = String::from_str(GROUPS_BASE);
    base.append("/");
    base.append(group_name);
    base.append("/memberships");
    paged_url(base.as_str(), None, page_token)
}

/// The URL listing the responses of a form.
pub fn responses_list_url(form_id: &str, page_size: Option<u32>, page_token: Option<&str>) -> (r: String)
    ensures
        r@ == FORMS_BASE@ + "/forms/"@ + form_id@ + "/responses"@ + query_of(paging_params(page_size, page_token)),
{
    let mut base = String::from_str(FORMS_BASE);
    base.append("/forms/");
    base.append(form_id);
    base.append("/responses");
    paged_url(base.as_str(), page_size, page_token)
}

/// The URL of a form (metadata, questions and settings).
pub fn form_url(form_id: &str) -> (r: String)
    ensures
        r@ == FORMS_BASE@ + "/forms/"@ + form_id@,
{
    let mut url = String::from_str(FORMS_BASE);
    url.append("/forms/");
    url.append(form_id);
    url
}

/// The URL creating a form.
pub fn forms_url() -> (r: String)
    ensures
        r@ == FORMS_BASE@ + "/forms"@,
{
    let mut url = String::from_str(FORMS_BASE);
    url.append("/forms");
    url
}

/// The URL of one response of a form.
pub fn form_response_url(form_id: &str, response_id: &str) -> (r: String)
    ensures
        r@ == FORMS_BASE@ + "/forms/"@ + form_id@ + "/responses/"@ + response_id@,
{
    let mut url = form_url(form_id);
    url.append("/responses/");
    url.append(response_id);
    url
}

} // verus!
