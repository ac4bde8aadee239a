//! Google Tasks: listing URLs.

use crate::http::query::{enc, enc_opt, opt_param, query_of, url_with_query, add_encoded};
use crate::auth::oauth2::pair_views;
use crate::text::urlencoding;
use vstd::prelude::*;
use vstd::string::StringExecFns;

verus! {

/// Base URL of the Tasks API.
pub const TASKS_BASE: &'static str = "https://tasks.googleapis.com/tasks/v1";

fn with_page_token(base: &str, page_token: Option<&str>) -> (r: String)
    ensures
        r@ == base@ + query_of(opt_param("pageToken"@, enc_opt(page_token))),
{
    let mut params: Vec<(String, String)> = Vec::new();
    assert(pair_views(params@) =~= Seq::<(Seq<char>, Seq<char>)>::empty());
    add_encoded(&mut params, "pageToken", page_token);
    assert(pair_views(params@) =~= opt_param("pageToken"@, enc_opt(page_token)));
    url_with_query(base, &params)
}

/// The URL listing the user's task lists.
pub fn tasklists_url(page_token: Option<&str>) -> (r: String)
    ensures
        r@ == TASKS_BASE@ + "/users/@me/lists"@ + query_of(opt_param("pageToken"@, enc_opt(page_token))),
{
    let mut base = String::from_str(TASKS_BASE);
    base.append("/users/@me/lists");
    with_page_token(base.as_str(), page_token)
}

/// The tasks collection of a task list.
pub open spec fn tasks_path(tasklist_id: Seq<char>) -> Seq<char> {
    TASKS_BASE@ + "/lists/"@ + enc(tasklist_id) + "/tasks"@
}

/// The URL listing the tasks of a task list.
pub fn tasks_list_url(tasklist_id: &str, page_token: Option<&str>) -> (r: String)
    ensures
        r@ == tasks_path(tasklist_id@) + query_of(opt_param("pageToken"@, enc_opt(page_token))),
{
    let mut base = String::from_str(TASKS_BASE);
    base.append("/lists/");
    let id = urlencoding(tasklist_id);
    base.append(id.as_str());
    base.append("/tasks");
    with_page_token(base.as_str(), page_token)
}

/// The URL of one task of a task list.
pub fn task_url(tasklist_id: &str, task_id: &str) -> (r: String)
    ensures
        r@ == tasks_path(tasklist_id@) + "/"@ + enc(task_id@),
{
    let mut url = String::from_str(TASKS_BASE);
    url.append("/lists/");
    let id = urlencoding(tasklist_id);
    url.append(id.as_str());
    url.append("/tasks");
    url.append("/");
    let t = urlencoding(task_id);
    url.append(t.as_str());
    url
}

/// The tasks collection of a task list (where new tasks are created).
pub fn tasks_url(tasklist_id: &str) -> (r: String)
    ensures
        r@ == tasks_path(tasklist_id@),
{
    let mut url = String::from_str(TASKS_BASE);
    url.append("/lists/");
    let id = urlencoding(tasklist_id);
    url.append(id.as_str());
    url.append("/tasks");
    url
}

/// The URL clearing the completed tasks of a task list.
pub fn tasklist_clear_url(tasklist_id: &str) -> (r: String)
    ensures
        r@ == TASKS_BASE@ + "/lists/"@ + enc(tasklist_id@) + "/clear"@,
{
    let mut url = String::from_str(TASKS_BASE);
    url.append("/lists/");
    let id = urlencoding(tasklist_id);
    url.append(id.as_str());
    url.append("/clear");
    url
}

} // verus!
