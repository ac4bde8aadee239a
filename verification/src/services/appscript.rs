//! Google Apps Script: project and execution URLs.

use vstd::prelude::*;
use vstd::string::StringExecFns;

verus! {

/// Base URL of the Apps Script API.
pub const SCRIPT_BASE: &'static str = "https://script.googleapis.com/v1";

/// The path of a script project.
pub open spec fn project_path(script_id: Seq<char>) -> Seq<char> {
    SCRIPT_BASE@ + "/projects/"@ + script_id
}

/// The URL of a script project's metadata.
pub fn project_url(script_id: &str) -> (r: String)
    ensures
        r@ == project_path(script_id@),
{
    let mut url = String::from_str(SCRIPT_BASE);
    url.append("/projects/");
    url.append(script_id);
    url
}

/// The URL of a script project's source files.
pub fn project_content_url(script_id: &str) -> (r: String)
    ensures
        r@ == project_path(script_id@) + "/content"@,
{
    let mut url = project_url(script_id);
    url.append("/content");
    url
}

/// The URL creating a script project.
pub fn projects_url() -> (r: String)
    ensures
        r@ == SCRIPT_BASE@ + "/projects"@,
{
    let mut url = String::from_str(SCRIPT_BASE);
    url.append("/projects");
    url
}

/// The URL running a function of a script.
pub fn run_url(script_id: &str) -> (r: String)
    ensures
        r@ == SCRIPT_BASE@ + "/scripts/"@ + script_id@ + ":run"@,
{
    let mut url = String::from_str(SCRIPT_BASE);
    url.append("/scripts/");
    url.append(script_id);
    url.append(":run");
    url
}

} // verus!
