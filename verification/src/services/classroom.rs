//! Google Classroom: listing URLs and the update mask of a grade change.

use crate::auth::oauth2::pair_views;
use crate::http::query::{
    add_encoded, enc, add_number, add_repeated, enc_opt, num_opt, opt_param, paged_url, paging_params,
    query_of, repeated_param, url_with_query,
};
use crate::text::urlencoding;
use vstd::prelude::*;
use vstd::string::StringExecFns;

verus! {

/// Base URL of the Classroom API.
pub const CLASSROOM_BASE: &'static str = "https://classroom.googleapis.com/v1";

/// The values of an optional list of repeated parameters.
pub open spec fn opt_values(values: Option<&[String]>) -> Seq<String> {
    match values {
        Some(v) => v@,
        None => Seq::empty(),
    }
}

/// Query parameters of a course listing.
pub open spec fn courses_params(
    page_size: Option<u32>,
    page_token: Option<&str>,
    course_states: Option<&[String]>,
) -> Seq<(Seq<char>, Seq<char>)> {
    paging_params(page_size, page_token) + repeated_param("courseStates"@, opt_values(course_states))
}

/// The URL listing courses, filtered by state when states are given.
pub fn courses_list_url(
    page_size: Option<u32>,
    page_token: Option<&str>,
    course_states: Option<&[String]>,
) -> (r: String)
    ensures
        r@ == CLASSROOM_BASE@ + "/courses"@ + query_of(courses_params(page_size, page_token, course_states)),
{
    let mut params: Vec<(String, String)> = Vec::new();
    assert(pair_views(params@) =~= Seq::<(Seq<char>, Seq<char>)>::empty());
    add_number(&mut params, "pageSize", page_size);
    add_encoded(&mut params, "pageToken", page_token);
    match course_states {
        Some(states) => add_repeated(&mut params, "courseStates", states),
        None => {},
    }
    assert(pair_views(params@) =~= courses_params(page_size, page_token, course_states));
    let mut base = String::from_str(CLASSROOM_BASE);
    base.append("/courses");
    url_with_query(base.as_str(), &params)
}

/// A paged listing under the Classroom API: `path` (such as
/// `/courses/c1/students`) with page size and token.
pub fn classroom_paged_url(path: &str, page_size: Option<u32>, page_token: Option<&str>) -> (r: String)
    ensures
        r@ == CLASSROOM_BASE@ + path@ + query_of(paging_params(page_size, page_token)),
{
    let mut base = String::from_str(CLASSROOM_BASE);
    base.append(path);
    paged_url(base.as_str(), page_size, page_token)
}

/// Query parameters of an invitation listing.
pub open spec fn invitations_params(
    course_id: Option<&str>,
    user_id: Option<&str>,
    page_token: Option<&str>,
) -> Seq<(Seq<char>, Seq<char>)> {
    opt_param("courseId"@, enc_opt(course_id)) + opt_param("userId"@, enc_opt(user_id)) + opt_param(
        "pageToken"@,
        enc_opt(page_token),
    )
}

/// The URL listing invitations, by course and user when given.
pub fn invitations_list_url(course_id: Option<&str>, user_id: Option<&str>, page_token: Option<&str>) -> (r: String)
    ensures
        r@ == CLASSROOM_BASE@ + "/invitations"@ + query_of(invitations_params(course_id, user_id, page_token)),
{
    let mut params: Vec<(String, String)> = Vec::new();
    assert(pair_views(params@) =~= Seq::<(Seq<char>, Seq<char>)>::empty());
    add_encoded(&mut params, "courseId", course_id);
    add_encoded(&mut params, "userId", user_id);
    add_encoded(&mut params, "pageToken", page_token);
    assert(pair_views(params@) =~= invitations_params(course_id, user_id, page_token));
    let mut base = String::from_str(CLASSROOM_BASE);
    base.append("/invitations");
    url_with_query(base.as_str(), &params)
}

/// Query parameters of a guardian-invitation listing.
pub open spec fn guardian_invitations_params(states: Option<&[String]>, page_token: Option<&str>) -> Seq<
    (Seq<char>, Seq<char>),
> {
    repeated_param("states"@, opt_values(states)) + opt_param("pageToken"@, enc_opt(page_token))
}

/// The URL listing a student's guardian invitations, by state when given.
pub fn guardian_invitations_url(student_id: &str, states: Option<&[String]>, page_token: Option<&str>) -> (r: String)
    ensures
        r@ == CLASSROOM_BASE@ + "/userProfiles/"@ + student_id@ + "/guardianInvitations"@ + query_of(
            guardian_invitations_params(states, page_token),
        ),
{
    let mut params: Vec<(String, String)> = Vec::new();
    assert(pair_views(params@) =~= Seq::<(Seq<char>, Seq<char>)>::empty());
    match states {
        Some(ss) => add_repeated(&mut params, "states", ss),
        None => {},
    }
    add_encoded(&mut params, "pageToken", page_token);
    assert(pair_views(params@) =~= guardian_invitations_params(states, page_token));
    let mut base = String::from_str(CLASSROOM_BASE);
    base.append("/userProfiles/");
    base.append(student_id);
    base.append("/guardianInvitations");
    url_with_query(base.as_str(), &params)
}

/// A partial update of the resource at `path` under the Classroom API: the
/// fields named by `update_mask`, form-urlencoded.
pub fn classroom_update_url(path: &str, update_mask: &str) -> (r: String)
    ensures
        r@ == CLASSROOM_BASE@ + path@ + "?updateMask="@ + enc(update_mask@),
{
    let mut url = String::from_str(CLASSROOM_BASE);
    url.append(path);
    url.append("?updateMask=");
    let mask = urlencoding(update_mask);
    url.append(mask.as_str());
    url
}

/// The update mask of a grade change: the grades being set, assigned
/// before draft, joined by commas.
pub open spec fn grade_mask(assigned: bool, draft: bool) -> Seq<char> {
    if assigned && draft {
        "assignedGrade,draftGrade"@
    } else if assigned {
        "assignedGrade"@
    } else if draft {
        "draftGrade"@
    } else {
        Seq::empty()
    }
}

/// The update mask of a grade change (see `grade_mask`).
pub fn grade_update_mask(assigned: bool, draft: bool) -> (r: String)
    ensures
        r@ == grade_mask(assigned, draft),
{
    if assigned && draft {
        String::from_str("assignedGrade,draftGrade")
    } else if assigned {
        String::from_str("assignedGrade")
    } else if draft {
        String::from_str("draftGrade")
    } else {
        String::new()
    }
}

} // verus!
