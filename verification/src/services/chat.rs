//! Google Chat: listing URLs, the space lookup by display name, and the
//! defaults of a new space.

use crate::http::query::{paged_url, paging_params, query_of};
use crate::text::str_eq;
use crate::types::chat::Space;
use vstd::prelude::*;
use vstd::string::StringExecFns;

verus! {

/// Base URL of the Chat API.
pub const CHAT_BASE: &'static str = "https://chat.googleapis.com/v1";

/// The URL listing the spaces the user is a member of.
pub fn spaces_list_url(page_size: Option<u32>, page_token: Option<&str>) -> (r: String)
    ensures
        r@ == CHAT_BASE@ + "/spaces"@ + query_of(paging_params(page_size, page_token)),
{
    let mut base = String::from_str(CHAT_BASE);
    base.append("/spaces");
    paged_url(base.as_str(), page_size, page_token)
}

/// The URL listing the messages of a space (by resource name, such as
/// `spaces/AAA`).
pub fn messages_list_url(space_name: &str, page_size: Option<u32>, page_token: Option<&str>) -> (r: String)
    ensures
        r@ == CHAT_BASE@ + "/"@ + space_name@ + "/messages"@ + query_of(paging_params(page_size, page_token)),
{
    let mut base = String::from_str(CHAT_BASE);
    base.append("/");
    base.append(space_name);
    base.append("/messages");
    paged_url(base.as_str(), page_size, page_token)
}

/// The index of the first space whose display name is `name`, if any.
pub open spec fn space_named(spaces: Seq<Space>, name: Seq<char>) -> Option<int>
    decreases spaces.len(),
{
    if spaces.len() == 0 {
        None
    } else if spaces[0].display_name matches Some(d) && d@ == name {
        Some(0)
    } else {
        match space_named(spaces.drop_first(), name) {
            Some(k) => Some(k + 1),
            None => None,
        }
    }
}

/// Finds, in one page of spaces, the first one with the given display name.
pub fn find_space(spaces: &Vec<Space>, display_name: &str) -> (r: Option<usize>)
    ensures
        match r {
            Some(i) => space_named(spaces@, display_name@) == Some(i as int),
            None => space_named(spaces@, display_name@).is_none(),
        },
{
    let ghost all = spaces@;
    let mut i: usize = 0;
    assert(all.skip(0) =~= all);
    while i < spaces.len()
        invariant
            i <= all.len(),
            all == spaces@,
            space_named(all, display_name@) == match space_named(all.skip(i as int), display_name@) {
                Some(k) => Some(k + i),
                None => None::<int>,
            },
        decreases all.len() - i,
    {
        assert(all.skip(i as int)[0] == all[i as int]);
        assert(all.skip(i as int).drop_first() =~= all.skip(i + 1));
        let hit = match &spaces[i].display_name {
            Some(d) => str_eq(d.as_str(), display_name),
            None => false,
        };
        if hit {
            return Some(i);
        }
        i = i + 1;
    }
    None
}

/// The type of a new space: the one asked for, else `SPACE`.
pub fn space_type_or_default(space_type: Option<&str>) -> (r: &str)
    ensures
        r@ == match space_type {
            Some(t) => t@,
            None => "SPACE"@,
        },
{
    match space_type {
        Some(t) => t,
        None => "SPACE",
    }
}

/// The URL creating a space.
pub fn spaces_url() -> (r: String)
    ensures
        r@ == CHAT_BASE@ + "/spaces"@,
{
    let mut url = String::from_str(CHAT_BASE);
    url.append("/spaces");
    url
}

/// The URL setting up a space (a direct message with one member).
pub fn space_setup_url() -> (r: String)
    ensures
        r@ == CHAT_BASE@ + "/spaces:setup"@,
{
    let mut url = String::from_str(CHAT_BASE);
    url.append("/spaces:setup");
    url
}

/// The URL posting a message into a space (by resource name).
pub fn messages_url(space_name: &str) -> (r: String)
    ensures
        r@ == CHAT_BASE@ + "/"@ + space_name@ + "/messages"@,
{
    let mut url = String::from_str(CHAT_BASE);
    url.append("/");
    url.append(space_name);
    url.append("/messages");
    url
}

} // verus!
