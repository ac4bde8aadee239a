//! Data types exchanged with the Google Workspace APIs.

pub mod appscript;
pub mod calendar;
pub mod chat;
pub mod classroom;
pub mod contacts;
pub mod docs;
pub mod drive;
pub mod forms;
pub mod gmail;
pub mod groups;
pub mod keep;
pub mod people;
pub mod sheets;
pub mod slides;
pub mod tasks;

use vstd::prelude::*;

verus! {

/// Common pagination response wrapper.
#[derive(Debug, Clone)]
pub struct PagedResponse<T> {
    pub items: Vec<T>,
    pub next_page_token: Option<String>,
    pub total: Option<u64>,
}

} // verus!
