//! Data types of the tasks API.

use vstd::prelude::*;

verus! {

#[derive(Debug, Clone)]
pub struct TaskList {
    pub id: Option<String>,
    pub title: Option<String>,
    pub updated: Option<String>,
    pub self_link: Option<String>,
}

#[derive(Debug, Clone)]
pub struct Task {
    pub id: Option<String>,
    pub title: Option<String>,
    pub notes: Option<String>,
    pub status: Option<String>,
    pub due: Option<String>,
    pub completed: Option<String>,
    pub updated: Option<String>,
    pub parent: Option<String>,
    pub position: Option<String>,
    pub self_link: Option<String>,
    pub deleted: bool,
    pub hidden: bool,
    pub links: Vec<TaskLink>,
}

#[derive(Debug, Clone)]
pub struct TaskLink {
    pub link_type: Option<String>,
    pub description: Option<String>,
    pub link: Option<String>,
}

} // verus!
