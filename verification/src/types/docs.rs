//! Data types of the docs API.

use vstd::prelude::*;

verus! {

#[derive(Debug, Clone)]
pub struct TabProperties {
    pub tab_id: Option<String>,
    pub title: Option<String>,
    pub parent_tab_id: Option<String>,
    pub index: Option<i64>,
    pub nesting_level: Option<i64>,
}

#[derive(Debug, Clone)]
pub struct WeightedFontFamily {
    pub font_family: Option<String>,
    pub weight: Option<i64>,
}

#[derive(Debug, Clone)]
pub struct Link {
    pub url: Option<String>,
    pub bookmark_id: Option<String>,
    pub heading_id: Option<String>,
    pub tab_id: Option<String>,
}

#[derive(Debug, Clone)]
pub struct PersonProperties {
    pub name: Option<String>,
    pub email: Option<String>,
}

#[derive(Debug, Clone)]
pub struct RichLinkProperties {
    pub title: Option<String>,
    pub uri: Option<String>,
    pub mime_type: Option<String>,
}

#[derive(Debug, Clone)]
pub struct NamedRange {
    pub named_range_id: Option<String>,
    pub name: Option<String>,
    pub ranges: Vec<Range>,
}

#[derive(Debug, Clone)]
pub struct Range {
    pub segment_id: Option<String>,
    pub tab_id: Option<String>,
    pub start_index: Option<i64>,
    pub end_index: Option<i64>,
}

} // verus!
