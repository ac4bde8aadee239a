//! Data types of the slides API.

use vstd::prelude::*;

verus! {

#[derive(Debug, Clone)]
pub struct SlideLink {
    pub url: Option<String>,
    pub relative_link: Option<String>,
    pub page_object_id: Option<String>,
    pub slide_index: Option<i64>,
}

#[derive(Debug, Clone)]
pub struct Placeholder {
    pub placeholder_type: Option<String>,
    pub index: Option<i64>,
    pub parent_object_id: Option<String>,
}

#[derive(Debug, Clone)]
pub struct WeightedFontFamily {
    pub font_family: Option<String>,
    pub weight: Option<i64>,
}

#[derive(Debug, Clone)]
pub struct LineConnection {
    pub connected_object_id: Option<String>,
    pub connection_site_index: Option<i64>,
}

#[derive(Debug, Clone)]
pub struct WordArt {
    pub rendered_text: Option<String>,
}

#[derive(Debug, Clone)]
pub struct NotesProperties {
    pub speaker_notes_object_id: Option<String>,
}

} // verus!
