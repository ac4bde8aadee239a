//! Google Slides: where imported text goes in a new presentation, and which
//! shape holds a slide's speaker notes.

use vstd::prelude::*;
use vstd::string::StringExecFns;
use crate::error::Error;
use crate::text::str_eq;

verus! {

/// A page element of a slide, reduced to what the placeholder search reads.
#[derive(Debug, Clone)]
pub struct SlideElementInfo {
    pub object_id: Option<String>,
    /// The `type` of the element's shape placeholder, when it is a shape
    /// with a placeholder.
    pub placeholder_type: Option<String>,
}

/// A slide, reduced to what markdown import and notes updates read.
#[derive(Debug, Clone)]
pub struct SlideInfo {
    pub object_id: Option<String>,
    pub elements: Vec<SlideElementInfo>,
    /// The object id of the shape holding the speaker notes, when the slide
    /// has a notes page with one.
    pub speaker_notes_object_id: Option<String>,
}

/// Whether an element is a body or subtitle placeholder with an object id.
pub open spec fn text_placeholder(e: SlideElementInfo) -> bool {
    &&& e.object_id.is_some()
    &&& e.placeholder_type matches Some(t) && (t@ == "BODY"@ || t@ == "SUBTITLE"@)
}

/// The id of the first text placeholder among `els`, if any.
pub open spec fn first_placeholder(els: Seq<SlideElementInfo>) -> Option<Seq<char>>
    decreases els.len(),
{
    if els.len() == 0 {
        None
    } else if text_placeholder(els[0]) {
        Some(els[0].object_id.unwrap()@)
    } else {
        first_placeholder(els.drop_first())
    }
}

/// Where markdown imported into a new presentation is inserted: into the
/// first slide's first body or subtitle placeholder, else into the slide
/// itself; nowhere when there is no first slide or it has no object id.
pub open spec fn markdown_target_of(slides: Seq<SlideInfo>) -> Option<Seq<char>> {
    if slides.len() == 0 {
        None
    } else {
        match slides[0].object_id {
            None => None,
            Some(id) => match first_placeholder(slides[0].elements@) {
                Some(p) => Some(p),
                None => Some(id@),
            },
        }
    }
}

fn placeholder_kind(t: &str) -> (r: bool)
    ensures
        r == (t@ == "BODY"@ || t@ == "SUBTITLE"@),
{
    str_eq(t, "BODY") || str_eq(t, "SUBTITLE")
}

/// The object that receives imported markdown (see `markdown_target_of`).
pub fn markdown_target(slides: &Vec<SlideInfo>) -> (r: Option<String>)
    ensures
        match r {
            Some(t) => markdown_target_of(slides@) == Some(t@),
            None => markdown_target_of(slides@).is_none(),
        },
{
    if slides.len() == 0 {
        return None;
    }
    let slide = &slides[0];
    let slide_id = match &slide.object_id {
        Some(id) => id,
        None => return None,
    };
    let els = &slide.elements;
    let mut i: usize = 0;
    assert(els@.skip(0) =~= els@);
    while i < els.len()
        invariant
            i <= els@.len(),
            slides@.len() > 0,
            els@ == slides@[0].elements@,
            slides@[0].object_id == Some(*slide_id),
            first_placeholder(els@) == first_placeholder(els@.skip(i as int)),
        decreases els.len() - i,
    {
        let e = &els[i];
        assert(els@.skip(i as int)[0] == els@[i as int]);
        assert(els@.skip(i as int).drop_first() =~= els@.skip(i + 1));
        match &e.object_id {
            Some(id) => match &e.placeholder_type {
                Some(t) => if placeholder_kind(t.as_str()) {
                    assert(text_placeholder(els@[i as int]));
                    assert(first_placeholder(els@.skip(i as int)) == Some(id@));
                    return Some(id.clone());
                },
                None => {},
            },
            None => {},
        }
        i = i + 1;
    }
    Some(slide_id.clone())
}

/// The id a created presentation came back with; its absence is an error.
pub fn created_presentation_id(id: Option<String>) -> (r: Result<String, Error>)
    ensures
        match id {
            Some(s) => r == Ok::<String, Error>(s),
            None => r matches Err(Error::Other(m)) && m@ == "no presentation_id returned"@,
        },
{
    match id {
        Some(s) => Ok(s),
        None => Err(Error::Other(String::from_str("no presentation_id returned"))),
    }
}

/// The index of the first slide whose object id is `id`, if any.
pub open spec fn slide_index(slides: Seq<SlideInfo>, id: Seq<char>) -> Option<int>
    decreases slides.len(),
{
    if slides.len() == 0 {
        None
    } else if slides[0].object_id matches Some(o) && o@ == id {
        Some(0)
    } else {
        match slide_index(slides.drop_first(), id) {
            Some(k) => Some(k + 1),
            None => None,
        }
    }
}

/// The speaker-notes shape of the first slide whose object id is `id`.
pub open spec fn speaker_notes_of(slides: Seq<SlideInfo>, id: Seq<char>) -> Option<Seq<char>> {
    match slide_index(slides, id) {
        Some(k) => match slides[k].speaker_notes_object_id {
            Some(n) => Some(n@),
            None => None,
        },
        None => None,
    }
}

/// The object whose text a notes update replaces: the speaker-notes shape
/// of the first slide with the given id. A missing slide or notes shape is
/// `Error::Other("could not find speaker notes for slide <id>")`.
pub fn speaker_notes_target(slides: &Vec<SlideInfo>, slide_object_id: &str) -> (r: Result<String, Error>)
    ensures
        match speaker_notes_of(slides@, slide_object_id@) {
            Some(n) => r matches Ok(t) && t@ == n,
            None => r matches Err(Error::Other(m)) && m@ == "could not find speaker notes for slide "@
                + slide_object_id@,
        },
{
    let mut i: usize = 0;
    let ghost all = slides@;
    assert(all.skip(0) =~= all);
    while i < slides.len()
        invariant
            i <= all.len(),
            all == slides@,
            slide_index(all, slide_object_id@) == match slide_index(all.skip(i as int), slide_object_id@) {
                Some(k) => Some(k + i),
                None => None::<int>,
            },
        decreases all.len() - i,
    {
        assert(all.skip(i as int)[0] == all[i as int]);
        assert(all.skip(i as int).drop_first() =~= all.skip(i + 1));
        let s = &slides[i];
        let found = match &s.object_id {
            Some(o) => str_eq(o.as_str(), slide_object_id),
            None => false,
        };
        if found {
            return match &s.speaker_notes_object_id {
                Some(n) => Ok(n.clone()),
                None => Err(Error::Other(missing_notes_message(slide_object_id))),
            };
        }
        i = i + 1;
    }
    assert(all.skip(i as int).len() == 0);
    Err(Error::Other(missing_notes_message(slide_object_id)))
}

fn missing_notes_message(slide_object_id: &str) -> (m: String)
    ensures
        m@ == "could not find speaker notes for slide "@ + slide_object_id@,
{
    let mut m = String::from_str("could not find speaker notes for slide ");
    m.append(slide_object_id);
    m
}

/// Base URL of the Slides API.
pub const SLIDES_BASE: &'static str = "https://slides.googleapis.com/v1";

/// The URL of a presentation.
pub fn presentation_url(presentation_id: &str) -> (r: String)
    ensures
        r@ == SLIDES_BASE@ + "/presentations/"@ + presentation_id@,
{
    let mut url = String::from_str(SLIDES_BASE);
    url.append("/presentations/");
    url.append(presentation_id);
    url
}

/// The URL creating a presentation.
pub fn presentations_url() -> (r: String)
    ensures
        r@ == SLIDES_BASE@ + "/presentations"@,
{
    let mut url = String::from_str(SLIDES_BASE);
    url.append("/presentations");
    url
}

/// The URL applying a batch of update requests to a presentation.
pub fn presentation_batch_update_url(presentation_id: &str) -> (r: String)
    ensures
        r@ == SLIDES_BASE@ + "/presentations/"@ + presentation_id@ + ":batchUpdate"@,
{
    let mut url = presentation_url(presentation_id);
    url.append(":batchUpdate");
    url
}

/// The Drive URL copying a presentation (the `:copy` form).
pub fn presentation_copy_url(presentation_id: &str) -> (r: String)
    ensures
        r@ == "https://www.googleapis.com/drive/v3/files/"@ + presentation_id@ + ":copy"@,
{
    let mut url = String::from_str("https://www.googleapis.com/drive/v3/files/");
    url.append(presentation_id);
    url.append(":copy");
    url
}

} // verus!
