//! Data types of the keep API.

use vstd::prelude::*;

verus! {

#[derive(Debug, Clone)]
pub struct Note {
    pub name: Option<String>,
    pub create_time: Option<String>,
    pub update_time: Option<String>,
    pub trash_time: Option<String>,
    pub trashed: bool,
    pub title: Option<String>,
    pub body: Option<NoteBody>,
    pub attachments: Vec<Attachment>,
    pub permissions: Vec<NotePermission>,
}

#[derive(Debug, Clone)]
pub struct NoteBody {
    pub text: Option<TextContent>,
    pub list: Option<ListContent>,
}

#[derive(Debug, Clone)]
pub struct TextContent {
    pub text: Option<String>,
}

#[derive(Debug, Clone)]
pub struct ListContent {
    pub list_items: Vec<ListItem>,
}

#[derive(Debug)]
pub struct ListItem {
    pub text: Option<TextContent>,
    pub checked: bool,
    pub children_list_items: Vec<ListItem>,
}

#[derive(Debug, Clone)]
pub struct Attachment {
    pub name: Option<String>,
    pub mime_type: Vec<String>,
}

#[derive(Debug, Clone)]
pub struct NotePermission {
    pub name: Option<String>,
    pub email: Option<String>,
    pub role: Option<String>,
    pub deleted: bool,
}

impl Clone for ListItem {
    fn clone(&self) -> (r: Self)
        decreases self,
    {
        let mut children: Vec<ListItem> = Vec::new();
        let mut i: usize = 0;
        while i < self.children_list_items.len()
            invariant
                i <= self.children_list_items.len(),
            decreases self.children_list_items.len() - i,
        {
            children.push(self.children_list_items[i].clone());
            i = i + 1;
        }
        ListItem { text: self.text.clone(), checked: self.checked, children_list_items: children }
    }
}

} // verus!
