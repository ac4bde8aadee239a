//! Data types of the chat API.

use vstd::prelude::*;

verus! {

#[derive(Debug, Clone)]
pub struct Space {
    pub name: Option<String>,
    pub space_type: Option<String>,
    pub single_user_bot_dm: bool,
    pub threaded: bool,
    pub display_name: Option<String>,
    pub space_threading_state: Option<String>,
    pub space_details: Option<SpaceDetails>,
}

#[derive(Debug, Clone)]
pub struct SpaceDetails {
    pub description: Option<String>,
    pub guidelines: Option<String>,
}

#[derive(Debug, Clone)]
pub struct ChatUser {
    pub name: Option<String>,
    pub display_name: Option<String>,
    pub user_type: Option<String>,
    pub domain_id: Option<String>,
}

#[derive(Debug, Clone)]
pub struct ChatThread {
    pub name: Option<String>,
    pub thread_key: Option<String>,
}

#[derive(Debug, Clone)]
pub struct ChatMember {
    pub name: Option<String>,
    pub state: Option<String>,
    pub role: Option<String>,
    pub member: Option<ChatUser>,
    pub create_time: Option<String>,
}

#[derive(Debug, Clone)]
pub struct ChatAttachment {
    pub name: Option<String>,
    pub content_name: Option<String>,
    pub content_type: Option<String>,
    pub thumbnail_uri: Option<String>,
    pub download_uri: Option<String>,
    pub source: Option<String>,
}

#[derive(Debug, Clone)]
pub struct Reaction {
    pub name: Option<String>,
    pub user: Option<ChatUser>,
    pub emoji: Option<Emoji>,
}

#[derive(Debug, Clone)]
pub struct Emoji {
    pub unicode: Option<String>,
}

} // verus!
