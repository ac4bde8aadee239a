//! Data types of the gmail API.

use vstd::prelude::*;

verus! {

#[derive(Debug, Clone)]
pub struct Message {
    pub id: String,
    pub thread_id: Option<String>,
    pub label_ids: Vec<String>,
    pub snippet: Option<String>,
    pub history_id: Option<String>,
    pub internal_date: Option<String>,
    pub size_estimate: Option<i64>,
    pub payload: Option<MessagePart>,
    pub raw: Option<String>,
}

#[derive(Debug)]
pub struct MessagePart {
    pub part_id: Option<String>,
    pub mime_type: Option<String>,
    pub filename: Option<String>,
    pub headers: Vec<Header>,
    pub body: Option<MessagePartBody>,
    pub parts: Vec<MessagePart>,
}

#[derive(Debug, Clone)]
pub struct MessagePartBody {
    pub attachment_id: Option<String>,
    pub size: Option<i64>,
    pub data: Option<String>,
}

#[derive(Debug, Clone)]
pub struct Header {
    pub name: String,
    pub value: String,
}

#[derive(Debug, Clone)]
pub struct Thread {
    pub id: String,
    pub history_id: Option<String>,
    pub snippet: Option<String>,
    pub messages: Vec<Message>,
}

#[derive(Debug, Clone)]
pub struct Label {
    pub id: String,
    pub name: String,
    pub label_list_visibility: Option<String>,
    pub message_list_visibility: Option<String>,
    pub label_type: Option<String>,
    pub messages_total: Option<i64>,
    pub messages_unread: Option<i64>,
    pub threads_total: Option<i64>,
    pub threads_unread: Option<i64>,
}

#[derive(Debug, Clone)]
pub struct Draft {
    pub id: String,
    pub message: Option<Message>,
}

#[derive(Debug, Clone)]
pub struct Filter {
    pub id: String,
    pub criteria: Option<FilterCriteria>,
    pub action: Option<FilterAction>,
}

#[derive(Debug, Clone)]
pub struct FilterCriteria {
    pub from: Option<String>,
    pub to: Option<String>,
    pub subject: Option<String>,
    pub query: Option<String>,
}

#[derive(Debug, Clone)]
pub struct FilterAction {
    pub add_label_ids: Vec<String>,
    pub remove_label_ids: Vec<String>,
    pub forward: Option<String>,
}

#[derive(Debug, Clone)]
pub struct AutoForwardingSettings {
    pub enabled: bool,
    pub email_address: Option<String>,
    pub disposition: Option<String>,
}

#[derive(Debug, Clone)]
pub struct VacationSettings {
    pub enable_auto_reply: bool,
    pub response_subject: Option<String>,
    pub response_body_plain_text: Option<String>,
    pub response_body_html: Option<String>,
}

#[derive(Debug, Clone)]
pub struct Delegate {
    pub delegate_email: String,
    pub verification_status: Option<String>,
}

#[derive(Debug, Clone)]
pub struct SendAs {
    pub send_as_email: String,
    pub display_name: Option<String>,
    pub is_primary: bool,
    pub is_default: bool,
}

#[derive(Debug, Clone)]
pub struct HistoryRecord {
    pub id: String,
    pub messages: Vec<Message>,
    pub messages_added: Vec<HistoryMessageAdded>,
    pub messages_deleted: Vec<HistoryMessageDeleted>,
    pub labels_added: Vec<HistoryLabelAdded>,
    pub labels_removed: Vec<HistoryLabelRemoved>,
}

#[derive(Debug, Clone)]
pub struct HistoryMessageAdded {
    pub message: Message,
}

#[derive(Debug, Clone)]
pub struct HistoryMessageDeleted {
    pub message: Message,
}

#[derive(Debug, Clone)]
pub struct HistoryLabelAdded {
    pub message: Message,
    pub label_ids: Vec<String>,
}

#[derive(Debug, Clone)]
pub struct HistoryLabelRemoved {
    pub message: Message,
    pub label_ids: Vec<String>,
}

/// Parameters for composing/sending a message.
#[derive(Debug, Clone)]
pub struct ComposeParams {
    pub to: Vec<String>,
    pub cc: Vec<String>,
    pub bcc: Vec<String>,
    pub subject: String,
    pub body: Option<String>,
    pub body_html: Option<String>,
    pub body_file: Option<String>,
    pub reply_to_message_id: Option<String>,
    pub quote: bool,
    pub track: bool,
    pub track_split: bool,
}

impl Clone for MessagePart {
    fn clone(&self) -> (r: Self)
        decreases self,
    {
        let mut parts: Vec<MessagePart> = Vec::new();
        let mut i: usize = 0;
        while i < self.parts.len()
            invariant
                i <= self.parts.len(),
            decreases self.parts.len() - i,
        {
            let p = self.parts[i].clone();
            parts.push(p);
            i = i + 1;
        }
        MessagePart {
            part_id: self.part_id.clone(),
            mime_type: self.mime_type.clone(),
            filename: self.filename.clone(),
            headers: self.headers.clone(),
            body: self.body.clone(),
            parts,
        }
    }
}

} // verus!
