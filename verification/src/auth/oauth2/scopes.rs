//! Google API OAuth2 scopes.

use vstd::prelude::*;

verus! {

pub const GMAIL: &'static str = "https://www.googleapis.com/auth/gmail.modify";

pub const GMAIL_READONLY: &'static str = "https://www.googleapis.com/auth/gmail.readonly";

pub const GMAIL_SEND: &'static str = "https://www.googleapis.com/auth/gmail.send";

pub const CALENDAR: &'static str = "https://www.googleapis.com/auth/calendar";

pub const CALENDAR_READONLY: &'static str = "https://www.googleapis.com/auth/calendar.readonly";

pub const DRIVE: &'static str = "https://www.googleapis.com/auth/drive";

pub const DRIVE_READONLY: &'static str = "https://www.googleapis.com/auth/drive.readonly";

pub const DRIVE_FILE: &'static str = "https://www.googleapis.com/auth/drive.file";

pub const DOCS: &'static str = "https://www.googleapis.com/auth/documents";

pub const DOCS_READONLY: &'static str = "https://www.googleapis.com/auth/documents.readonly";

pub const SHEETS: &'static str = "https://www.googleapis.com/auth/spreadsheets";

pub const SHEETS_READONLY: &'static str = "https://www.googleapis.com/auth/spreadsheets.readonly";

pub const SLIDES: &'static str = "https://www.googleapis.com/auth/presentations";

pub const SLIDES_READONLY: &'static str = "https://www.googleapis.com/auth/presentations.readonly";

pub const FORMS: &'static str = "https://www.googleapis.com/auth/forms.body";

pub const FORMS_READONLY: &'static str = "https://www.googleapis.com/auth/forms.body.readonly";

pub const FORMS_RESPONSES: &'static str = "https://www.googleapis.com/auth/forms.responses.readonly";

pub const CONTACTS: &'static str = "https://www.googleapis.com/auth/contacts";

pub const CONTACTS_READONLY: &'static str = "https://www.googleapis.com/auth/contacts.readonly";

pub const TASKS: &'static str = "https://www.googleapis.com/auth/tasks";

pub const TASKS_READONLY: &'static str = "https://www.googleapis.com/auth/tasks.readonly";

pub const PEOPLE: &'static str = "https://www.googleapis.com/auth/directory.readonly";

pub const CHAT: &'static str = "https://www.googleapis.com/auth/chat.messages";

pub const CHAT_READONLY: &'static str = "https://www.googleapis.com/auth/chat.messages.readonly";

pub const CHAT_SPACES: &'static str = "https://www.googleapis.com/auth/chat.spaces";

pub const CLASSROOM: &'static str = "https://www.googleapis.com/auth/classroom.courses";

pub const CLASSROOM_READONLY: &'static str = "https://www.googleapis.com/auth/classroom.courses.readonly";

pub const KEEP: &'static str = "https://www.googleapis.com/auth/keep";

pub const KEEP_READONLY: &'static str = "https://www.googleapis.com/auth/keep.readonly";

pub const APPSCRIPT: &'static str = "https://www.googleapis.com/auth/script.projects";

pub const GROUPS: &'static str = "https://www.googleapis.com/auth/cloud-identity.groups.readonly";

pub const USERINFO: &'static str = "https://www.googleapis.com/auth/userinfo.email";

} // verus!
