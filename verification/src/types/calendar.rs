//! Data types of the calendar API.

use vstd::prelude::*;

verus! {

#[derive(Debug, Clone)]
pub struct Calendar {
    pub id: String,
    pub summary: Option<String>,
    pub description: Option<String>,
    pub location: Option<String>,
    pub time_zone: Option<String>,
    pub etag: Option<String>,
    pub conference_properties: Option<ConferenceProperties>,
}

#[derive(Debug, Clone)]
pub struct ConferenceProperties {
    pub allowed_conference_solution_types: Vec<String>,
}

#[derive(Debug, Clone)]
pub struct CalendarListEntry {
    pub id: String,
    pub summary: Option<String>,
    pub description: Option<String>,
    pub location: Option<String>,
    pub time_zone: Option<String>,
    pub color_id: Option<String>,
    pub background_color: Option<String>,
    pub foreground_color: Option<String>,
    pub hidden: bool,
    pub selected: bool,
    pub primary: bool,
    pub deleted: bool,
    pub access_role: Option<String>,
    pub summary_override: Option<String>,
    pub default_reminders: Vec<EventReminder>,
    pub notification_settings: Option<NotificationSettings>,
    pub etag: Option<String>,
}

#[derive(Debug, Clone)]
pub struct NotificationSettings {
    pub notifications: Vec<CalendarNotification>,
}

#[derive(Debug, Clone)]
pub struct CalendarNotification {
    pub method: Option<String>,
    pub notification_type: Option<String>,
}

#[derive(Debug, Clone)]
pub struct Event {
    pub id: Option<String>,
    pub status: Option<String>,
    pub html_link: Option<String>,
    pub created: Option<String>,
    pub updated: Option<String>,
    pub summary: Option<String>,
    pub description: Option<String>,
    pub location: Option<String>,
    pub color_id: Option<String>,
    pub creator: Option<EventPerson>,
    pub organizer: Option<EventPerson>,
    pub start: Option<EventDateTime>,
    pub end: Option<EventDateTime>,
    pub original_start_time: Option<EventDateTime>,
    pub recurring_event_id: Option<String>,
    pub recurrence: Vec<String>,
    pub transparency: Option<String>,
    pub visibility: Option<String>,
    pub ical_uid: Option<String>,
    pub sequence: Option<i64>,
    pub attendees: Vec<EventAttendee>,
    pub hangout_link: Option<String>,
    pub conference_data: Option<ConferenceData>,
    pub reminders: Option<EventReminders>,
    pub event_type: Option<String>,
    pub etag: Option<String>,
    pub kind: Option<String>,
}

#[derive(Debug, Clone)]
pub struct EventPerson {
    pub id: Option<String>,
    pub email: Option<String>,
    pub display_name: Option<String>,
    pub is_self: bool,
}

#[derive(Debug, Clone)]
pub struct EventDateTime {
    pub date: Option<String>,
    pub date_time: Option<String>,
    pub time_zone: Option<String>,
}

#[derive(Debug, Clone)]
pub struct EventAttendee {
    pub id: Option<String>,
    pub email: Option<String>,
    pub display_name: Option<String>,
    pub organizer: bool,
    pub is_self: bool,
    pub resource: bool,
    pub optional: bool,
    pub response_status: Option<String>,
    pub comment: Option<String>,
    pub additional_guests: Option<i64>,
}

#[derive(Debug, Clone)]
pub struct EventReminder {
    pub method: Option<String>,
    pub minutes: Option<i64>,
}

#[derive(Debug, Clone)]
pub struct EventReminders {
    pub use_default: bool,
    pub overrides: Vec<EventReminder>,
}

#[derive(Debug, Clone)]
pub struct EventRecurrence {
    pub rrule: Option<String>,
    pub exrule: Option<String>,
    pub rdate: Option<String>,
    pub exdate: Option<String>,
}

#[derive(Debug, Clone)]
pub struct ConferenceData {
    pub conference_id: Option<String>,
    pub conference_solution: Option<ConferenceSolution>,
    pub entry_points: Vec<EntryPoint>,
    pub notes: Option<String>,
}

#[derive(Debug, Clone)]
pub struct ConferenceSolution {
    pub key: Option<ConferenceSolutionKey>,
    pub name: Option<String>,
    pub icon_uri: Option<String>,
}

#[derive(Debug, Clone)]
pub struct ConferenceSolutionKey {
    pub solution_type: Option<String>,
}

#[derive(Debug, Clone)]
pub struct EntryPoint {
    pub entry_point_type: Option<String>,
    pub uri: Option<String>,
    pub label: Option<String>,
    pub pin: Option<String>,
    pub region_code: Option<String>,
}

#[derive(Debug, Clone)]
pub struct Acl {
    pub kind: String,
    pub etag: Option<String>,
    pub next_page_token: Option<String>,
    pub next_sync_token: Option<String>,
    pub items: Vec<AclRule>,
}

#[derive(Debug, Clone)]
pub struct AclRule {
    pub id: Option<String>,
    pub kind: Option<String>,
    pub etag: Option<String>,
    pub role: Option<String>,
    pub scope: Option<AclScope>,
}

#[derive(Debug, Clone)]
pub struct AclScope {
    pub scope_type: Option<String>,
    pub value: Option<String>,
}

} // verus!
