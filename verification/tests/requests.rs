use cog_core::services::calendar::{events_collection_url, freebusy_url};
use cog_core::services::chat::{messages_url, space_setup_url, spaces_url};
use cog_core::services::docs::{
    document_batch_update_url, document_copy_url, document_url, documents_url, tab_summaries, DocTabInfo,
};
use cog_core::services::drive::export_url;
use cog_core::services::sheets::{batch_update_url, sheet_copy_url, spreadsheet_url, spreadsheets_url};
use cog_core::services::slides::{
    presentation_batch_update_url, presentation_copy_url, presentation_url, presentations_url,
};
use cog_core::services::tasks::{tasklist_clear_url, tasks_url};
use cog_core::text::signed_decimal_string;
use cog_core::types::docs::TabProperties;

#[test]
fn signed_decimals() {
    assert_eq!(signed_decimal_string(0), "0");
    assert_eq!(signed_decimal_string(42), "42");
    assert_eq!(signed_decimal_string(-7), "-7");
    assert_eq!(signed_decimal_string(i64::MIN), i64::MIN.to_string());
    assert_eq!(signed_decimal_string(i64::MAX), i64::MAX.to_string());
}

#[test]
fn sheets_request_urls() {
    assert_eq!(spreadsheet_url("S"), "https://sheets.googleapis.com/v4/spreadsheets/S");
    assert_eq!(spreadsheets_url(), "https://sheets.googleapis.com/v4/spreadsheets");
    assert_eq!(batch_update_url("S"), "https://sheets.googleapis.com/v4/spreadsheets/S:batchUpdate");
    assert_eq!(sheet_copy_url("S", 123), "https://sheets.googleapis.com/v4/spreadsheets/S/sheets/123:copyTo");
    assert_eq!(sheet_copy_url("S", -1), "https://sheets.googleapis.com/v4/spreadsheets/S/sheets/-1:copyTo");
}

#[test]
fn export_url_encodes_mime_type() {
    assert_eq!(
        export_url("F", "application/pdf"),
        "https://www.googleapis.com/drive/v3/files/F/export?mimeType=application%2Fpdf"
    );
}

#[test]
fn slides_request_urls() {
    assert_eq!(presentation_url("P"), "https://slides.googleapis.com/v1/presentations/P");
    assert_eq!(presentations_url(), "https://slides.googleapis.com/v1/presentations");
    assert_eq!(presentation_batch_update_url("P"), "https://slides.googleapis.com/v1/presentations/P:batchUpdate");
    assert_eq!(presentation_copy_url("P"), "https://www.googleapis.com/drive/v3/files/P:copy");
}

#[test]
fn docs_request_urls() {
    assert_eq!(document_url("D"), "https://docs.googleapis.com/v1/documents/D");
    assert_eq!(documents_url(), "https://docs.googleapis.com/v1/documents");
    assert_eq!(document_batch_update_url("D"), "https://docs.googleapis.com/v1/documents/D:batchUpdate");
    assert_eq!(document_copy_url("D"), "https://www.googleapis.com/drive/v3/files/D/copy");
}

#[test]
fn tab_listing_reads_properties_and_child_counts() {
    let tabs = vec![
        DocTabInfo {
            properties: Some(TabProperties {
                tab_id: Some("t.0".into()),
                title: Some("Main".into()),
                parent_tab_id: None,
                index: Some(0),
                nesting_level: Some(0),
            }),
            child_tab_count: 2,
        },
        DocTabInfo { properties: None, child_tab_count: 0 },
    ];
    let lines = tab_summaries(&tabs);
    assert_eq!(lines.len(), 2);
    assert_eq!(lines[0].tab_id.as_deref(), Some("t.0"));
    assert_eq!(lines[0].title.as_deref(), Some("Main"));
    assert_eq!(lines[0].parent_tab_id, None);
    assert_eq!(lines[0].index, Some(0));
    assert_eq!(lines[0].child_tab_count, 2);
    assert_eq!(lines[1].tab_id, None);
    assert_eq!(lines[1].index, None);
    assert_eq!(lines[1].child_tab_count, 0);
}

#[test]
fn tasks_calendar_chat_request_urls() {
    assert_eq!(tasks_url("a/b"), "https://tasks.googleapis.com/tasks/v1/lists/a%2Fb/tasks");
    assert_eq!(tasklist_clear_url("L"), "https://tasks.googleapis.com/tasks/v1/lists/L/clear");
    assert_eq!(
        events_collection_url("me@x.com"),
        "https://www.googleapis.com/calendar/v3/calendars/me%40x.com/events"
    );
    assert_eq!(freebusy_url(), "https://www.googleapis.com/calendar/v3/freeBusy");
    assert_eq!(spaces_url(), "https://chat.googleapis.com/v1/spaces");
    assert_eq!(space_setup_url(), "https://chat.googleapis.com/v1/spaces:setup");
    assert_eq!(messages_url("spaces/AAA"), "https://chat.googleapis.com/v1/spaces/AAA/messages");
}
