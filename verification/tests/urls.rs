use cog_core::config::{
    credentials_file_name, missing_credentials_message, socket_location, tmp_socket_path,
    SocketLocation,
};
use cog_core::services::calendar::{acl_url, calendar_list_url, event_url, quick_add_url};
use cog_core::services::chat::{find_space, messages_list_url, space_type_or_default, spaces_list_url};
use cog_core::services::classroom::{
    classroom_paged_url, classroom_update_url, courses_list_url, grade_update_mask, guardian_invitations_url,
    invitations_list_url,
};
use cog_core::services::appscript::{project_content_url, project_url, projects_url, run_url};
use cog_core::services::contacts::{
    connections_url, contacts_search_url, create_contact_url, directory_search_url, me_profile_url,
    profile_url,
};
use cog_core::services::drive::{
    changes_url, copy_url, create_file_url, drives_url, file_url, move_url, permissions_url, share_url,
    start_page_token, upload_url,
};
use cog_core::services::gmail::{drafts_list_url, history_url, message_url, search_url, thread_url};
use cog_core::services::groups::{
    form_response_url, form_url, forms_url, groups_list_url, members_url, responses_list_url,
};
use cog_core::services::sheets::{
    note_grid, notes_read_url, values_append_url, values_clear_url, values_update_url, values_url,
};
use cog_core::services::tasks::{task_url, tasklists_url, tasks_list_url};
use cog_core::types::chat::Space;
use cog_core::Error;

#[test]
fn socket_and_credentials_paths() {
    assert_eq!(socket_location(true, true), SocketLocation::CogHome);
    assert_eq!(socket_location(false, true), SocketLocation::RuntimeDir);
    assert_eq!(socket_location(false, false), SocketLocation::Tmp);
    assert_eq!(tmp_socket_path(1000), "/tmp/cog-1000.sock");
    assert_eq!(credentials_file_name(None), "credentials.json");
    assert_eq!(credentials_file_name(Some("work")), "credentials-work.json");
    assert_eq!(
        missing_credentials_message("/x/credentials.json"),
        "credentials file not found: /x/credentials.json\nDownload OAuth credentials from Google Cloud Console and save them there."
    );
}

#[test]
fn gmail_urls() {
    assert_eq!(
        search_url("me", "is:unread", Some(5), None),
        "https://gmail.googleapis.com/gmail/v1/users/me/messages?q=is%3Aunread&maxResults=5"
    );
    assert_eq!(drafts_list_url("me", None, None), "https://gmail.googleapis.com/gmail/v1/users/me/drafts");
    assert_eq!(
        drafts_list_url("me", None, Some("t")),
        "https://gmail.googleapis.com/gmail/v1/users/me/drafts?pageToken=t"
    );
    assert_eq!(
        history_url("me", "42", Some("p")),
        "https://gmail.googleapis.com/gmail/v1/users/me/history?startHistoryId=42&pageToken=p"
    );
    assert_eq!(message_url("me", "m1"), "https://gmail.googleapis.com/gmail/v1/users/me/messages/m1?format=full");
    assert_eq!(thread_url("u@x", "t1"), "https://gmail.googleapis.com/gmail/v1/users/u@x/threads/t1?format=full");
}

#[test]
fn calendar_urls() {
    assert_eq!(
        event_url("primary", "e 1"),
        "https://www.googleapis.com/calendar/v3/calendars/primary/events/e+1"
    );
    assert_eq!(
        quick_add_url("primary", "Lunch at 1pm"),
        "https://www.googleapis.com/calendar/v3/calendars/primary/events/quickAdd?text=Lunch+at+1pm"
    );
    assert_eq!(calendar_list_url(None), "https://www.googleapis.com/calendar/v3/users/me/calendarList");
    assert_eq!(
        acl_url("a@b", Some("p")),
        "https://www.googleapis.com/calendar/v3/calendars/a%40b/acl?pageToken=p"
    );
}

#[test]
fn drive_urls() {
    assert!(file_url("f1").starts_with("https://www.googleapis.com/drive/v3/files/f1?fields=id%2Cname%2CmimeType"));
    assert!(move_url("f1", "new", Some("old")).contains("?addParents=new&fields="));
    assert!(move_url("f1", "new", Some("old")).ends_with("&removeParents=old"));
    assert!(!move_url("f1", "new", None).contains("removeParents"));
    assert_eq!(
        share_url("f1", false),
        "https://www.googleapis.com/drive/v3/files/f1/permissions?sendNotificationEmail=false"
    );
    let c = changes_url("123", Some(10));
    assert!(c.starts_with("https://www.googleapis.com/drive/v3/changes?pageToken=123&fields=nextPageToken%2C"));
    assert!(c.ends_with("&pageSize=10&includeItemsFromAllDrives=true&supportsAllDrives=true"));
    assert_eq!(start_page_token(Some("s".into())).unwrap(), "s");
    match start_page_token(None) {
        Err(Error::Other(m)) => assert_eq!(m, "missing startPageToken"),
        other => panic!("unexpected: {other:?}"),
    }
}

fn space(name: Option<&str>) -> Space {
    Space {
        name: Some("spaces/x".into()),
        space_type: None,
        single_user_bot_dm: false,
        threaded: false,
        display_name: name.map(|n| n.into()),
        space_threading_state: None,
        space_details: None,
    }
}

#[test]
fn chat_urls_and_lookup() {
    assert_eq!(spaces_list_url(Some(100), None), "https://chat.googleapis.com/v1/spaces?pageSize=100");
    assert_eq!(
        messages_list_url("spaces/AAA", None, Some("t")),
        "https://chat.googleapis.com/v1/spaces/AAA/messages?pageToken=t"
    );
    let spaces = vec![space(None), space(Some("Team")), space(Some("Team"))];
    assert_eq!(find_space(&spaces, "Team"), Some(1));
    assert_eq!(find_space(&spaces, "Other"), None);
    assert_eq!(space_type_or_default(None), "SPACE");
    assert_eq!(space_type_or_default(Some("GROUP_CHAT")), "GROUP_CHAT");
}

#[test]
fn tasks_classroom_contacts_groups_urls() {
    assert_eq!(tasklists_url(None), "https://tasks.googleapis.com/tasks/v1/users/@me/lists");
    assert_eq!(
        tasks_list_url("list 1", Some("p")),
        "https://tasks.googleapis.com/tasks/v1/lists/list+1/tasks?pageToken=p"
    );
    assert_eq!(task_url("l", "t"), "https://tasks.googleapis.com/tasks/v1/lists/l/tasks/t");
    let states = vec!["ACTIVE".to_string(), "ARCHIVED".to_string()];
    assert_eq!(
        courses_list_url(Some(5), None, Some(&states)),
        "https://classroom.googleapis.com/v1/courses?pageSize=5&courseStates=ACTIVE&courseStates=ARCHIVED"
    );
    assert_eq!(
        classroom_paged_url("/courses/c1/students", None, None),
        "https://classroom.googleapis.com/v1/courses/c1/students"
    );
    assert_eq!(
        invitations_list_url(None, Some("u1"), Some("p")),
        "https://classroom.googleapis.com/v1/invitations?userId=u1&pageToken=p"
    );
    assert_eq!(
        guardian_invitations_url("s1", Some(&states), None),
        "https://classroom.googleapis.com/v1/userProfiles/s1/guardianInvitations?states=ACTIVE&states=ARCHIVED"
    );
    assert_eq!(grade_update_mask(true, true), "assignedGrade,draftGrade");
    assert_eq!(grade_update_mask(false, true), "draftGrade");
    assert_eq!(grade_update_mask(false, false), "");
    assert_eq!(
        connections_url(Some("p"), Some(10)),
        "https://people.googleapis.com/v1/people/me/connections?personFields=names,emailAddresses,phoneNumbers&pageSize=10&pageToken=p"
    );
    assert_eq!(
        contacts_search_url("ann"),
        "https://people.googleapis.com/v1/people:searchContacts?query=ann&readMask=names,emailAddresses,phoneNumbers"
    );
    assert!(directory_search_url("b").ends_with("&sources=DIRECTORY_SOURCE_TYPE_DOMAIN_PROFILE"));
    assert_eq!(
        groups_list_url("customers/my_customer", None),
        "https://cloudidentity.googleapis.com/v1/groups?parent=customers%2Fmy_customer"
    );
    assert_eq!(members_url("groups/g1", None), "https://cloudidentity.googleapis.com/v1/groups/g1/memberships");
    assert_eq!(
        responses_list_url("f1", Some(3), None),
        "https://forms.googleapis.com/v1/forms/f1/responses?pageSize=3"
    );
}

#[test]
fn sheets_urls_and_notes() {
    assert_eq!(values_url("s1", "A1:B2"), "https://sheets.googleapis.com/v4/spreadsheets/s1/values/A1%3AB2");
    assert!(values_update_url("s1", "A1").ends_with("/values/A1?valueInputOption=USER_ENTERED"));
    assert!(values_append_url("s1", "A1").ends_with(":append?valueInputOption=USER_ENTERED&insertDataOption=INSERT_ROWS"));
    assert!(values_clear_url("s1", "A1").ends_with("/values/A1:clear"));
    assert_eq!(
        notes_read_url("s1", "Sheet1!A1"),
        "https://sheets.googleapis.com/v4/spreadsheets/s1?ranges=Sheet1%21A1&includeGridData=true"
    );
    let grid = note_grid(&[vec![Some("a".into()), None], vec![]]);
    assert_eq!(grid, vec![vec!["a".to_string(), String::new()], vec![]]);
}

#[test]
fn people_forms_script_urls() {
    assert_eq!(
        me_profile_url(),
        "https://people.googleapis.com/v1/people/me?personFields=names,emailAddresses,photos"
    );
    assert_eq!(
        profile_url("people/c1"),
        "https://people.googleapis.com/v1/people%2Fc1?personFields=names,emailAddresses,photos"
    );
    assert_eq!(create_contact_url(), "https://people.googleapis.com/v1/people:createContact");
    assert_eq!(form_url("F1"), "https://forms.googleapis.com/v1/forms/F1");
    assert_eq!(forms_url(), "https://forms.googleapis.com/v1/forms");
    assert_eq!(form_response_url("F1", "R2"), "https://forms.googleapis.com/v1/forms/F1/responses/R2");
    assert_eq!(project_url("S"), "https://script.googleapis.com/v1/projects/S");
    assert_eq!(project_content_url("S"), "https://script.googleapis.com/v1/projects/S/content");
    assert_eq!(projects_url(), "https://script.googleapis.com/v1/projects");
    assert_eq!(run_url("S"), "https://script.googleapis.com/v1/scripts/S:run");
}

#[test]
fn classroom_update_urls() {
    assert_eq!(
        classroom_update_url("/courses/c1", "name,section"),
        "https://classroom.googleapis.com/v1/courses/c1?updateMask=name%2Csection"
    );
    assert_eq!(
        classroom_update_url("/courses/c1/topics/t2", "name"),
        "https://classroom.googleapis.com/v1/courses/c1/topics/t2?updateMask=name"
    );
}

#[test]
fn drive_file_operation_urls() {
    let fields = "fields=id%2Cname%2CmimeType%2Cdescription%2Cstarred%2Ctrashed%2Cparents%2CwebViewLink%2CwebContentLink%2CiconLink%2CthumbnailLink%2CcreatedTime%2CmodifiedTime%2Csize%2Cowners%2Cshared%2Cpermissions%2Cversion%2Cmd5Checksum%2Csha1Checksum%2Csha256Checksum%2CoriginalFilename%2CfullFileExtension%2CfileExtension%2CquotaBytesUsed%2CdriveId%2Ccapabilities%2CheadRevisionId";
    assert_eq!(create_file_url(), format!("https://www.googleapis.com/drive/v3/files?{fields}"));
    assert_eq!(copy_url("f1"), format!("https://www.googleapis.com/drive/v3/files/f1/copy?{fields}"));
    assert_eq!(
        upload_url(),
        format!("https://www.googleapis.com/upload/drive/v3/files?uploadType=multipart&{fields}")
    );
    assert_eq!(
        permissions_url("f1"),
        "https://www.googleapis.com/drive/v3/files/f1/permissions?fields=permissions%28id%2Ctype%2Crole%2CemailAddress%2CdisplayName%2Cdomain%2CexpirationTime%2Cdeleted%29"
    );
    assert_eq!(drives_url(None), "https://www.googleapis.com/drive/v3/drives");
    assert_eq!(drives_url(Some("a b")), "https://www.googleapis.com/drive/v3/drives?pageToken=a+b");
}

#[test]
fn keep_note_url() {
    assert_eq!(cog_core::services::keep::note_url("notes/abc"), "https://keep.googleapis.com/v1/notes/abc");
}

#[test]
fn first_cell_of_a1_ranges() {
    use_range_cases();
}

fn use_range_cases() {
    use_cases(&[
        ("A1", Some((0, 0))),
        ("Sheet1!B3:D9", Some((2, 1))),
        ("'My Sheet'!aa10", Some((9, 26))),
        ("Z1", Some((0, 25))),
        ("AB12:AC13", Some((11, 27))),
        ("Sheet1!A:A", None),
        ("Sheet1!1:1", None),
        ("A0", None),
        ("Named", None),
        ("", None),
        ("A1B", None),
        ("A99999999999", None),
    ]);
}

fn use_cases(cases: &[(&str, Option<(u32, u32)>)]) {
    for (range, expected) in cases {
        assert_eq!(cog_core::services::sheets::range_start_cell(range), *expected, "range {range}");
    }
}
