use cog_core::services::calendar::{
    events_url, free_slots, merge_intervals, resolve_calendar_id, respond_attendees, search_url,
    sort_intervals,
};
use cog_core::services::drive::{
    changes_cursor, changes_to_index_docs, file_to_index_doc, list_url, multipart_content_type,
    multipart_related_body, new_upload_body, search_url as drive_search_url, IndexableChange,
    IndexableFile,
};
use cog_core::services::gmail::{
    build_raw_message, compose_message_text, decode_base64url, extract_body_text,
    first_history_id, history_message_ids, message_to_index_doc, raw_message_with_boundary,
};
use cog_core::services::keep::{
    extract_note_body, keep_index_batch, keep_paging_done, note_to_index_doc, search_page_url,
};
use cog_core::types::calendar::EventAttendee;
use cog_core::types::drive::FileUser;
use cog_core::types::gmail::{ComposeParams, Header, HistoryRecord, Message, MessagePart, MessagePartBody};
use cog_core::types::keep::{ListContent, ListItem, Note, NoteBody, TextContent};
use cog_core::Error;

fn part(mime: &str, data: Option<&str>, parts: Vec<MessagePart>) -> MessagePart {
    MessagePart {
        part_id: None,
        mime_type: Some(mime.into()),
        filename: None,
        headers: vec![],
        body: Some(MessagePartBody { attachment_id: None, size: None, data: data.map(|d| d.into()) }),
        parts,
    }
}

fn message(id: &str, payload: Option<MessagePart>) -> Message {
    Message {
        id: id.into(),
        thread_id: Some("t1".into()),
        label_ids: vec!["INBOX".into()],
        snippet: Some("snip".into()),
        history_id: Some("h-".to_string() + id),
        internal_date: Some("1700".into()),
        size_estimate: None,
        payload,
        raw: None,
    }
}

#[test]
fn base64url_bodies_decode() {
    // "Hello, world!" in unpadded base64url
    assert_eq!(decode_base64url("SGVsbG8sIHdvcmxkIQ"), "Hello, world!");
    assert_eq!(decode_base64url("not base64!"), "");
    let nested = part(
        "multipart/alternative",
        None,
        vec![part("text/html", Some("PGI-"), vec![]), part("text/plain", Some("aGk"), vec![])],
    );
    assert_eq!(extract_body_text(Some(&nested)), "hi");
    assert_eq!(extract_body_text(None), "");
}

#[test]
fn message_index_document() {
    let mut payload = part("text/plain", Some("Ym9keQ"), vec![]);
    payload.headers = vec![
        Header { name: "From".into(), value: "a@x".into() },
        Header { name: "SUBJECT".into(), value: "Hi there".into() },
    ];
    let d = message_to_index_doc(&message("m1", Some(payload)));
    assert_eq!(d.message_id, "m1");
    assert_eq!(d.thread_id, "t1");
    assert_eq!(d.subject, "Hi there");
    assert_eq!(d.body, "body");
    assert_eq!(d.headers.len(), 2);
    assert_eq!(d.label_ids, vec!["INBOX".to_string()]);
    let empty = message_to_index_doc(&message("m2", None));
    assert_eq!(empty.subject, "");
    assert_eq!(empty.body, "");
}

fn params(html: Option<&str>) -> ComposeParams {
    ComposeParams {
        to: vec!["a@x".into(), "b@x".into()],
        cc: vec![],
        bcc: vec!["c@x".into()],
        subject: "Hello".into(),
        body: Some("plain".into()),
        body_html: html.map(|h| h.into()),
        body_file: None,
        reply_to_message_id: Some("orig".into()),
        quote: false,
        track: false,
        track_split: false,
    }
}

#[test]
fn compose_and_encode_messages() {
    let text = compose_message_text(&params(None), "");
    assert_eq!(
        text,
        "To: a@x, b@x\r\nBcc: c@x\r\nSubject: Hello\r\nIn-Reply-To: <orig>\r\nReferences: <orig>\r\nContent-Type: text/plain; charset=\"UTF-8\"\r\n\r\nplain"
    );
    let html = compose_message_text(&params(Some("<b>x</b>")), "BND");
    assert!(html.contains("Content-Type: multipart/alternative; boundary=\"BND\"\r\n"));
    assert!(html.ends_with("\r\n--BND\r\nContent-Type: text/html; charset=\"UTF-8\"\r\n\r\n<b>x</b>\r\n--BND--"));
    let raw = raw_message_with_boundary(&params(None), "").unwrap();
    assert!(!raw.contains('=') && !raw.contains('+') && !raw.contains('/'));
    assert_eq!(build_raw_message(&params(None)), Some(raw));
    let fresh = build_raw_message(&params(Some("<b>x</b>"))).unwrap();
    assert!(!fresh.is_empty());
}

#[test]
fn history_ids_in_order_up_to_limit() {
    let records = vec![
        HistoryRecord {
            id: "1".into(),
            messages: vec![message("a", None), message("b", None)],
            messages_added: vec![],
            messages_deleted: vec![],
            labels_added: vec![],
            labels_removed: vec![],
        },
        HistoryRecord {
            id: "2".into(),
            messages: vec![message("c", None)],
            messages_added: vec![],
            messages_deleted: vec![],
            labels_added: vec![],
            labels_removed: vec![],
        },
    ];
    assert_eq!(history_message_ids(&records, 10), vec!["a".to_string(), "b".into(), "c".into()]);
    assert_eq!(history_message_ids(&records, 2), vec!["a".to_string(), "b".into()]);
    assert_eq!(first_history_id(&vec![message("z", None)]), Some("h-z".to_string()));
    assert_eq!(first_history_id(&vec![]), None);
}

fn iv(a: &str, b: &str) -> (String, String) {
    (a.to_string(), b.to_string())
}

#[test]
fn free_slots_between_busy_intervals() {
    let busy = vec![iv("10", "12"), iv("09", "10"), iv("11", "13"), iv("15", "16")];
    assert_eq!(sort_intervals(&busy), vec![iv("09", "10"), iv("10", "12"), iv("11", "13"), iv("15", "16")]);
    assert_eq!(
        merge_intervals(&sort_intervals(&busy)),
        vec![iv("09", "13"), iv("15", "16")]
    );
    assert_eq!(free_slots(&busy, "08", "18"), vec![iv("08", "09"), iv("13", "15"), iv("16", "18")]);
    assert_eq!(free_slots(&vec![], "08", "18"), vec![iv("08", "18")]);
    assert_eq!(free_slots(&vec![iv("07", "19")], "08", "18"), Vec::<(String, String)>::new());
}

fn attendee(email: &str, is_self: bool) -> EventAttendee {
    EventAttendee {
        id: None,
        email: Some(email.into()),
        display_name: None,
        organizer: false,
        is_self,
        resource: false,
        optional: false,
        response_status: Some("needsAction".into()),
        comment: None,
        additional_guests: None,
    }
}

#[test]
fn calendar_responses_and_urls() {
    let out = respond_attendees(&vec![attendee("a@x", false), attendee("me@x", true)], "accepted").unwrap();
    assert_eq!(out[0].response_status.as_deref(), Some("needsAction"));
    assert_eq!(out[1].response_status.as_deref(), Some("accepted"));
    match respond_attendees(&vec![], "accepted") {
        Err(Error::Other(m)) => assert_eq!(m, "no attendees on event to update response status"),
        other => panic!("unexpected: {other:?}"),
    }
    assert_eq!(resolve_calendar_id("primary", ""), "primary");
    assert_eq!(resolve_calendar_id("primary", "team@x"), "team@x");
    assert_eq!(
        events_url("me@x.com", Some("2024-01-01T00:00:00Z"), None, Some(50), Some("pt")),
        "https://www.googleapis.com/calendar/v3/calendars/me%40x.com/events?timeMin=2024-01-01T00%3A00%3A00Z&maxResults=50&pageToken=pt&singleEvents=true&orderBy=startTime"
    );
    assert_eq!(
        events_url("primary", None, None, None, None),
        "https://www.googleapis.com/calendar/v3/calendars/primary/events?singleEvents=true&orderBy=startTime"
    );
    assert_eq!(
        search_url("primary", "team sync", None, Some("2024"), None),
        "https://www.googleapis.com/calendar/v3/calendars/primary/events?q=team+sync&timeMax=2024&singleEvents=true&orderBy=startTime"
    );
}

fn file(id: Option<&str>, trashed: bool) -> IndexableFile {
    IndexableFile {
        id: id.map(|s| s.into()),
        name: Some("report".into()),
        mime_type: Some("text/plain".into()),
        trashed,
        modified_time: Some("2024".into()),
        owners: vec![FileUser {
            display_name: None,
            kind: None,
            me: true,
            permission_id: None,
            email_address: Some("o@x".into()),
            photo_link: None,
        }],
        parents: vec!["root".into()],
        web_view_link: None,
        size: Some("1234".into()),
    }
}

#[test]
fn drive_index_documents() {
    let d = file_to_index_doc(&file(Some("f1"), false)).unwrap();
    assert_eq!(d.file_id, "f1");
    assert_eq!(d.owners, vec!["o@x".to_string()]);
    assert_eq!(d.size, Some(1234));
    assert!(file_to_index_doc(&file(Some("f1"), true)).is_none());
    assert!(file_to_index_doc(&file(None, false)).is_none());
    let mut bad_size = file(Some("f2"), false);
    bad_size.size = Some("big".into());
    assert_eq!(file_to_index_doc(&bad_size).unwrap().size, None);
    let changes = vec![
        IndexableChange { removed: false, file: Some(file(Some("a"), false)) },
        IndexableChange { removed: true, file: Some(file(Some("b"), false)) },
        IndexableChange { removed: false, file: None },
        IndexableChange { removed: false, file: Some(file(Some("c"), true)) },
        IndexableChange { removed: false, file: Some(file(Some("d"), false)) },
    ];
    let docs = changes_to_index_docs(&changes);
    let ids: Vec<String> = docs.iter().map(|d| d.file_id.clone()).collect();
    assert_eq!(ids, vec!["a".to_string(), "d".into()]);
    assert_eq!(changes_cursor(Some("next".into()), Some("start".into())), Some("start".to_string()));
    assert_eq!(changes_cursor(Some("next".into()), None), Some("next".to_string()));
}

#[test]
fn drive_uploads_and_urls() {
    let body = multipart_related_body("B", "{}", "text/plain", b"data");
    assert_eq!(
        body,
        b"--B\r\nContent-Type: application/json; charset=UTF-8\r\n\r\n{}\r\n--B\r\nContent-Type: text/plain\r\n\r\ndata\r\n--B--".to_vec()
    );
    assert_eq!(multipart_content_type("B"), "multipart/related; boundary=B");
    let (boundary, fresh) = new_upload_body("{}", "text/plain", b"data");
    assert_eq!(fresh, multipart_related_body(&boundary, "{}", "text/plain", b"data"));
    assert_eq!(
        list_url(Some("p1"), Some(10), None, None),
        "https://www.googleapis.com/drive/v3/files?fields=nextPageToken%2CincompleteSearch%2Cfiles%28id%2Cname%2CmimeType%2Cdescription%2Cstarred%2Ctrashed%2Cparents%2CwebViewLink%2CwebContentLink%2CcreatedTime%2CmodifiedTime%2Csize%2Cowners%2Cshared%2CdriveId%29&q=%27p1%27+in+parents+and+trashed+%3D+false&pageSize=10"
    );
    assert!(list_url(None, None, Some("tok"), Some("name")).ends_with("&q=trashed+%3D+false&pageToken=tok&orderBy=name"));
    assert!(drive_search_url("name contains 'x'", None, None)
        .starts_with("https://www.googleapis.com/drive/v3/files?q=name+contains+%27x%27&fields="));
}

fn item(text: &str, checked: bool, children: Vec<ListItem>) -> ListItem {
    ListItem { text: Some(TextContent { text: Some(text.into()) }), checked, children_list_items: children }
}

fn note(name: &str, update: Option<&str>, body: Option<NoteBody>) -> Note {
    Note {
        name: Some(name.into()),
        create_time: None,
        update_time: update.map(|u| u.into()),
        trash_time: None,
        trashed: false,
        title: Some("T".into()),
        body,
        attachments: vec![],
        permissions: vec![],
    }
}

#[test]
fn keep_bodies_and_batches() {
    let list = NoteBody {
        text: None,
        list: Some(ListContent {
            list_items: vec![item("milk", true, vec![item("oat", false, vec![])]), item("eggs", false, vec![])],
        }),
    };
    let n = note("notes/1", Some("2024-02"), Some(list));
    assert_eq!(extract_note_body(&n), "[x] milk\n  [ ] oat\n[ ] eggs");
    let text = NoteBody { text: Some(TextContent { text: Some("hello".into()) }), list: None };
    let t = note("notes/2", Some("2024-05"), Some(text));
    assert_eq!(extract_note_body(&t), "hello");
    let d = note_to_index_doc(&t);
    assert_eq!(d.note_id, "notes/2");
    assert_eq!(d.body, "hello");
    let older = note("notes/3", Some("2023-01"), None);
    let (docs, cursor) = keep_index_batch(&vec![n, t, older], Some("2024-01"), 10);
    assert_eq!(docs.len(), 2);
    assert_eq!(cursor, Some("2024-05".to_string()));
    assert!(keep_paging_done(5, 5, true));
    assert!(keep_paging_done(1, 5, false));
    assert!(!keep_paging_done(1, 5, true));
    assert_eq!(
        search_page_url("title:x", Some("p2")),
        "https://keep.googleapis.com/v1/notes?pageSize=100&filter=title%3Ax&pageToken=p2"
    );
}

#[test]
fn keep_cursor_excludes_indexed_notes() {
    let notes = vec![
        note("notes/1", Some("2024-03"), None),
        note("notes/2", Some("2024-07"), None),
        note("notes/3", None, None),
    ];
    let (first, cursor) = keep_index_batch(&notes, None, 10);
    assert_eq!(first.len(), 3);
    assert_eq!(cursor.as_deref(), Some("2024-07"));
    let (again, next) = keep_index_batch(&notes, cursor.as_deref(), 10);
    assert!(again.is_empty());
    assert_eq!(next, None);
}

#[test]
fn free_slots_never_overlap_busy_time() {
    let busy = vec![iv("10", "12"), iv("14", "15"), iv("11", "13"), iv("16", "17"), iv("16", "16")];
    let slots = free_slots(&busy, "09", "18");
    assert_eq!(slots, vec![iv("09", "10"), iv("13", "14"), iv("15", "16"), iv("17", "18")]);
    for (fs, fe) in &slots {
        for (bs, be) in &busy {
            assert!(!(fs < be && bs < fe), "{fs}-{fe} overlaps {bs}-{be}");
        }
    }
}

#[test]
fn raw_message_decodes_back_to_the_composed_text() {
    let p = params(None);
    let raw = build_raw_message(&p).unwrap();
    assert_eq!(decode_base64url(&raw), compose_message_text(&p, ""));
    let with_boundary = raw_message_with_boundary(&p, "B").unwrap();
    assert_eq!(decode_base64url(&with_boundary), compose_message_text(&p, "B"));
    let html = params(Some("<b>hi</b>"));
    let raw_html = build_raw_message(&html).unwrap();
    assert!(decode_base64url(&raw_html).contains("<b>hi</b>"));
}

#[test]
fn free_slots_are_ordered_within_bounds_and_maximal() {
    let busy = vec![
        ("2024-01-01T12:00:00Z".to_string(), "2024-01-01T13:00:00Z".to_string()),
        ("2024-01-01T09:30:00Z".to_string(), "2024-01-01T10:00:00Z".to_string()),
        ("2024-01-01T12:30:00Z".to_string(), "2024-01-01T14:00:00Z".to_string()),
    ];
    let slots = free_slots(&busy, "2024-01-01T09:00:00Z", "2024-01-01T17:00:00Z");
    assert_eq!(
        slots,
        vec![
            ("2024-01-01T09:00:00Z".to_string(), "2024-01-01T09:30:00Z".to_string()),
            ("2024-01-01T10:00:00Z".to_string(), "2024-01-01T12:00:00Z".to_string()),
            ("2024-01-01T14:00:00Z".to_string(), "2024-01-01T17:00:00Z".to_string()),
        ]
    );
    for w in slots.windows(2) {
        assert!(w[0].1 <= w[1].0);
    }
}
