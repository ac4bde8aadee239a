use cog_core::services::docs::extract_structural_element;
use cog_core::services::docs::{
    docs_cursor, docs_files_query, docs_index_doc, docs_list_url, extract_document_text,
    plan_sed, replace_all, write_index, DocContent, DocElement, DocsFileEntry, SedEdit,
    DOCS_INDEX_NAMESPACE,
};
use cog_core::services::slides::{
    created_presentation_id, markdown_target, speaker_notes_target, SlideElementInfo, SlideInfo,
};
use cog_core::Error;

fn para(text: &str) -> DocElement {
    DocElement {
        text_runs: vec![Some(text.to_string())],
        table_content: vec![],
        toc_content: vec![],
    }
}

fn doc(body: Option<Vec<DocElement>>) -> DocContent {
    DocContent { title: Some("Test".into()), revision_id: None, body }
}

#[test]
fn extract_text_from_empty_document() {
    assert_eq!(extract_document_text(&doc(Some(vec![]))), "");
}

#[test]
fn extract_text_from_paragraph() {
    assert_eq!(extract_document_text(&doc(Some(vec![para("Hello, world!")]))), "Hello, world!");
}

#[test]
fn extract_text_skips_non_text_elements() {
    // a section break carries no paragraph, table or table of contents
    let section_break = DocElement { text_runs: vec![], table_content: vec![], toc_content: vec![] };
    let d = doc(Some(vec![section_break, para("text\n")]));
    assert_eq!(extract_document_text(&d), "text\n");
}

#[test]
fn extract_text_no_body() {
    assert_eq!(extract_document_text(&doc(None)), "");
}

#[test]
fn extract_text_multiple_paragraphs() {
    let d = doc(Some(vec![para("First paragraph\n"), para("Second paragraph\n")]));
    assert_eq!(extract_document_text(&d), "First paragraph\nSecond paragraph\n");
}

#[test]
fn extract_text_descends_into_tables_and_toc() {
    let cell = DocElement {
        text_runs: vec![Some("A".into()), None, Some("B".into())],
        table_content: vec![],
        toc_content: vec![],
    };
    let table = DocElement {
        text_runs: vec![Some("[".into())],
        table_content: vec![cell, para("C")],
        toc_content: vec![para("toc")],
    };
    let d = doc(Some(vec![table, para("]")]));
    assert_eq!(extract_document_text(&d), "[ABCtoc]");
}

#[test]
fn index_namespace_is_docs() {
    assert_eq!(DOCS_INDEX_NAMESPACE, "docs");
}

#[test]
fn replace_all_matches_std() {
    let cases = [
        ("hello world", "o", "0"),
        ("aaa", "aa", "b"),
        ("abc", "", "-"),
        ("", "", "x"),
        ("", "a", "x"),
        ("no match", "zz", "y"),
        ("héllo héllo", "é", "e"),
        ("abab", "ab", "ab"),
    ];
    for (s, p, r) in cases {
        assert_eq!(replace_all(s, p, r), s.replace(p, r), "{s:?} {p:?} {r:?}");
    }
}

#[test]
fn sed_plans() {
    assert!(matches!(plan_sed("hello", "zz", "y"), SedEdit::Unchanged));
    assert!(matches!(plan_sed("hello", "l", "l"), SedEdit::Unchanged));
    match plan_sed("hello\n", "l", "L") {
        SedEdit::Rewrite { delete_end, text } => {
            assert_eq!(delete_end, Some(7));
            assert_eq!(text, "heLLo\n");
        }
        other => panic!("unexpected: {other:?}"),
    }
    match plan_sed("é", "é", "e") {
        SedEdit::Rewrite { delete_end, text } => {
            assert_eq!(delete_end, Some(3));
            assert_eq!(text, "e");
        }
        other => panic!("unexpected: {other:?}"),
    }
    match plan_sed("", "", "x") {
        SedEdit::Rewrite { delete_end, text } => {
            assert_eq!(delete_end, None);
            assert_eq!(text, "x");
        }
        other => panic!("unexpected: {other:?}"),
    }
    assert_eq!(write_index(None), 1);
    assert_eq!(write_index(Some(42)), 42);
}

#[test]
fn docs_listing_and_cursor() {
    assert_eq!(docs_files_query(None), "mimeType='application/vnd.google-apps.document'");
    assert_eq!(
        docs_files_query(Some("2024-01-01T00:00:00Z")),
        "mimeType='application/vnd.google-apps.document' and modifiedTime > '2024-01-01T00:00:00Z'"
    );
    assert_eq!(
        docs_list_url(None, 10),
        "https://www.googleapis.com/drive/v3/files?q=mimeType%3D%27application%2Fvnd.google-apps.document%27&pageSize=10&orderBy=modifiedTime%20desc&fields=files(id,name,modifiedTime),nextPageToken"
    );
    let files = vec![
        DocsFileEntry { id: Some("a".into()), name: None, modified_time: Some("2024-02".into()) },
        DocsFileEntry { id: None, name: None, modified_time: Some("2099-01".into()) },
        DocsFileEntry { id: Some("b".into()), name: None, modified_time: Some("2024-05".into()) },
        DocsFileEntry { id: Some("c".into()), name: None, modified_time: Some("2024-03".into()) },
        DocsFileEntry { id: Some("d".into()), name: None, modified_time: None },
    ];
    assert_eq!(docs_cursor(&files), Some("2024-05".to_string()));
    assert_eq!(docs_cursor(&vec![]), None);
    let entry = DocsFileEntry { id: Some("id1".into()), name: Some("File".into()), modified_time: Some("t".into()) };
    let untitled = DocContent { title: None, revision_id: Some("r9".into()), body: Some(vec![para("x")]) };
    let d = docs_index_doc("id1", &entry, &untitled);
    assert_eq!(d.document_id, "id1");
    assert_eq!(d.title, "File");
    assert_eq!(d.body_text, "x");
    assert_eq!(d.modified_time.as_deref(), Some("t"));
    assert_eq!(d.revision_id.as_deref(), Some("r9"));
    let titled = doc(None);
    assert_eq!(docs_index_doc("id1", &entry, &titled).title, "Test");
    let bare = DocsFileEntry { id: Some("id2".into()), name: None, modified_time: None };
    let nothing = DocContent { title: None, revision_id: None, body: None };
    assert_eq!(docs_index_doc("id2", &bare, &nothing).title, "");
}

fn element(id: Option<&str>, placeholder: Option<&str>) -> SlideElementInfo {
    SlideElementInfo {
        object_id: id.map(|s| s.to_string()),
        placeholder_type: placeholder.map(|s| s.to_string()),
    }
}

#[test]
fn markdown_goes_into_body_placeholder() {
    let slide = SlideInfo {
        object_id: Some("slide1".into()),
        elements: vec![
            element(Some("title"), Some("TITLE")),
            element(None, Some("BODY")),
            element(Some("sub"), Some("SUBTITLE")),
            element(Some("body"), Some("BODY")),
        ],
        speaker_notes_object_id: None,
    };
    assert_eq!(markdown_target(&vec![slide.clone()]), Some("sub".to_string()));
    let plain = SlideInfo {
        object_id: Some("slide1".into()),
        elements: vec![element(Some("title"), Some("TITLE")), element(Some("pic"), None)],
        speaker_notes_object_id: None,
    };
    assert_eq!(markdown_target(&vec![plain]), Some("slide1".to_string()));
    let anonymous = SlideInfo { object_id: None, elements: vec![], speaker_notes_object_id: None };
    assert_eq!(markdown_target(&vec![anonymous]), None);
    assert_eq!(markdown_target(&vec![]), None);
}

#[test]
fn speaker_notes_lookup() {
    let slides = vec![
        SlideInfo { object_id: Some("s1".into()), elements: vec![], speaker_notes_object_id: Some("n1".into()) },
        SlideInfo { object_id: Some("s2".into()), elements: vec![], speaker_notes_object_id: None },
        SlideInfo { object_id: Some("s2".into()), elements: vec![], speaker_notes_object_id: Some("n2".into()) },
    ];
    assert_eq!(speaker_notes_target(&slides, "s1").unwrap(), "n1");
    match speaker_notes_target(&slides, "s2") {
        Err(Error::Other(m)) => assert_eq!(m, "could not find speaker notes for slide s2"),
        other => panic!("unexpected: {other:?}"),
    }
    match speaker_notes_target(&slides, "s9") {
        Err(Error::Other(m)) => assert_eq!(m, "could not find speaker notes for slide s9"),
        other => panic!("unexpected: {other:?}"),
    }
    assert_eq!(created_presentation_id(Some("p1".into())).unwrap(), "p1");
    match created_presentation_id(None) {
        Err(Error::Other(m)) => assert_eq!(m, "no presentation_id returned"),
        other => panic!("unexpected: {other:?}"),
    }
}

#[test]
fn structural_element_text_appends_after_prior_output() {
    let cell = DocElement { text_runs: vec![Some("cell".into())], table_content: vec![], toc_content: vec![] };
    let toc = DocElement { text_runs: vec![Some("toc".into())], table_content: vec![], toc_content: vec![] };
    let e = DocElement {
        text_runs: vec![Some("Hello ".into()), None, Some("world".into())],
        table_content: vec![cell],
        toc_content: vec![toc],
    };
    let mut out = String::from(">> ");
    extract_structural_element(&e, &mut out);
    assert_eq!(out, ">> Hello worldcelltoc");
}
