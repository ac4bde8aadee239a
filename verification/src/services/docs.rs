//! Google Docs: plain-text extraction, the literal "sed" rewrite plan, and
//! the pieces of incremental indexing (listing query, cursor, index document).

use vstd::prelude::*;
use vstd::string::StrSliceExecFns;
use vstd::string::StringExecFns;
use vstd::string::StringSliceAdditionalSpecFns;
use crate::text::{decimal, decimal_string, form_encode, lemma_le_trans, lemma_lex_irreflexive, lemma_lt_le, lex_le, lex_lt, str_eq, str_lt, urlencoding};
use crate::text::{clone_opt_string, string_or_empty};
use crate::types::docs::TabProperties;

verus! {

/// Index namespace of Google Docs documents.
pub const DOCS_INDEX_NAMESPACE: &'static str = "docs";

/// Document yielded by the Docs indexing implementation.
#[derive(Debug, Clone)]
pub struct DocsIndexDocument {
    pub document_id: String,
    pub title: String,
    pub body_text: String,
    pub modified_time: Option<String>,
    pub revision_id: Option<String>,
}

/// A structural element of a document body, reduced to what text extraction
/// reads.
#[derive(Debug)]
pub struct DocElement {
    /// The `content` of each paragraph element's text run, in order; `None`
    /// for an element without a text run or a run without content.
    pub text_runs: Vec<Option<String>>,
    /// The structural elements found in the table's cells, row by row and
    /// cell by cell.
    pub table_content: Vec<DocElement>,
    /// The structural elements of the table of contents.
    pub toc_content: Vec<DocElement>,
}

/// What indexing and text extraction read of a document.
#[derive(Debug)]
pub struct DocContent {
    pub title: Option<String>,
    pub revision_id: Option<String>,
    /// The body's structural elements; `None` when the document has no body.
    pub body: Option<Vec<DocElement>>,
}

/// Concatenation of the text-run contents, absent ones contributing nothing.
pub open spec fn runs_text(runs: Seq<Option<String>>) -> Seq<char>
    decreases runs.len(),
{
    if runs.len() == 0 {
        Seq::empty()
    } else {
        runs_text(runs.drop_last()) + match runs.last() {
            Some(c) => c@,
            None => Seq::<char>::empty(),
        }
    }
}

/// The text of a structural element: its paragraph's runs, then the text of
/// its table cells, then that of its table of contents.
pub open spec fn element_text(e: DocElement) -> Seq<char>
    decreases e,
{
    proof {
        assert(decreases_to!(e => e.table_content));
        assert(decreases_to!(e.table_content => e.table_content@));
        assert(decreases_to!(e => e.toc_content));
        assert(decreases_to!(e.toc_content => e.toc_content@));
    }
    runs_text(e.text_runs@) + elements_text(e.table_content@) + elements_text(e.toc_content@)
}

/// Concatenated text of a sequence of structural elements.
pub open spec fn elements_text(es: Seq<DocElement>) -> Seq<char>
    decreases es,
{
    if es.len() == 0 {
        Seq::empty()
    } else {
        proof {
            assert(decreases_to!(es => es[es.len() - 1]));
            assert(decreases_to!(es => es.subrange(0, es.len() - 1)));
        }
        elements_text(es.subrange(0, es.len() - 1)) + element_text(es[es.len() - 1])
    }
}

/// The plain text of a document: the text of its body, empty without one.
pub open spec fn document_text(doc: DocContent) -> Seq<char> {
    match doc.body {
        Some(b) => elements_text(b@),
        None => Seq::empty(),
    }
}

fn append_runs_text(runs: &Vec<Option<String>>, out: &mut String)
    ensures
        final(out)@ == old(out)@ + runs_text(runs@),
{
    let ghost start = out@;
    let mut i: usize = 0;
    while i < runs.len()
        invariant
            i <= runs@.len(),
            out@ == start + runs_text(runs@.take(i as int)),
        decreases runs.len() - i,
    {
        assert(runs@.take(i + 1).drop_last() =~= runs@.take(i as int));
        let ghost before = out@;
        match &runs[i] {
            Some(content) => out.append(content.as_str()),
            None => {},
        }
        assert(out@ =~= start + runs_text(runs@.take(i + 1)));
        i = i + 1;
    }
    assert(runs@.take(runs@.len() as int) =~= runs@);
}

/// Appends the text of one structural element to `out`: its paragraph's
/// text runs in order, then the text of its table cells (row by row, cell by
/// cell, recursively), then that of its table of contents (recursively);
/// what `out` held before stays as its prefix.
pub fn extract_structural_element(e: &DocElement, out: &mut String)
    ensures
        final(out)@ == old(out)@ + element_text(*e),
    decreases e,
{
    let ghost start = out@;
    append_runs_text(&e.text_runs, out);
    let ghost after_runs = out@;
    let mut i: usize = 0;
    while i < e.table_content.len()
        invariant
            i <= e.table_content@.len(),
            out@ == after_runs + elements_text(e.table_content@.take(i as int)),
        decreases e.table_content.len() - i,
    {
        let ghost es = e.table_content@;
        let ghost pre = es.take(i + 1);
        assert(pre.subrange(0, pre.len() - 1) =~= es.take(i as int));
        assert(pre[pre.len() - 1] == es[i as int]);
        proof {
            assert(decreases_to!(*e => e.table_content));
            assert(decreases_to!(e.table_content => e.table_content@));
            assert(decreases_to!(e.table_content@ => e.table_content@[i as int]));
        }
        extract_structural_element(&e.table_content[i], out);
        assert(out@ =~= after_runs + elements_text(es.take(i + 1)));
        i = i + 1;
    }
    assert(e.table_content@.take(e.table_content@.len() as int) =~= e.table_content@);
    let ghost after_table = out@;
    let mut j: usize = 0;
    while j < e.toc_content.len()
        invariant
            j <= e.toc_content@.len(),
            out@ == after_table + elements_text(e.toc_content@.take(j as int)),
        decreases e.toc_content.len() - j,
    {
        let ghost es = e.toc_content@;
        let ghost pre = es.take(j + 1);
        assert(pre.subrange(0, pre.len() - 1) =~= es.take(j as int));
        assert(pre[pre.len() - 1] == es[j as int]);
        proof {
            assert(decreases_to!(*e => e.toc_content));
            assert(decreases_to!(e.toc_content => e.toc_content@));
            assert(decreases_to!(e.toc_content@ => e.toc_content@[j as int]));
        }
        extract_structural_element(&e.toc_content[j], out);
        assert(out@ =~= after_table + elements_text(es.take(j + 1)));
        j = j + 1;
    }
    assert(e.toc_content@.take(e.toc_content@.len() as int) =~= e.toc_content@);
    assert(out@ =~= start + element_text(*e));
}

fn append_elements_text(es: &Vec<DocElement>, out: &mut String)
    ensures
        final(out)@ == old(out)@ + elements_text(es@),
{
    let ghost start = out@;
    let mut i: usize = 0;
    while i < es.len()
        invariant
            i <= es@.len(),
            out@ == start + elements_text(es@.take(i as int)),
        decreases es.len() - i,
    {
        let ghost pre = es@.take(i + 1);
        assert(pre.subrange(0, pre.len() - 1) =~= es@.take(i as int));
        assert(pre[pre.len() - 1] == es@[i as int]);
        extract_structural_element(&es[i], out);
        assert(out@ =~= start + elements_text(es@.take(i + 1)));
        i = i + 1;
    }
    assert(es@.take(es@.len() as int) =~= es@);
}

/// Extracts the plain text of a document by concatenating every text run of
/// its body, descending into tables and tables of contents.
pub fn extract_document_text(doc: &DocContent) -> (r: String)
    ensures
        r@ == document_text(*doc),
{
    let mut text = String::new();
    match &doc.body {
        Some(body) => {
            append_elements_text(body, &mut text);
            assert(text@ =~= elements_text(body@));
        },
        None => {},
    }
    text
}

/// `s` with every match of `p` replaced by `r`, as `str::replace` does:
/// matches are found left to right and do not overlap; an empty pattern
/// matches before every character and at the end.
pub open spec fn replaced(s: Seq<char>, p: Seq<char>, r: Seq<char>) -> Seq<char>
    decreases s.len(),
{
    if s.len() == 0 {
        if p.len() == 0 {
            r
        } else {
            Seq::empty()
        }
    } else if p.len() == 0 {
        r + seq![s[0]] + replaced(s.drop_first(), p, r)
    } else if p.len() <= s.len() && s.take(p.len() as int) == p {
        r + replaced(s.skip(p.len() as int), p, r)
    } else {
        seq![s[0]] + replaced(s.drop_first(), p, r)
    }
}

/// Replaces every match of `pattern` in `s` by `replacement` (see `replaced`).
pub fn replace_all(s: &str, pattern: &str, replacement: &str) -> (out: String)
    ensures
        out@ == replaced(s@, pattern@, replacement@),
{
    let n = s.unicode_len();
    let m = pattern.unicode_len();
    let ghost p = pattern@;
    let ghost r = replacement@;
    let mut out = String::new();
    let mut i: usize = 0;
    assert(s@.skip(0) =~= s@);
    while i < n
        invariant
            i <= n,
            n == s@.len(),
            m == p.len(),
            p == pattern@,
            r == replacement@,
            out@ + replaced(s@.skip(i as int), p, r) == replaced(s@, p, r),
        decreases n - i,
    {
        let ghost t = s@.skip(i as int);
        let ghost before = out@;
        if m > 0 && m <= n - i && str_eq(s.substring_char(i, i + m), pattern) {
            assert(t.take(m as int) =~= s@.subrange(i as int, i + m));
            assert(t.skip(m as int) =~= s@.skip(i + m));
            out.append(replacement);
            assert(before + replaced(t, p, r) =~= out@ + replaced(s@.skip(i + m), p, r));
            i = i + m;
        } else {
            if m > 0 && m <= n - i {
                assert(t.take(m as int) =~= s@.subrange(i as int, i + m));
            }
            assert(t.drop_first() =~= s@.skip(i + 1));
            assert(t[0] == s@[i as int]);
            assert(s@.subrange(i as int, i + 1) =~= seq![t[0]]);
            if m == 0 {
                out.append(replacement);
            }
            out.append(s.substring_char(i, i + 1));
            assert(before + replaced(t, p, r) =~= out@ + replaced(s@.skip(i + 1), p, r));
            i = i + 1;
        }
    }
    assert(s@.skip(n as int) =~= Seq::<char>::empty());
    if m == 0 {
        out.append(replacement);
    }
    assert(out@ =~= replaced(s@, p, r));
    out
}

/// What a literal "sed" over a document's text calls for.
#[derive(Debug)]
pub enum SedEdit {
    /// The replacement leaves the text as it was: nothing is sent.
    Unchanged,
    /// Delete the body text from index 1 up to `delete_end` (absent for an
    /// empty body), then insert `text` at index 1.
    Rewrite { delete_end: Option<i64>, text: String },
}

/// Plans a "sed" over a document whose current text is `original`: the text
/// with every `pattern` replaced by `replacement`, and, when it differs, the
/// deletion of the old body (`[1, byte length + 1)`, Docs indices being
/// 1-based with the trailing newline last) before the new text is inserted.
pub fn plan_sed(original: &str, pattern: &str, replacement: &str) -> (r: SedEdit)
    requires
        original.spec_bytes().len() < i64::MAX,
    ensures
        (r is Unchanged) <==> replaced(original@, pattern@, replacement@) == original@,
        r matches SedEdit::Rewrite { delete_end, text } ==> (text@ == replaced(
            original@,
            pattern@,
            replacement@,
        ) && (original.spec_bytes().len() > 0 ==> delete_end == Some(
            (original.spec_bytes().len() + 1) as i64,
        )) && (original.spec_bytes().len() == 0 ==> delete_end.is_none())),
{
    let text = replace_all(original, pattern, replacement);
    if str_eq(text.as_str(), original) {
        return SedEdit::Unchanged;
    }
    let body_len = original.as_bytes().len();
    let delete_end = if body_len > 0 {
        Some(body_len as i64 + 1)
    } else {
        None
    };
    SedEdit::Rewrite { delete_end, text }
}

/// Replacing a pattern by itself leaves any text as it was, so a "sed" whose
/// replacement equals its pattern never rewrites the document.
pub proof fn lemma_replace_by_itself(s: Seq<char>, p: Seq<char>)
    ensures
        replaced(s, p, p) == s,
    decreases s.len(),
{
    if s.len() == 0 {
    } else if p.len() == 0 {
        lemma_replace_by_itself(s.drop_first(), p);
        assert(p + seq![s[0]] + s.drop_first() =~= s);
    } else if p.len() <= s.len() && s.take(p.len() as int) == p {
        lemma_replace_by_itself(s.skip(p.len() as int), p);
        assert(p + s.skip(p.len() as int) =~= s);
    } else {
        lemma_replace_by_itself(s.drop_first(), p);
        assert(seq![s[0]] + s.drop_first() =~= s);
    }
}

/// The insertion index of a write: the one given, else 1 (the first valid
/// insertion point of a document body).
pub fn write_index(index: Option<i64>) -> (r: i64)
    ensures
        r == match index {
            Some(i) => i,
            None => 1,
        },
{
    match index {
        Some(i) => i,
        None => 1,
    }
}

/// Listing query for Google Docs files.
pub const DOCS_MIME_FILTER: &'static str = "mimeType='application/vnd.google-apps.document'";

/// The view of an optional string slice.
pub open spec fn opt_str_view(o: Option<&str>) -> Option<Seq<char>> {
    match o {
        Some(c) => Some(c@),
        None => None,
    }
}

/// The Drive query selecting Google Docs, modified after `since` when given.
pub open spec fn docs_query(since: Option<Seq<char>>) -> Seq<char> {
    match since {
        Some(c) => DOCS_MIME_FILTER@ + " and modifiedTime > '"@ + c + "'"@,
        None => DOCS_MIME_FILTER@,
    }
}

/// Builds the Drive query selecting Google Docs (see `docs_query`).
pub fn docs_files_query(since: Option<&str>) -> (r: String)
    ensures
        r@ == docs_query(opt_str_view(since)),
{
    let mut q = String::from_str(DOCS_MIME_FILTER);
    match since {
        Some(cursor) => {
            q.append(" and modifiedTime > '");
            q.append(cursor);
            q.append("'");
        },
        None => {},
    }
    q
}

/// The Drive listing URL of the indexing pass: the encoded query, the page
/// size, newest first, with the fields indexing reads.
pub open spec fn docs_files_url(since: Option<Seq<char>>, limit: nat) -> Seq<char> {
    "https://www.googleapis.com/drive/v3/files?q="@ + form_encode(
        vstd::utf8::encode_utf8(docs_query(since)),
    ) + "&pageSize="@ + decimal(limit)
        + "&orderBy=modifiedTime%20desc&fields=files(id,name,modifiedTime),nextPageToken"@
}

/// Builds the Drive listing URL of the indexing pass (see `docs_files_url`).
pub fn docs_list_url(since: Option<&str>, limit: usize) -> (r: String)
    ensures
        r@ == docs_files_url(opt_str_view(since), limit as nat),
{
    let query = docs_files_query(since);
    let encoded = urlencoding(query.as_str());
    let mut url = String::from_str("https://www.googleapis.com/drive/v3/files?q=");
    url.append(encoded.as_str());
    url.append("&pageSize=");
    let n = decimal_string(limit as u64);
    url.append(n.as_str());
    url.append("&orderBy=modifiedTime%20desc&fields=files(id,name,modifiedTime),nextPageToken");
    url
}

/// One file of the Drive listing.
#[derive(Debug, Clone)]
pub struct DocsFileEntry {
    pub id: Option<String>,
    pub name: Option<String>,
    pub modified_time: Option<String>,
}

/// The latest modification time among the listed files that have an id
/// (the new cursor), or `None` when none has one.
pub open spec fn latest_modified(files: Seq<DocsFileEntry>) -> Option<Seq<char>>
    decreases files.len(),
{
    if files.len() == 0 {
        None
    } else {
        let prev = latest_modified(files.drop_last());
        let f = files.last();
        if f.id.is_none() {
            prev
        } else {
            match f.modified_time {
                Some(m) => match prev {
                    Some(p) => if lex_lt(p, m@) {
                        Some(m@)
                    } else {
                        Some(p)
                    },
                    None => Some(m@),
                },
                None => prev,
            }
        }
    }
}

/// The new cursor bounds the modification time of every listed file that
/// has an id, so a listing modified after it leaves them all out.
pub proof fn lemma_latest_modified_bounds(files: Seq<DocsFileEntry>)
    ensures
        forall|i: int|
            0 <= i < files.len() && (#[trigger] files[i]).id is Some && files[i].modified_time is Some
                ==> latest_modified(files) is Some && lex_le(
                files[i].modified_time.unwrap()@,
                latest_modified(files).unwrap(),
            ),
    decreases files.len(),
{
    if files.len() > 0 {
        let p = files.drop_last();
        lemma_latest_modified_bounds(p);
        assert forall|i: int|
            0 <= i < files.len() && (#[trigger] files[i]).id is Some && files[i].modified_time is Some implies latest_modified(
                files,
            ) is Some && lex_le(files[i].modified_time.unwrap()@, latest_modified(files).unwrap()) by {
            let u = files[i].modified_time.unwrap();
            let f = files.last();
            if i < files.len() - 1 {
                assert(p[i] == files[i]);
                let c = latest_modified(p).unwrap();
                if f.id is Some && f.modified_time is Some {
                    let m = f.modified_time.unwrap();
                    if lex_lt(c, m@) {
                        lemma_lt_le(c, m@);
                        lemma_le_trans(u@, c, m@);
                    }
                }
            } else {
                match latest_modified(p) {
                    Some(c) => {
                        if lex_lt(c, u@) {
                            lemma_lex_irreflexive(u@);
                        }
                    },
                    None => {
                        lemma_lex_irreflexive(u@);
                    },
                }
            }
        }
    }
}

/// The cursor after an indexing pass over `files` (see `latest_modified`).
pub fn docs_cursor(files: &Vec<DocsFileEntry>) -> (r: Option<String>)
    ensures
        match r {
            Some(c) => latest_modified(files@) == Some(c@),
            None => latest_modified(files@).is_none(),
        },
{
    let mut latest: Option<String> = None;
    let mut i: usize = 0;
    while i < files.len()
        invariant
            i <= files@.len(),
            match latest {
                Some(c) => latest_modified(files@.take(i as int)) == Some(c@),
                None => latest_modified(files@.take(i as int)).is_none(),
            },
        decreases files.len() - i,
    {
        assert(files@.take(i + 1).drop_last() =~= files@.take(i as int));
        assert(files@.take(i + 1).last() == files@[i as int]);
        let f = &files[i];
        if f.id.is_some() {
            match &f.modified_time {
                Some(m) => {
                    let newer = match &latest {
                        Some(p) => str_lt(p.as_str(), m.as_str()),
                        None => true,
                    };
                    if newer {
                        latest = Some(m.clone());
                    }
                },
                None => {},
            }
        }
        i = i + 1;
    }
    assert(files@.take(files@.len() as int) =~= files@);
    latest
}

/// The index document of a listed file whose document was fetched: the
/// document's title, else the file's name, else empty.
pub fn docs_index_doc(file_id: &str, file: &DocsFileEntry, doc: &DocContent) -> (d: DocsIndexDocument)
    ensures
        d.document_id@ == file_id@,
        d.title@ == match doc.title {
            Some(t) => t@,
            None => match file.name {
                Some(n) => n@,
                None => Seq::<char>::empty(),
            },
        },
        d.body_text@ == document_text(*doc),
        d.modified_time == file.modified_time,
        d.revision_id == doc.revision_id,
{
    let title = match &doc.title {
        Some(t) => t.clone(),
        None => string_or_empty(&file.name),
    };
    DocsIndexDocument {
        document_id: file_id.to_owned(),
        title,
        body_text: extract_document_text(doc),
        modified_time: clone_opt_string(&file.modified_time),
        revision_id: clone_opt_string(&doc.revision_id),
    }
}

/// A tab of a document, reduced to what a tab listing reads: its
/// properties and how many child tabs it has.
#[derive(Debug, Clone)]
pub struct DocTabInfo {
    pub properties: Option<TabProperties>,
    pub child_tab_count: usize,
}

/// One line of a tab listing.
#[derive(Debug, Clone)]
pub struct TabSummary {
    pub tab_id: Option<String>,
    pub title: Option<String>,
    pub parent_tab_id: Option<String>,
    pub index: Option<i64>,
    pub child_tab_count: usize,
}

/// The listing line of a tab: its properties' id, title, parent and index
/// (each absent when the tab has no properties), and its child count.
pub open spec fn tab_summary(t: DocTabInfo) -> TabSummary {
    match t.properties {
        Some(p) => TabSummary {
            tab_id: p.tab_id,
            title: p.title,
            parent_tab_id: p.parent_tab_id,
            index: p.index,
            child_tab_count: t.child_tab_count,
        },
        None => TabSummary {
            tab_id: None,
            title: None,
            parent_tab_id: None,
            index: None,
            child_tab_count: t.child_tab_count,
        },
    }
}

fn summarize_tab(t: &DocTabInfo) -> (r: TabSummary)
    ensures
        r == tab_summary(*t),
{
    match &t.properties {
        Some(p) => TabSummary {
            tab_id: clone_opt_string(&p.tab_id),
            title: clone_opt_string(&p.title),
            parent_tab_id: clone_opt_string(&p.parent_tab_id),
            index: p.index,
            child_tab_count: t.child_tab_count,
        },
        None => TabSummary { tab_id: None, title: None, parent_tab_id: None, index: None, child_tab_count: t.child_tab_count },
    }
}

/// The tab listing of a document: one line per top-level tab, in order.
pub fn tab_summaries(tabs: &[DocTabInfo]) -> (r: Vec<TabSummary>)
    ensures
        r@ == tabs@.map_values(|t: DocTabInfo| tab_summary(t)),
{
    let mut out: Vec<TabSummary> = Vec::new();
    let mut i: usize = 0;
    while i < tabs.len()
        invariant
            i <= tabs@.len(),
            out@ == tabs@.take(i as int).map_values(|t: DocTabInfo| tab_summary(t)),
        decreases tabs.len() - i,
    {
        let line = summarize_tab(&tabs[i]);
        out.push(line);
        assert(tabs@.take(i + 1) =~= tabs@.take(i as int).push(tabs@[i as int]));
        i = i + 1;
    }
    assert(tabs@.take(tabs@.len() as int) =~= tabs@);
    out
}

/// Base URL of the Docs API.
pub const DOCS_BASE: &'static str = "https://docs.googleapis.com/v1";

/// The URL of a document.
pub fn document_url(document_id: &str) -> (r: String)
    ensures
        r@ == DOCS_BASE@ + "/documents/"@ + document_id@,
{
    let mut url = String::from_str(DOCS_BASE);
    url.append("/documents/");
    url.append(document_id);
    url
}

/// The URL creating a document.
pub fn documents_url() -> (r: String)
    ensures
        r@ == DOCS_BASE@ + "/documents"@,
{
    let mut url = String::from_str(DOCS_BASE);
    url.append("/documents");
    url
}

/// The URL applying a batch of update requests to a document.
pub fn document_batch_update_url(document_id: &str) -> (r: String)
    ensures
        r@ == DOCS_BASE@ + "/documents/"@ + document_id@ + ":batchUpdate"@,
{
    let mut url = document_url(document_id);
    url.append(":batchUpdate");
    url
}

/// The Drive URL copying a document.
pub fn document_copy_url(document_id: &str) -> (r: String)
    ensures
        r@ == "https://www.googleapis.com/drive/v3/files/"@ + document_id@ + "/copy"@,
{
    let mut url = String::from_str("https://www.googleapis.com/drive/v3/files/");
    url.append(document_id);
    url.append("/copy");
    url
}

} // verus!
