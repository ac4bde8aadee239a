//! Keep: index documents for notes and the incremental-sync bookkeeping.

use crate::text::{clone_opt_string, join_strings, lemma_le_trans, lemma_lex_irreflexive, lemma_lt_le, lex_le, lex_lt, seq_join, str_lt, string_or_empty, string_views};
use crate::types::keep::{ListItem, Note};
use vstd::prelude::*;
use vstd::string::StringExecFns;

use crate::auth::oauth2::pair_views;
use crate::http::query::{add_encoded, add_param, enc, enc_opt, opt_param, query_of, url_with_query};
use crate::text::urlencoding;

verus! {

/// Document yielded by the Keep indexing implementation.
#[derive(Debug, Clone)]
pub struct KeepIndexDocument {
    pub note_id: String,
    pub title: String,
    pub body: String,
    pub update_time: Option<String>,
    pub trashed: bool,
    pub labels: Vec<String>,
}

/// Two spaces per nesting level.
pub open spec fn indent(depth: nat) -> Seq<char>
    decreases depth,
{
    if depth == 0 {
        Seq::empty()
    } else {
        indent((depth - 1) as nat) + "  "@
    }
}

/// The checkbox prefix of a list item.
pub open spec fn checkbox(checked: bool) -> Seq<char> {
    if checked {
        "[x] "@
    } else {
        "[ ] "@
    }
}

/// The lines of a list item at `depth`: its own text (indented, with its
/// checkbox) when it has some, then its children one level deeper.
pub open spec fn item_lines(item: ListItem, depth: nat) -> Seq<Seq<char>>
    decreases item,
{
    let own = own_line(item, depth);
    proof {
        assert(decreases_to!(item => item.children_list_items));
        assert(decreases_to!(item.children_list_items => item.children_list_items@));
    }
    own + items_lines(item.children_list_items@, depth + 1)
}

/// The line of a list item itself, if it has text.
pub open spec fn own_line(item: ListItem, depth: nat) -> Seq<Seq<char>> {
    match item.text {
        Some(tc) => match tc.text {
            Some(t) => seq![indent(depth) + checkbox(item.checked) + t@],
            None => Seq::empty(),
        },
        None => Seq::empty(),
    }
}

/// The lines of a list of items at `depth`, in order.
pub open spec fn items_lines(items: Seq<ListItem>, depth: nat) -> Seq<Seq<char>>
    decreases items,
{
    if items.len() == 0 {
        Seq::empty()
    } else {
        proof {
            assert(decreases_to!(items => items[0]));
            assert(decreases_to!(items => items.subrange(1, items.len() as int)));
        }
        item_lines(items[0], depth) + items_lines(items.subrange(1, items.len() as int), depth)
    }
}

/// How deep a list item nests.
pub open spec fn item_height(item: ListItem) -> nat
    decreases item,
{
    proof {
        assert(decreases_to!(item => item.children_list_items));
        assert(decreases_to!(item.children_list_items => item.children_list_items@));
    }
    1 + items_height(item.children_list_items@)
}

/// How deep the deepest of a list of items nests.
pub open spec fn items_height(items: Seq<ListItem>) -> nat
    decreases items,
{
    if items.len() == 0 {
        0
    } else {
        proof {
            assert(decreases_to!(items => items[0]));
            assert(decreases_to!(items => items.subrange(1, items.len() as int)));
        }
        let h = item_height(items[0]);
        let t = items_height(items.subrange(1, items.len() as int));
        if h > t {
            h
        } else {
            t
        }
    }
}

proof fn lemma_items_height_suffix(s: Seq<ListItem>, k: int)
    requires
        0 <= k <= s.len(),
    ensures
        items_height(s) >= items_height(s.subrange(k, s.len() as int)),
    decreases k,
{
    if k > 0 {
        assert(s.subrange(1, s.len() as int).subrange(k - 1, s.len() - 1) =~= s.subrange(k, s.len() as int));
        lemma_items_height_suffix(s.subrange(1, s.len() as int), k - 1);
    } else {
        assert(s.subrange(0, s.len() as int) =~= s);
    }
}

fn item_height_checked(item: &ListItem) -> (r: Option<usize>)
    ensures
        match r {
            Some(h) => h == item_height(*item),
            None => item_height(*item) > usize::MAX,
        },
    decreases item,
{
    let ghost s = item.children_list_items@;
    let mut acc: usize = 0;
    let mut i: usize = item.children_list_items.len();
    assert(s.subrange(s.len() as int, s.len() as int) =~= Seq::<ListItem>::empty());
    while i > 0
        invariant
            i <= s.len(),
            s == item.children_list_items@,
            acc == items_height(s.subrange(i as int, s.len() as int)),
        decreases i,
    {
        i = i - 1;
        let ghost tail = s.subrange(i as int, s.len() as int);
        assert(tail[0] == s[i as int]);
        assert(tail.subrange(1, tail.len() as int) =~= s.subrange(i + 1, s.len() as int));
        proof {
            assert(decreases_to!(*item => item.children_list_items));
            assert(decreases_to!(item.children_list_items => item.children_list_items@));
            assert(decreases_to!(item.children_list_items@ => item.children_list_items@[i as int]));
        }
        assert(items_height(tail) >= item_height(tail[0]));
        match item_height_checked(&item.children_list_items[i]) {
            Some(h) => {
                if h > acc {
                    acc = h;
                }
            },
            None => {
                proof {
                    lemma_items_height_suffix(s, i as int);
                }
                return None;
            },
        }
    }
    assert(s.subrange(0, s.len() as int) =~= s);
    if acc == usize::MAX {
        None
    } else {
        Some(acc + 1)
    }
}

fn items_fit(items: &Vec<ListItem>) -> (r: bool)
    ensures
        r == (items_height(items@) <= usize::MAX),
{
    let ghost s = items@;
    let mut acc: usize = 0;
    let mut i: usize = items.len();
    assert(s.subrange(s.len() as int, s.len() as int) =~= Seq::<ListItem>::empty());
    while i > 0
        invariant
            i <= s.len(),
            s == items@,
            acc == items_height(s.subrange(i as int, s.len() as int)),
        decreases i,
    {
        i = i - 1;
        let ghost tail = s.subrange(i as int, s.len() as int);
        assert(tail[0] == s[i as int]);
        assert(tail.subrange(1, tail.len() as int) =~= s.subrange(i + 1, s.len() as int));
        assert(items_height(tail) >= item_height(tail[0]));
        match item_height_checked(&items[i]) {
            Some(h) => {
                if h > acc {
                    acc = h;
                }
            },
            None => {
                proof {
                    lemma_items_height_suffix(s, i as int);
                }
                return false;
            },
        }
    }
    assert(s.subrange(0, s.len() as int) =~= s);
    true
}

/// Whether the note's list nests shallowly enough for its lines to be
/// collected (see `note_fits`).
pub fn note_depth_fits(note: &Note) -> (r: bool)
    ensures
        r == note_fits(*note),
{
    match &note.body {
        Some(b) => match &b.list {
            Some(l) => items_fit(&l.list_items),
            None => true,
        },
        None => true,
    }
}

fn indent_text(depth: usize) -> (r: String)
    ensures
        r@ == indent(depth as nat),
{
    let mut s = String::new();
    let mut k: usize = 0;
    while k < depth
        invariant
            k <= depth,
            s@ == indent(k as nat),
        decreases depth - k,
    {
        s.append("  ");
        k = k + 1;
    }
    s
}

/// Appends the lines of `item` at `depth` to `parts`.
pub fn collect_list_item_text(item: &ListItem, parts: &mut Vec<String>, depth: usize)
    requires
        depth + item_height(*item) <= usize::MAX,
    ensures
        string_views(final(parts)@) == string_views(old(parts)@) + item_lines(*item, depth as nat),
    decreases item,
{
    let ghost start = string_views(parts@);
    match &item.text {
        Some(tc) => match &tc.text {
            Some(t) => {
                let mut line = indent_text(depth);
                if item.checked {
                    line.append("[x] ");
                } else {
                    line.append("[ ] ");
                }
                line.append(t.as_str());
                let ghost before = parts@;
                parts.push(line);
                assert(string_views(parts@) =~= string_views(before).push(line@));
            },
            None => {},
        },
        None => {},
    }
    let ghost own = own_line(*item, depth as nat);
    assert(string_views(parts@) =~= start + own);
    let ghost cs = item.children_list_items@;
    assert(cs.subrange(0, cs.len() as int) =~= cs);
    let mut i: usize = 0;
    while i < item.children_list_items.len()
        invariant
            i <= cs.len(),
            cs == item.children_list_items@,
            depth + item_height(*item) <= usize::MAX,
            item_height(*item) == 1 + items_height(cs),
            items_height(cs) >= items_height(cs.subrange(i as int, cs.len() as int)),
            string_views(parts@) + items_lines(cs.subrange(i as int, cs.len() as int), depth as nat + 1)
                == start + own + items_lines(cs, depth as nat + 1),
        decreases cs.len() - i,
    {
        let ghost rest = cs.subrange(i as int, cs.len() as int);
        assert(rest[0] == cs[i as int]);
        assert(rest.subrange(1, rest.len() as int) =~= cs.subrange(i + 1, cs.len() as int));
        assert(items_height(rest) >= item_height(cs[i as int]));
        assert(items_height(rest) >= items_height(cs.subrange(i + 1, cs.len() as int)));
        proof {
            assert(decreases_to!(*item => item.children_list_items));
            assert(decreases_to!(item.children_list_items => item.children_list_items@));
            assert(decreases_to!(item.children_list_items@ => item.children_list_items@[i as int]));
        }
        let ghost before = string_views(parts@);
        collect_list_item_text(&item.children_list_items[i], parts, depth + 1);
        assert(before + items_lines(rest, depth as nat + 1) =~= string_views(parts@) + items_lines(
            cs.subrange(i + 1, cs.len() as int),
            depth as nat + 1,
        ));
        i = i + 1;
    }
    assert(cs.subrange(cs.len() as int, cs.len() as int) =~= Seq::<ListItem>::empty());
    assert(string_views(parts@) =~= start + item_lines(*item, depth as nat));
}

/// The text of a note: its text content, then the lines of its list items,
/// joined by newlines; empty without a body.
pub open spec fn note_lines(note: Note) -> Seq<Seq<char>> {
    match note.body {
        Some(b) => (match b.text {
            Some(tc) => match tc.text {
                Some(t) => seq![t@],
                None => Seq::empty(),
            },
            None => Seq::empty(),
        }) + (match b.list {
            Some(l) => items_lines(l.list_items@, 0),
            None => Seq::empty(),
        }),
        None => Seq::empty(),
    }
}

/// The lists of a note nest no deeper than `usize::MAX` levels.
pub open spec fn note_fits(note: Note) -> bool {
    match note.body {
        Some(b) => match b.list {
            Some(l) => items_height(l.list_items@) <= usize::MAX,
            None => true,
        },
        None => true,
    }
}

/// Extract text content from a note's body (text content or list items).
pub fn extract_note_body(note: &Note) -> (r: String)
    requires
        note_fits(*note),
    ensures
        r@ == seq_join(note_lines(*note), "\n"@),
{
    let body = match &note.body {
        Some(b) => b,
        None => {
            assert(note_lines(*note) =~= Seq::<Seq<char>>::empty());
            return String::new();
        },
    };
    let mut parts: Vec<String> = Vec::new();
    match &body.text {
        Some(tc) => match &tc.text {
            Some(t) => {
                parts.push(t.clone());
            },
            None => {},
        },
        None => {},
    }
    let ghost head = string_views(parts@);
    match &body.list {
        Some(list) => {
            let ghost items = list.list_items@;
            assert(items.subrange(0, items.len() as int) =~= items);
            let mut i: usize = 0;
            while i < list.list_items.len()
                invariant
                    i <= items.len(),
                    items == list.list_items@,
                    items_height(items) <= usize::MAX,
                    items_height(items) >= items_height(items.subrange(i as int, items.len() as int)),
                    string_views(parts@) + items_lines(items.subrange(i as int, items.len() as int), 0)
                        == head + items_lines(items, 0),
                decreases items.len() - i,
            {
                let ghost rest = items.subrange(i as int, items.len() as int);
                assert(rest[0] == items[i as int]);
                assert(rest.subrange(1, rest.len() as int) =~= items.subrange(i + 1, items.len() as int));
                assert(items_height(rest) >= item_height(items[i as int]));
                let ghost before = string_views(parts@);
                collect_list_item_text(&list.list_items[i], &mut parts, 0);
                assert(before + items_lines(rest, 0) =~= string_views(parts@) + items_lines(
                    items.subrange(i + 1, items.len() as int),
                    0,
                ));
                i = i + 1;
            }
            assert(items.subrange(items.len() as int, items.len() as int) =~= Seq::<ListItem>::empty());
            assert(string_views(parts@) =~= head + items_lines(items, 0));
        },
        None => {
            assert(string_views(parts@) =~= head + Seq::<Seq<char>>::empty());
        },
    }
    assert(string_views(parts@) =~= note_lines(*note));
    join_strings(parts.as_slice(), "\n")
}

/// Convert a Keep `Note` into a `KeepIndexDocument`.
pub fn note_to_index_doc(note: &Note) -> (d: KeepIndexDocument)
    requires
        note_fits(*note),
    ensures
        d.note_id@ == match note.name {
            Some(n) => n@,
            None => Seq::<char>::empty(),
        },
        d.title@ == match note.title {
            Some(t) => t@,
            None => Seq::<char>::empty(),
        },
        d.body@ == seq_join(note_lines(*note), "\n"@),
        d.update_time == note.update_time,
        d.trashed == note.trashed,
        d.labels@.len() == 0,
{
    KeepIndexDocument {
        note_id: string_or_empty(&note.name),
        title: string_or_empty(&note.title),
        body: extract_note_body(note),
        update_time: clone_opt_string(&note.update_time),
        trashed: note.trashed,
        labels: Vec::new(),
    }
}

/// Whether a note changed after the sync cursor (every note counts when
/// there is no cursor; a note without an update time never does then).
pub open spec fn updated_after(note: Note, since: Option<Seq<char>>) -> bool {
    match since {
        Some(c) => match note.update_time {
            Some(u) => lex_lt(c, u@),
            None => false,
        },
        None => true,
    }
}

/// The notes of a batch that are kept: those updated after the cursor, in order.
pub open spec fn kept_notes(notes: Seq<Note>, since: Option<Seq<char>>) -> Seq<Note>
    decreases notes.len(),
{
    if notes.len() == 0 {
        notes
    } else if updated_after(notes.last(), since) {
        kept_notes(notes.drop_last(), since).push(notes.last())
    } else {
        kept_notes(notes.drop_last(), since)
    }
}

/// The latest update time among notes (string order), if any has one.
pub open spec fn latest_update(notes: Seq<Note>) -> Option<Seq<char>>
    decreases notes.len(),
{
    if notes.len() == 0 {
        None
    } else {
        let prev = latest_update(notes.drop_last());
        match notes.last().update_time {
            Some(u) => match prev {
                Some(p) => if lex_lt(u@, p) {
                    Some(p)
                } else {
                    Some(u@)
                },
                None => Some(u@),
            },
            None => prev,
        }
    }
}

/// The latest update time bounds every note's update time.
pub proof fn lemma_latest_update_bounds(notes: Seq<Note>)
    ensures
        forall|i: int|
            0 <= i < notes.len() && (#[trigger] notes[i]).update_time is Some ==> latest_update(notes) is Some
                && lex_le(notes[i].update_time.unwrap()@, latest_update(notes).unwrap()),
    decreases notes.len(),
{
    if notes.len() > 0 {
        let p = notes.drop_last();
        lemma_latest_update_bounds(p);
        let c2 = latest_update(notes);
        assert forall|i: int| 0 <= i < notes.len() && (#[trigger] notes[i]).update_time is Some implies latest_update(
            notes,
        ) is Some && lex_le(notes[i].update_time.unwrap()@, latest_update(notes).unwrap()) by {
            {
                let u = notes[i].update_time.unwrap();
                if i < notes.len() - 1 {
                    assert(p[i] == notes[i]);
                    let c = latest_update(p).unwrap();
                    match notes.last().update_time {
                        Some(v) => {
                            if lex_lt(v@, c) {
                            } else {
                                lemma_le_trans(u@, c, v@);
                            }
                        },
                        None => {},
                    }
                } else {
                    match latest_update(p) {
                        Some(c) => {
                            if lex_lt(u@, c) {
                                lemma_lt_le(u@, c);
                            } else {
                                lemma_lex_irreflexive(u@);
                            }
                        },
                        None => {
                            lemma_lex_irreflexive(u@);
                        },
                    }
                }
            }
        }
    }
}

/// Incremental indexing makes progress: once a batch's cursor is used as
/// the next `since`, no note of that batch is kept again.
pub proof fn lemma_cursor_excludes_batch(notes: Seq<Note>)
    ensures
        latest_update(notes) is Some ==> forall|i: int|
            0 <= i < notes.len() ==> !updated_after(#[trigger] notes[i], latest_update(notes)),
{
    lemma_latest_update_bounds(notes);
}

/// Whether paging through notes can stop: enough were fetched, or there is
/// no further page.
pub fn keep_paging_done(fetched: usize, limit: usize, has_next: bool) -> (r: bool)
    ensures
        r == (fetched >= limit || !has_next),
{
    fetched >= limit || !has_next
}

/// The index batch from fetched notes: the first `limit`, those updated
/// after the cursor, converted to documents; the new cursor is the latest
/// update time among them.
pub fn keep_index_batch(notes: &Vec<Note>, since: Option<&str>, limit: usize) -> (r: (
    Vec<KeepIndexDocument>,
    Option<String>,
))
    requires
        forall|i: int| 0 <= i < notes@.len() ==> note_fits(#[trigger] notes@[i]),
    ensures
        ({
            let n = if limit < notes@.len() { limit as int } else { notes@.len() as int };
            let since_v = match since {
                Some(c) => Some(c@),
                None => None,
            };
            let kept = kept_notes(notes@.take(n), since_v);
            &&& r.0@.len() == kept.len()
            &&& forall|k: int|
                0 <= k < kept.len() ==> (#[trigger] r.0@[k]).note_id@ == match kept[k].name {
                    Some(x) => x@,
                    None => Seq::<char>::empty(),
                } && r.0@[k].body@ == seq_join(note_lines(kept[k]), "\n"@) && r.0@[k].update_time
                    == kept[k].update_time && r.0@[k].trashed == kept[k].trashed
            &&& match r.1 {
                Some(c) => latest_update(kept) == Some(c@),
                None => latest_update(kept).is_none(),
            }
        }),
{
    let n = if limit < notes.len() { limit } else { notes.len() };
    let ghost since_v = match since {
        Some(c) => Some(c@),
        None => None,
    };
    let mut docs: Vec<KeepIndexDocument> = Vec::new();
    let mut latest: Option<String> = None;
    let ghost mut kept: Seq<Note> = Seq::empty();
    let mut i: usize = 0;
    while i < n
        invariant
            i <= n,
            n <= notes@.len(),
            forall|j: int| 0 <= j < notes@.len() ==> note_fits(#[trigger] notes@[j]),
            since_v == match since {
                Some(c) => Some(c@),
                None => None::<Seq<char>>,
            },
            kept == kept_notes(notes@.take(i as int), since_v),
            docs@.len() == kept.len(),
            forall|k: int|
                0 <= k < kept.len() ==> (#[trigger] docs@[k]).note_id@ == match kept[k].name {
                    Some(x) => x@,
                    None => Seq::<char>::empty(),
                } && docs@[k].body@ == seq_join(note_lines(kept[k]), "\n"@) && docs@[k].update_time
                    == kept[k].update_time && docs@[k].trashed == kept[k].trashed,
            match latest {
                Some(c) => latest_update(kept) == Some(c@),
                None => latest_update(kept).is_none(),
            },
        decreases n - i,
    {
        let note = &notes[i];
        assert(notes@.take(i + 1).drop_last() =~= notes@.take(i as int));
        assert(notes@.take(i + 1).last() == notes@[i as int]);
        let keep = match since {
            Some(c) => match &note.update_time {
                Some(u) => str_lt(c, u.as_str()),
                None => false,
            },
            None => true,
        };
        if keep {
            docs.push(note_to_index_doc(note));
            latest = match &note.update_time {
                Some(u) => match latest {
                    Some(p) => if str_lt(u.as_str(), p.as_str()) {
                        Some(p)
                    } else {
                        Some(u.clone())
                    },
                    None => Some(u.clone()),
                },
                None => latest,
            };
            proof {
                let old_kept = kept;
                kept = kept.push(notes@[i as int]);
                assert(kept.drop_last() =~= old_kept);
                assert(kept.last() == notes@[i as int]);
            }
        }
        i = i + 1;
    }
    assert(notes@.take(n as int) == notes@.take(
        if limit < notes@.len() { limit as int } else { notes@.len() as int },
    ));
    (docs, latest)
}

/// Notes endpoint of the Keep API.
pub const KEEP_NOTES: &'static str = "https://keep.googleapis.com/v1/notes";

/// Query parameters of one page of a note search.
pub open spec fn search_page_params(filter: Seq<char>, page_token: Option<&str>) -> Seq<(Seq<char>, Seq<char>)> {
    seq![("pageSize"@, "100"@), ("filter"@, enc(filter))] + opt_param("pageToken"@, enc_opt(page_token))
}

/// The URL of one page of a note search: pages of 100 matching `filter`,
/// from `page_token` when given.
pub fn search_page_url(filter: &str, page_token: Option<&str>) -> (r: String)
    ensures
        r@ == KEEP_NOTES@ + query_of(search_page_params(filter@, page_token)),
{
    let mut params: Vec<(String, String)> = Vec::new();
    add_param(&mut params, "pageSize", String::from_str("100"));
    add_param(&mut params, "filter", urlencoding(filter));
    assert(pair_views(params@) =~= seq![("pageSize"@, "100"@), ("filter"@, enc(filter@))]);
    add_encoded(&mut params, "pageToken", page_token);
    assert(pair_views(params@) =~= search_page_params(filter@, page_token));
    url_with_query(KEEP_NOTES, &params)
}

/// The URL of one page of the note listing: pages of 100, from
/// `page_token` when given.
pub fn list_page_url(page_token: Option<&str>) -> (r: String)
    ensures
        r@ == KEEP_NOTES@ + query_of(seq![("pageSize"@, "100"@)] + opt_param("pageToken"@, enc_opt(page_token))),
{
    let mut params: Vec<(String, String)> = Vec::new();
    add_param(&mut params, "pageSize", String::from_str("100"));
    assert(pair_views(params@) =~= seq![("pageSize"@, "100"@)]);
    add_encoded(&mut params, "pageToken", page_token);
    url_with_query(KEEP_NOTES, &params)
}

/// Index namespace of Keep items.
pub const KEEP_INDEX_NAMESPACE: &'static str = "keep";

/// The URL of one note, by resource name (such as `notes/abc`).
pub fn note_url(note_name: &str) -> (r: String)
    ensures
        r@ == "https://keep.googleapis.com/v1/"@ + note_name@,
{
    let mut url = String::from_str("https://keep.googleapis.com/v1/");
    url.append(note_name);
    url
}

} // verus!
