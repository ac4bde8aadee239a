//! Gmail: message assembly (RFC 2822, base64url) and index documents.

use crate::text::new_mime_boundary;
use crate::text::{
    clone_opt_string, clone_strings, eq_ascii_nocase, eq_ignore_ascii_case, join_strings,
    seq_join, str_eq, string_or_empty, string_views,
};
use crate::types::gmail::{ComposeParams, HistoryRecord, Message, MessagePart};
use base64::Engine;
use crate::auth::oauth2::pair_views;
use crate::http::query::{add_encoded, add_number, add_param, enc, enc_opt, num_opt, opt_param, query_of, url_with_query};
use crate::text::urlencoding;
use vstd::prelude::*;
use vstd::string::StringExecFns;
use vstd::utf8::{decode_utf8, encode_utf8, valid_utf8};

verus! {

/// Document yielded by the Gmail indexing implementation.
#[derive(Debug, Clone)]
pub struct GmailIndexDocument {
    pub message_id: String,
    pub thread_id: String,
    pub subject: String,
    pub snippet: String,
    pub headers: Vec<(String, String)>,
    pub body: String,
    pub internal_date: Option<String>,
    pub label_ids: Vec<String>,
}

/// The unpadded URL-safe base64 encoding of `data`.
pub uninterp spec fn base64url_encoded(data: Seq<u8>) -> Seq<char>;

/// The bytes an unpadded URL-safe base64 text decodes to, if it is valid.
pub uninterp spec fn base64url_decoded(text: Seq<u8>) -> Option<Seq<u8>>;

/// Encodes bytes as unpadded URL-safe base64.
///
/// Calls `base64::engine::general_purpose::URL_SAFE_NO_PAD.encode`; the
/// output is named `base64url_encoded(data)`, a function of the bytes alone.
/// The encoder panics when the output length overflows `usize`, which the
/// precondition rules out. Decoding the output with the same engine gives
/// `data` back (the engine's encode/decode round trip).
#[verifier::external_body]
pub(crate) fn base64_url_encode(data: &[u8]) -> (r: String)
    requires
        data@.len() / 3 * 4 + 4 <= usize::MAX,
    ensures
        r@ == base64url_encoded(data@),
        base64url_decoded(encode_utf8(r@)) == Some(data@),
{
    base64::engine::general_purpose::URL_SAFE_NO_PAD.encode(data)
}

/// Decodes unpadded URL-safe base64 text.
///
/// Calls `base64::engine::general_purpose::URL_SAFE_NO_PAD.decode` and keeps
/// the bytes on success; the outcome is named `base64url_decoded(text)`.
#[verifier::external_body]
fn base64_url_decode(text: &[u8]) -> (r: Option<Vec<u8>>)
    ensures
        match r {
            Some(b) => base64url_decoded(text@) == Some(b@),
            None => base64url_decoded(text@).is_none(),
        },
{
    base64::engine::general_purpose::URL_SAFE_NO_PAD.decode(text).ok()
}

/// Reads bytes as UTF-8 text.
///
/// Calls `String::from_utf8` (std), which fails exactly on invalid UTF-8 and
/// otherwise holds the decoded characters.
#[verifier::external_body]
fn utf8_to_string(bytes: Vec<u8>) -> (r: Option<String>)
    ensures
        r is Some <==> valid_utf8(bytes@),
        r matches Some(s) ==> s@ == decode_utf8(bytes@),
{
    String::from_utf8(bytes).ok()
}

/// The text a base64url body decodes to: empty when it is not valid base64
/// or not valid UTF-8.
pub open spec fn decoded_text(data: Seq<char>) -> Seq<char> {
    match base64url_decoded(encode_utf8(data)) {
        Some(bytes) => if valid_utf8(bytes) {
            decode_utf8(bytes)
        } else {
            Seq::empty()
        },
        None => Seq::empty(),
    }
}

/// Decodes a base64url body to text, empty on any failure.
pub fn decode_base64url(data: &str) -> (r: String)
    ensures
        r@ == decoded_text(data@),
{
    match base64_url_decode(data.as_bytes()) {
        Some(bytes) => match utf8_to_string(bytes) {
            Some(s) => s,
            None => String::new(),
        },
        None => String::new(),
    }
}

/// The base64url body data of a `text/plain` part, if it carries one.
pub open spec fn plain_data(p: MessagePart) -> Option<Seq<char>> {
    match p.mime_type {
        Some(m) => if m@ == "text/plain"@ {
            match p.body {
                Some(b) => match b.data {
                    Some(d) => Some(d@),
                    None => None,
                },
                None => None,
            }
        } else {
            None
        },
        None => None,
    }
}

/// The plain text of a message part: its own `text/plain` data when it has
/// some, otherwise the first non-empty text among its sub-parts.
pub open spec fn part_text(p: MessagePart) -> Seq<char>
    decreases p,
{
    match plain_data(p) {
        Some(d) => decoded_text(d),
        None => {
            proof {
                assert(decreases_to!(p => p.parts));
                assert(decreases_to!(p.parts => p.parts@));
            }
            first_text(p.parts@)
        },
    }
}

/// The first non-empty `part_text` of a list of parts, or empty.
pub open spec fn first_text(ps: Seq<MessagePart>) -> Seq<char>
    decreases ps,
{
    if ps.len() == 0 {
        Seq::empty()
    } else {
        proof {
            assert(decreases_to!(ps => ps[0]));
            assert(decreases_to!(ps => ps.subrange(1, ps.len() as int)));
        }
        let t = part_text(ps[0]);
        if t.len() > 0 {
            t
        } else {
            first_text(ps.subrange(1, ps.len() as int))
        }
    }
}

/// The plain text of an optional payload.
pub open spec fn payload_text(payload: Option<MessagePart>) -> Seq<char> {
    match payload {
        Some(p) => part_text(p),
        None => Seq::empty(),
    }
}

fn part_plain_data(part: &MessagePart) -> (r: Option<&str>)
    ensures
        match r {
            Some(d) => plain_data(*part) == Some(d@),
            None => plain_data(*part).is_none(),
        },
{
    match &part.mime_type {
        Some(mime) => if str_eq(mime.as_str(), "text/plain") {
            match &part.body {
                Some(body) => match &body.data {
                    Some(data) => Some(data.as_str()),
                    None => None,
                },
                None => None,
            }
        } else {
            None
        },
        None => None,
    }
}

/// The plain text of a message part (see `part_text`).
pub fn part_body_text(part: &MessagePart) -> (r: String)
    ensures
        r@ == part_text(*part),
    decreases part,
{
    match part_plain_data(part) {
        Some(data) => decode_base64url(data),
        None => {
            let ghost ps = part.parts@;
            assert(ps.subrange(0, ps.len() as int) =~= ps);
            let mut i: usize = 0;
            while i < part.parts.len()
                invariant
                    i <= ps.len(),
                    ps == part.parts@,
                    plain_data(*part).is_none(),
                    first_text(ps) == first_text(ps.subrange(i as int, ps.len() as int)),
                decreases ps.len() - i,
            {
                proof {
                    assert(decreases_to!(*part => part.parts));
                    assert(decreases_to!(part.parts => part.parts@));
                    assert(decreases_to!(part.parts@ => part.parts@[i as int]));
                }
                let text = part_body_text(&part.parts[i]);
                let ghost rest = ps.subrange(i as int, ps.len() as int);
                assert(rest[0] == ps[i as int]);
                if text.unicode_len() > 0 {
                    return text;
                }
                assert(rest.subrange(1, rest.len() as int) =~= ps.subrange(i + 1, ps.len() as int));
                i = i + 1;
            }
            String::new()
        },
    }
}

/// Extracts the plain-text body of a message payload.
pub fn extract_body_text(payload: Option<&MessagePart>) -> (r: String)
    ensures
        r@ == match payload {
            Some(p) => part_text(*p),
            None => Seq::<char>::empty(),
        },
{
    match payload {
        Some(part) => part_body_text(part),
        None => String::new(),
    }
}

/// The value of the first header named `Subject` (in any ASCII case), or empty.
pub open spec fn subject_of(headers: Seq<(Seq<char>, Seq<char>)>) -> Seq<char>
    decreases headers.len(),
{
    if headers.len() == 0 {
        Seq::empty()
    } else if eq_ascii_nocase(headers[0].0, "Subject"@) {
        headers[0].1
    } else {
        subject_of(headers.drop_first())
    }
}

/// Views of name/value pairs.
pub open spec fn header_views(h: Seq<(String, String)>) -> Seq<(Seq<char>, Seq<char>)> {
    h.map_values(|kv: (String, String)| (kv.0@, kv.1@))
}

/// The name/value pairs of a payload's headers, in order (none without payload).
pub open spec fn payload_headers(msg: Message) -> Seq<(Seq<char>, Seq<char>)> {
    match msg.payload {
        Some(p) => p.headers@.map_values(|h: crate::types::gmail::Header| (h.name@, h.value@)),
        None => Seq::empty(),
    }
}

fn subject_from(headers: &Vec<(String, String)>) -> (r: String)
    ensures
        r@ == subject_of(header_views(headers@)),
{
    let ghost hv = header_views(headers@);
    assert(hv.skip(0) =~= hv);
    let mut i: usize = 0;
    while i < headers.len()
        invariant
            i <= headers@.len(),
            hv == header_views(headers@),
            subject_of(hv) == subject_of(hv.skip(i as int)),
        decreases headers.len() - i,
    {
        assert(hv.skip(i as int)[0] == hv[i as int]);
        if eq_ignore_ascii_case(headers[i].0.as_str(), "Subject") {
            return headers[i].1.clone();
        }
        assert(hv.skip(i as int).drop_first() =~= hv.skip(i + 1));
        i = i + 1;
    }
    String::new()
}

/// Converts a fetched message into its index document: id, thread, subject
/// (from the `Subject` header), snippet, all headers, plain-text body,
/// internal date and labels.
pub fn message_to_index_doc(msg: &Message) -> (d: GmailIndexDocument)
    ensures
        d.message_id@ == msg.id@,
        d.thread_id@ == match msg.thread_id {
            Some(t) => t@,
            None => Seq::<char>::empty(),
        },
        d.snippet@ == match msg.snippet {
            Some(s) => s@,
            None => Seq::<char>::empty(),
        },
        header_views(d.headers@) == payload_headers(*msg),
        d.subject@ == subject_of(payload_headers(*msg)),
        d.body@ == payload_text(msg.payload),
        d.internal_date == msg.internal_date,
        d.label_ids@ == msg.label_ids@,
{
    let mut headers: Vec<(String, String)> = Vec::new();
    match &msg.payload {
        Some(p) => {
            let mut i: usize = 0;
            while i < p.headers.len()
                invariant
                    i <= p.headers@.len(),
                    header_views(headers@) == p.headers@.take(i as int).map_values(
                        |h: crate::types::gmail::Header| (h.name@, h.value@),
                    ),
                decreases p.headers.len() - i,
            {
                let ghost before = headers@;
                headers.push((p.headers[i].name.clone(), p.headers[i].value.clone()));
                assert(header_views(headers@) =~= header_views(before).push(
                    (p.headers@[i as int].name@, p.headers@[i as int].value@),
                ));
                assert(p.headers@.take(i + 1) =~= p.headers@.take(i as int).push(p.headers@[i as int]));
                i = i + 1;
            }
            assert(p.headers@.take(p.headers@.len() as int) =~= p.headers@);
        },
        None => {
            assert(header_views(headers@) =~= Seq::<(Seq<char>, Seq<char>)>::empty());
        },
    }
    let subject = subject_from(&headers);
    let body = match &msg.payload {
        Some(p) => part_body_text(p),
        None => String::new(),
    };
    GmailIndexDocument {
        message_id: msg.id.clone(),
        thread_id: string_or_empty(&msg.thread_id),
        subject,
        snippet: string_or_empty(&msg.snippet),
        headers,
        body,
        internal_date: clone_opt_string(&msg.internal_date),
        label_ids: clone_strings(&msg.label_ids),
    }
}

/// The optional text, or empty.
pub open spec fn opt_text(o: Option<String>) -> Seq<char> {
    match o {
        Some(s) => s@,
        None => Seq::empty(),
    }
}

/// The RFC 2822 header block of a message being composed.
pub open spec fn compose_headers(p: ComposeParams) -> Seq<char> {
    "To: "@ + seq_join(string_views(p.to@), ", "@) + "\r\n"@ + (if p.cc@.len() > 0 {
        "Cc: "@ + seq_join(string_views(p.cc@), ", "@) + "\r\n"@
    } else {
        Seq::empty()
    }) + (if p.bcc@.len() > 0 {
        "Bcc: "@ + seq_join(string_views(p.bcc@), ", "@) + "\r\n"@
    } else {
        Seq::empty()
    }) + "Subject: "@ + p.subject@ + "\r\n"@ + match p.reply_to_message_id {
        Some(id) => "In-Reply-To: <"@ + id@ + ">\r\n"@ + "References: <"@ + id@ + ">\r\n"@,
        None => Seq::empty(),
    }
}

/// The full message text: plain text alone, or a `multipart/alternative`
/// with a plain and an HTML part separated by `boundary`.
pub open spec fn compose_message(p: ComposeParams, boundary: Seq<char>) -> Seq<char> {
    match p.body_html {
        Some(html) => compose_headers(p) + "MIME-Version: 1.0\r\n"@
            + "Content-Type: multipart/alternative; boundary=\""@ + boundary + "\"\r\n"@
            + "\r\n--"@ + boundary + "\r\nContent-Type: text/plain; charset=\"UTF-8\"\r\n\r\n"@
            + opt_text(p.body) + "\r\n--"@ + boundary
            + "\r\nContent-Type: text/html; charset=\"UTF-8\"\r\n\r\n"@ + html@ + "\r\n--"@
            + boundary + "--"@,
        None => compose_headers(p) + "Content-Type: text/plain; charset=\"UTF-8\"\r\n"@ + "\r\n"@
            + opt_text(p.body),
    }
}

/// Whether `t` occurs in `s` as a contiguous run.
pub open spec fn occurs_in(s: Seq<char>, t: Seq<char>) -> bool {
    exists|i: int| 0 <= i && i + t.len() <= s.len() && #[trigger] s.subrange(i, i + t.len()) == t
}

proof fn lemma_occurs_between(a: Seq<char>, t: Seq<char>, b: Seq<char>)
    ensures
        occurs_in(a + t + b, t),
{
    assert((a + t + b).subrange(a.len() as int, (a.len() + t.len()) as int) =~= t);
}

/// The header line `label` (such as `Cc: `) listing some addresses,
/// separated by `, `.
pub open spec fn address_line(label: Seq<char>, addresses: Seq<String>) -> Seq<char> {
    label + seq_join(string_views(addresses), ", "@) + "\r\n"@
}

proof fn lemma_headers_lead(p: ComposeParams, boundary: Seq<char>)
    ensures
        compose_message(p, boundary) == compose_headers(p) + compose_message(p, boundary).skip(
            compose_headers(p).len() as int,
        ),
{
    let h = compose_headers(p);
    let m = compose_message(p, boundary);
    match p.body_html {
        Some(html) => {
            assert(m =~= h + m.skip(h.len() as int));
        },
        None => {
            assert(m =~= h + m.skip(h.len() as int));
        },
    }
}

/// Every recipient given is addressed: a composed message (plain or with
/// an HTML part) begins with the `To` line, carries a `Cc` line listing the
/// copy recipients whenever there are any and a `Bcc` line listing the
/// blind-copy recipients whenever there are any, and carries the
/// `Subject` line and, for a reply, the `In-Reply-To` and `References`
/// lines naming the message replied to.
pub proof fn lemma_message_addresses_every_recipient(p: ComposeParams, boundary: Seq<char>)
    ensures
        compose_message(p, boundary).take(address_line("To: "@, p.to@).len() as int) == address_line(
            "To: "@,
            p.to@,
        ),
        p.cc@.len() > 0 ==> occurs_in(compose_message(p, boundary), address_line("Cc: "@, p.cc@)),
        p.bcc@.len() > 0 ==> occurs_in(compose_message(p, boundary), address_line("Bcc: "@, p.bcc@)),
        occurs_in(compose_message(p, boundary), "Subject: "@ + p.subject@ + "\r\n"@),
        p.reply_to_message_id matches Some(id) ==> occurs_in(
            compose_message(p, boundary),
            "In-Reply-To: <"@ + id@ + ">\r\n"@ + "References: <"@ + id@ + ">\r\n"@,
        ),
{
    lemma_headers_lead(p, boundary);
    let m = compose_message(p, boundary);
    let h = compose_headers(p);
    let to = address_line("To: "@, p.to@);
    let cc = if p.cc@.len() > 0 { address_line("Cc: "@, p.cc@) } else { Seq::empty() };
    let bcc = if p.bcc@.len() > 0 { address_line("Bcc: "@, p.bcc@) } else { Seq::empty() };
    let subj = "Subject: "@ + p.subject@ + "\r\n"@;
    let tail = m.skip((to + cc + bcc + subj).len() as int);
    assert(h =~= to + cc + bcc + subj + h.skip((to + cc + bcc + subj).len() as int));
    assert(m =~= to + cc + bcc + subj + tail);
    assert(m.take(to.len() as int) =~= to);
    if p.cc@.len() > 0 {
        assert(m =~= to + cc + (bcc + subj + tail));
        lemma_occurs_between(to, cc, bcc + subj + tail);
    }
    if p.bcc@.len() > 0 {
        assert(m =~= (to + cc) + bcc + (subj + tail));
        lemma_occurs_between(to + cc, bcc, subj + tail);
    }
    assert(m =~= (to + cc + bcc) + subj + tail);
    lemma_occurs_between(to + cc + bcc, subj, tail);
    match p.reply_to_message_id {
        Some(id) => {
            let reply = "In-Reply-To: <"@ + id@ + ">\r\n"@ + "References: <"@ + id@ + ">\r\n"@;
            let rest = m.skip((to + cc + bcc + subj + reply).len() as int);
            assert(h =~= to + cc + bcc + subj + reply);
            assert(m =~= (to + cc + bcc + subj) + reply + rest);
            lemma_occurs_between(to + cc + bcc + subj, reply, rest);
        },
        None => {},
    }
}

fn compose_headers_text(p: &ComposeParams) -> (r: String)
    ensures
        r@ == compose_headers(*p),
{
    let mut h = String::from_str("To: ");
    let to = join_strings(p.to.as_slice(), ", ");
    h.append(to.as_str());
    h.append("\r\n");
    let ghost after_to = h@;
    if p.cc.len() > 0 {
        h.append("Cc: ");
        let cc = join_strings(p.cc.as_slice(), ", ");
        h.append(cc.as_str());
        h.append("\r\n");
    }
    assert(h@ =~= after_to + (if p.cc@.len() > 0 {
        "Cc: "@ + seq_join(string_views(p.cc@), ", "@) + "\r\n"@
    } else {
        Seq::empty()
    }));
    let ghost after_cc = h@;
    if p.bcc.len() > 0 {
        h.append("Bcc: ");
        let bcc = join_strings(p.bcc.as_slice(), ", ");
        h.append(bcc.as_str());
        h.append("\r\n");
    }
    assert(h@ =~= after_cc + (if p.bcc@.len() > 0 {
        "Bcc: "@ + seq_join(string_views(p.bcc@), ", "@) + "\r\n"@
    } else {
        Seq::empty()
    }));
    h.append("Subject: ");
    h.append(p.subject.as_str());
    h.append("\r\n");
    let ghost after_subject = h@;
    match &p.reply_to_message_id {
        Some(id) => {
            h.append("In-Reply-To: <");
            h.append(id.as_str());
            h.append(">\r\n");
            h.append("References: <");
            h.append(id.as_str());
            h.append(">\r\n");
        },
        None => {},
    }
    assert(h@ =~= after_subject + match p.reply_to_message_id {
        Some(id) => "In-Reply-To: <"@ + id@ + ">\r\n"@ + "References: <"@ + id@ + ">\r\n"@,
        None => Seq::<char>::empty(),
    });
    assert(h@ =~= compose_headers(*p));
    h
}

/// The message text for `params`, with `boundary` separating the parts of
/// an HTML message.
pub fn compose_message_text(params: &ComposeParams, boundary: &str) -> (r: String)
    ensures
        r@ == compose_message(*params, boundary@),
        r@.take(address_line("To: "@, params.to@).len() as int) == address_line("To: "@, params.to@),
        params.cc@.len() > 0 ==> occurs_in(r@, address_line("Cc: "@, params.cc@)),
        params.bcc@.len() > 0 ==> occurs_in(r@, address_line("Bcc: "@, params.bcc@)),
{
    proof {
        lemma_message_addresses_every_recipient(*params, boundary@);
    }
    let mut m = compose_headers_text(params);
    let body_text = string_or_empty(&params.body);
    assert(body_text@ == opt_text(params.body));
    match &params.body_html {
        Some(html) => {
            m.append("MIME-Version: 1.0\r\n");
            m.append("Content-Type: multipart/alternative; boundary=\"");
            m.append(boundary);
            m.append("\"\r\n");
            m.append("\r\n--");
            m.append(boundary);
            m.append("\r\nContent-Type: text/plain; charset=\"UTF-8\"\r\n\r\n");
            m.append(body_text.as_str());
            m.append("\r\n--");
            m.append(boundary);
            m.append("\r\nContent-Type: text/html; charset=\"UTF-8\"\r\n\r\n");
            m.append(html.as_str());
            m.append("\r\n--");
            m.append(boundary);
            m.append("--");
        },
        None => {
            m.append("Content-Type: text/plain; charset=\"UTF-8\"\r\n");
            m.append("\r\n");
            m.append(body_text.as_str());
        },
    }
    m
}


/// The `raw` field of a message composed with the given MIME boundary: its
/// text, UTF-8 encoded, in unpadded base64url. `None` only when the encoded
/// length would overflow `usize`.
pub fn raw_message_with_boundary(params: &ComposeParams, boundary: &str) -> (r: Option<String>)
    ensures
        r matches Some(s) ==> s@ == base64url_encoded(
            encode_utf8(compose_message(*params, boundary@)),
        ),
        encode_utf8(compose_message(*params, boundary@)).len() / 3 * 4 + 4 <= usize::MAX
            <==> r is Some,
        r matches Some(s) ==> decoded_text(s@) == compose_message(*params, boundary@),
{
    let text = compose_message_text(params, boundary);
    let bytes = text.as_str().as_bytes();
    if bytes.len() / 3 <= (usize::MAX - 4) / 4 {
        let raw = base64_url_encode(bytes);
        proof {
            let msg = compose_message(*params, boundary@);
            vstd::utf8::encode_utf8_valid_utf8(msg);
            vstd::utf8::encode_utf8_decode_utf8(msg);
        }
        Some(raw)
    } else {
        None
    }
}

/// The `raw` field of a message: a plain-text message is encoded as it is;
/// one with an HTML body gets a fresh random MIME boundary first.
pub fn build_raw_message(params: &ComposeParams) -> (r: Option<String>)
    ensures
        params.body_html.is_none() ==> raw_view(r) == raw_message_of(*params, Seq::empty()),
        params.body_html.is_some() ==> exists|b: Seq<char>| raw_view(r) == raw_message_of(*params, b),
        params.body_html.is_none() ==> (r matches Some(s) ==> decoded_text(s@) == compose_message(
            *params,
            Seq::empty(),
        )),
        r matches Some(s) ==> exists|b: Seq<char>| decoded_text(s@) == #[trigger] compose_message(*params, b),
{
    if params.body_html.is_some() {
        let boundary = new_mime_boundary();
        let r = raw_message_with_boundary(params, boundary.as_str());
        assert(raw_view(r) == raw_message_of(*params, boundary@));
        r
    } else {
        let r = raw_message_with_boundary(params, "");
        proof {
            reveal_strlit("");
        }
        assert(raw_view(r) == raw_message_of(*params, ""@));
        r
    }
}

/// The view of an optional encoded message.
pub open spec fn raw_view(r: Option<String>) -> Option<Seq<char>> {
    match r {
        Some(s) => Some(s@),
        None => None,
    }
}

/// What `raw_message_with_boundary` gives for a message and boundary.
pub open spec fn raw_message_of(p: ComposeParams, boundary: Seq<char>) -> Option<Seq<char>> {
    let bytes = encode_utf8(compose_message(p, boundary));
    if bytes.len() / 3 * 4 + 4 <= usize::MAX {
        Some(base64url_encoded(bytes))
    } else {
        None
    }
}

/// The ids of the messages touched by history records, in order, at most `limit`.
pub open spec fn history_ids(records: Seq<HistoryRecord>) -> Seq<Seq<char>>
    decreases records.len(),
{
    if records.len() == 0 {
        Seq::empty()
    } else {
        history_ids(records.drop_last()) + records.last().messages@.map_values(
            |m: Message| m.id@,
        )
    }
}

/// The ids of the messages named by history records, in order, keeping
/// at most `limit` of them.
pub fn history_message_ids(records: &Vec<HistoryRecord>, limit: usize) -> (r: Vec<String>)
    ensures
        string_views(r@) == history_ids(records@).take(
            if limit < history_ids(records@).len() { limit as int } else { history_ids(records@).len() as int },
        ),
{
    let mut ids: Vec<String> = Vec::new();
    let mut i: usize = 0;
    while i < records.len()
        invariant
            i <= records@.len(),
            string_views(ids@) == history_ids(records@.take(i as int)),
        decreases records.len() - i,
    {
        let ghost before = ids@;
        let msgs = &records[i].messages;
        let mut j: usize = 0;
        while j < msgs.len()
            invariant
                j <= msgs@.len(),
                *msgs == records@[i as int].messages,
                string_views(ids@) == string_views(before) + msgs@.take(j as int).map_values(
                    |m: Message| m.id@,
                ),
            decreases msgs.len() - j,
        {
            let ghost mid = ids@;
            ids.push(msgs[j].id.clone());
            assert(string_views(ids@) =~= string_views(mid).push(msgs@[j as int].id@));
            assert(msgs@.take(j + 1).map_values(|m: Message| m.id@) =~= msgs@.take(j as int).map_values(
                |m: Message| m.id@,
            ).push(msgs@[j as int].id@));
            j = j + 1;
        }
        assert(msgs@.take(msgs@.len() as int) =~= msgs@);
        assert(records@.take(i + 1).drop_last() =~= records@.take(i as int));
        i = i + 1;
    }
    assert(records@.take(records@.len() as int) =~= records@);
    let ghost all = string_views(ids@);
    let mut out: Vec<String> = Vec::new();
    let mut k: usize = 0;
    while k < ids.len() && k < limit
        invariant
            k <= ids@.len(),
            k <= limit,
            all == string_views(ids@),
            all.len() == ids@.len(),
            string_views(out@) == all.take(k as int),
        decreases ids.len() - k,
    {
        let ghost before = out@;
        out.push(ids[k].clone());
        assert(string_views(out@) =~= string_views(before).push(all[k as int]));
        assert(all.take(k + 1) =~= all.take(k as int).push(all[k as int]));
        k = k + 1;
    }
    assert(all == history_ids(records@));
    assert(k as int == (if limit < all.len() { limit as int } else { all.len() as int }));
    out
}

/// The sync cursor after an initial search: the history id of the first
/// message fetched.
pub fn first_history_id(messages: &Vec<Message>) -> (r: Option<String>)
    ensures
        messages@.len() == 0 ==> r.is_none(),
        messages@.len() > 0 ==> r == messages@[0].history_id,
{
    if messages.len() == 0 {
        None
    } else {
        clone_opt_string(&messages[0].history_id)
    }
}

/// Index namespace of Gmail messages.
pub const GMAIL_INDEX_NAMESPACE: &'static str = "gmail";

/// Base URL of the Gmail API.
pub const GMAIL_BASE: &'static str = "https://gmail.googleapis.com/gmail/v1";

/// A path under a mailbox (`me` for the authenticated user).
pub open spec fn user_path(user_id: Seq<char>, path: Seq<char>) -> Seq<char> {
    GMAIL_BASE@ + "/users/"@ + user_id + path
}

/// The URL of `path` under a mailbox.
pub fn user_url(user_id: &str, path: &str) -> (r: String)
    ensures
        r@ == user_path(user_id@, path@),
{
    let mut url = String::from_str(GMAIL_BASE);
    url.append("/users/");
    url.append(user_id);
    url.append(path);
    url
}

/// Query parameters of a message search.
pub open spec fn search_params(query: Seq<char>, max_results: Option<u32>, page_token: Option<&str>) -> Seq<
    (Seq<char>, Seq<char>),
> {
    seq![("q"@, enc(query))] + opt_param("maxResults"@, num_opt(max_results)) + opt_param(
        "pageToken"@,
        enc_opt(page_token),
    )
}

/// The URL searching a mailbox's messages.
pub fn search_url(user_id: &str, query: &str, max_results: Option<u32>, page_token: Option<&str>) -> (r: String)
    ensures
        r@ == user_path(user_id@, "/messages"@) + query_of(search_params(query@, max_results, page_token)),
{
    let mut params: Vec<(String, String)> = Vec::new();
    add_param(&mut params, "q", urlencoding(query));
    assert(pair_views(params@) =~= seq![("q"@, enc(query@))]);
    add_number(&mut params, "maxResults", max_results);
    add_encoded(&mut params, "pageToken", page_token);
    assert(pair_views(params@) =~= search_params(query@, max_results, page_token));
    let base = user_url(user_id, "/messages");
    url_with_query(base.as_str(), &params)
}

/// The URL listing a mailbox's drafts.
pub fn drafts_list_url(user_id: &str, max_results: Option<u32>, page_token: Option<&str>) -> (r: String)
    ensures
        r@ == user_path(user_id@, "/drafts"@) + query_of(
            opt_param("maxResults"@, num_opt(max_results)) + opt_param("pageToken"@, enc_opt(page_token)),
        ),
{
    let mut params: Vec<(String, String)> = Vec::new();
    assert(pair_views(params@) =~= Seq::<(Seq<char>, Seq<char>)>::empty());
    add_number(&mut params, "maxResults", max_results);
    add_encoded(&mut params, "pageToken", page_token);
    let base = user_url(user_id, "/drafts");
    url_with_query(base.as_str(), &params)
}

/// The URL listing a mailbox's history since a history id.
pub fn history_url(user_id: &str, start_history_id: &str, page_token: Option<&str>) -> (r: String)
    ensures
        r@ == user_path(user_id@, "/history"@) + query_of(
            seq![("startHistoryId"@, enc(start_history_id@))] + opt_param("pageToken"@, enc_opt(page_token)),
        ),
{
    let mut params: Vec<(String, String)> = Vec::new();
    add_param(&mut params, "startHistoryId", urlencoding(start_history_id));
    assert(pair_views(params@) =~= seq![("startHistoryId"@, enc(start_history_id@))]);
    add_encoded(&mut params, "pageToken", page_token);
    let base = user_url(user_id, "/history");
    url_with_query(base.as_str(), &params)
}

/// The URL fetching a whole message.
pub fn message_url(user_id: &str, message_id: &str) -> (r: String)
    ensures
        r@ == user_path(user_id@, "/messages/"@ + message_id@) + "?format=full"@,
{
    let mut path = String::from_str("/messages/");
    path.append(message_id);
    let mut url = user_url(user_id, path.as_str());
    url.append("?format=full");
    url
}

/// The URL fetching a whole thread.
pub fn thread_url(user_id: &str, thread_id: &str) -> (r: String)
    ensures
        r@ == user_path(user_id@, "/threads/"@ + thread_id@) + "?format=full"@,
{
    let mut path = String::from_str("/threads/");
    path.append(thread_id);
    let mut url = user_url(user_id, path.as_str());
    url.append("?format=full");
    url
}

} // verus!
