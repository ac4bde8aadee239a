//! Drive: index documents for files and changes, the sync cursor, and the
//! framing of multipart uploads.

use crate::text::{append_bytes, append_str_bytes, clone_opt_string, clone_strings, string_or_empty};
use crate::types::drive::FileUser;
use vstd::prelude::*;
use vstd::string::StringExecFns;
use vstd::utf8::encode_utf8;

use crate::auth::oauth2::pair_views;
use crate::http::query::{add_encoded, add_number, add_param, enc, enc_opt, num_opt, opt_param, query_of, url_with_query};
use crate::text::{new_mime_boundary, urlencoding};
use crate::error::{Error, Result};

verus! {

/// Document yielded by the Drive indexing implementation.
#[derive(Debug, Clone)]
pub struct DriveIndexDocument {
    pub file_id: String,
    pub name: String,
    pub mime_type: String,
    pub modified_time: Option<String>,
    pub owners: Vec<String>,
    pub parents: Vec<String>,
    pub web_view_link: Option<String>,
    pub size: Option<i64>,
}

/// The metadata of a Drive file that indexing reads.
#[derive(Debug, Clone)]
pub struct IndexableFile {
    pub id: Option<String>,
    pub name: Option<String>,
    pub mime_type: Option<String>,
    pub trashed: bool,
    pub modified_time: Option<String>,
    pub owners: Vec<FileUser>,
    pub parents: Vec<String>,
    pub web_view_link: Option<String>,
    pub size: Option<String>,
}

/// One entry of the Drive changes feed, as indexing reads it.
#[derive(Debug, Clone)]
pub struct IndexableChange {
    pub removed: bool,
    pub file: Option<IndexableFile>,
}

/// The value of a decimal `i64` text, if it is one.
pub uninterp spec fn parsed_i64(s: Seq<char>) -> Option<i64>;

/// Parses a decimal `i64`.
///
/// Calls `str::parse::<i64>` (std) and keeps the value on success; the
/// outcome is named `parsed_i64(s)`, a function of the text alone.
#[verifier::external_body]
fn parse_i64(s: &str) -> (r: Option<i64>)
    ensures
        r == parsed_i64(s@),
{
    s.parse::<i64>().ok()
}

/// The emails of the owners that have one, in order.
pub open spec fn owner_emails(owners: Seq<FileUser>) -> Seq<Seq<char>>
    decreases owners.len(),
{
    if owners.len() == 0 {
        Seq::empty()
    } else {
        owner_emails(owners.drop_last()) + match owners.last().email_address {
            Some(e) => seq![e@],
            None => Seq::empty(),
        }
    }
}

/// Whether a file yields an index document: it has an id and is not trashed.
pub open spec fn indexable(f: IndexableFile) -> bool {
    f.id.is_some() && !f.trashed
}

/// The index document of a file, field by field.
pub open spec fn index_doc_of(f: IndexableFile, d: DriveIndexDocument) -> bool {
    &&& d.file_id == f.id.unwrap()
    &&& d.name@ == match f.name {
        Some(n) => n@,
        None => Seq::<char>::empty(),
    }
    &&& d.mime_type@ == match f.mime_type {
        Some(m) => m@,
        None => Seq::<char>::empty(),
    }
    &&& d.modified_time == f.modified_time
    &&& d.owners@.map_values(|s: String| s@) == owner_emails(f.owners@)
    &&& d.parents@ == f.parents@
    &&& d.web_view_link == f.web_view_link
    &&& d.size == match f.size {
        Some(s) => parsed_i64(s@),
        None => None,
    }
}

/// Convert a file to its index document; trashed files and files without
/// an id yield none.
pub fn file_to_index_doc(file: &IndexableFile) -> (r: Option<DriveIndexDocument>)
    ensures
        r is Some <==> indexable(*file),
        r matches Some(d) ==> index_doc_of(*file, d),
{
    let file_id = match &file.id {
        Some(id) => id.clone(),
        None => return None,
    };
    if file.trashed {
        return None;
    }
    let mut owners: Vec<String> = Vec::new();
    let mut i: usize = 0;
    while i < file.owners.len()
        invariant
            i <= file.owners@.len(),
            owners@.map_values(|s: String| s@) == owner_emails(file.owners@.take(i as int)),
        decreases file.owners.len() - i,
    {
        let ghost before = owners@;
        assert(file.owners@.take(i + 1).drop_last() =~= file.owners@.take(i as int));
        assert(file.owners@.take(i + 1).last() == file.owners@[i as int]);
        match &file.owners[i].email_address {
            Some(e) => {
                owners.push(e.clone());
                assert(owners@.map_values(|s: String| s@) =~= before.map_values(|s: String| s@).push(e@));
            },
            None => {
                assert(owners@.map_values(|s: String| s@) =~= before.map_values(|s: String| s@) + Seq::<Seq<char>>::empty());
            },
        }
        i = i + 1;
    }
    assert(file.owners@.take(file.owners@.len() as int) =~= file.owners@);
    let size = match &file.size {
        Some(s) => parse_i64(s.as_str()),
        None => None,
    };
    Some(DriveIndexDocument {
        file_id,
        name: string_or_empty(&file.name),
        mime_type: string_or_empty(&file.mime_type),
        modified_time: clone_opt_string(&file.modified_time),
        owners,
        parents: clone_strings(&file.parents),
        web_view_link: clone_opt_string(&file.web_view_link),
        size,
    })
}

/// The files of changes that yield index documents, in order: removed
/// changes and changes without an indexable file are skipped.
pub open spec fn changed_files(changes: Seq<IndexableChange>) -> Seq<IndexableFile>
    decreases changes.len(),
{
    if changes.len() == 0 {
        Seq::empty()
    } else {
        let c = changes.last();
        changed_files(changes.drop_last()) + if !c.removed && c.file is Some && indexable(
            c.file.unwrap(),
        ) {
            seq![c.file.unwrap()]
        } else {
            Seq::empty()
        }
    }
}

/// The index documents of a page of changes.
pub fn changes_to_index_docs(changes: &Vec<IndexableChange>) -> (r: Vec<DriveIndexDocument>)
    ensures
        r@.len() == changed_files(changes@).len(),
        forall|k: int| 0 <= k < r@.len() ==> index_doc_of(changed_files(changes@)[k], #[trigger] r@[k]),
{
    let mut docs: Vec<DriveIndexDocument> = Vec::new();
    let mut i: usize = 0;
    while i < changes.len()
        invariant
            i <= changes@.len(),
            docs@.len() == changed_files(changes@.take(i as int)).len(),
            forall|k: int|
                0 <= k < docs@.len() ==> index_doc_of(
                    changed_files(changes@.take(i as int))[k],
                    #[trigger] docs@[k],
                ),
        decreases changes.len() - i,
    {
        let ghost prev = changed_files(changes@.take(i as int));
        assert(changes@.take(i + 1).drop_last() =~= changes@.take(i as int));
        assert(changes@.take(i + 1).last() == changes@[i as int]);
        let c = &changes[i];
        if !c.removed {
            match &c.file {
                Some(f) => match file_to_index_doc(f) {
                    Some(d) => {
                        docs.push(d);
                        assert(changed_files(changes@.take(i + 1)) =~= prev.push(*f));
                    },
                    None => {
                        assert(changed_files(changes@.take(i + 1)) =~= prev);
                    },
                },
                None => {
                    assert(changed_files(changes@.take(i + 1)) =~= prev);
                },
            }
        } else {
            assert(changed_files(changes@.take(i + 1)) =~= prev);
        }
        i = i + 1;
    }
    assert(changes@.take(changes@.len() as int) =~= changes@);
    docs
}

/// The cursor after an incremental sync: the new start page token when the
/// feed is exhausted, otherwise the token of the next page.
pub fn changes_cursor(next_page_token: Option<String>, new_start_page_token: Option<String>) -> (r: Option<String>)
    ensures
        r == match new_start_page_token {
            Some(t) => Some(t),
            None => next_page_token,
        },
{
    match new_start_page_token {
        Some(t) => Some(t),
        None => next_page_token,
    }
}

/// The body of a `multipart/related` upload: the JSON metadata part and the
/// content part, delimited by `boundary`.
pub open spec fn multipart_body(
    boundary: Seq<char>,
    metadata_json: Seq<char>,
    mime_type: Seq<char>,
    content: Seq<u8>,
) -> Seq<u8> {
    encode_utf8("--"@ + boundary + "\r\n"@) + encode_utf8(
        "Content-Type: application/json; charset=UTF-8\r\n\r\n"@,
    ) + encode_utf8(metadata_json) + encode_utf8("\r\n--"@ + boundary + "\r\n"@) + encode_utf8(
        "Content-Type: "@ + mime_type + "\r\n\r\n"@,
    ) + content + encode_utf8("\r\n--"@ + boundary + "--"@)
}

/// Frames a multipart upload body.
pub fn multipart_related_body(
    boundary: &str,
    metadata_json: &str,
    mime_type: &str,
    content: &[u8],
) -> (r: Vec<u8>)
    ensures
        r@ == multipart_body(boundary@, metadata_json@, mime_type@, content@),
{
    let mut body: Vec<u8> = Vec::new();
    let mut open = String::from_str("--");
    open.append(boundary);
    open.append("\r\n");
    append_str_bytes(&mut body, open.as_str());
    append_str_bytes(&mut body, "Content-Type: application/json; charset=UTF-8\r\n\r\n");
    append_str_bytes(&mut body, metadata_json);
    let mut mid = String::from_str("\r\n--");
    mid.append(boundary);
    mid.append("\r\n");
    append_str_bytes(&mut body, mid.as_str());
    let mut ct = String::from_str("Content-Type: ");
    ct.append(mime_type);
    ct.append("\r\n\r\n");
    append_str_bytes(&mut body, ct.as_str());
    append_bytes(&mut body, content);
    let mut close = String::from_str("\r\n--");
    close.append(boundary);
    close.append("--");
    append_str_bytes(&mut body, close.as_str());
    body
}

/// The `Content-Type` of a multipart upload with the given boundary.
pub fn multipart_content_type(boundary: &str) -> (r: String)
    ensures
        r@ == "multipart/related; boundary="@ + boundary@,
{
    let mut s = String::from_str("multipart/related; boundary=");
    s.append(boundary);
    s
}

/// The body of a multipart upload under a fresh random boundary, with that
/// boundary (for the `Content-Type` header).
pub fn new_upload_body(metadata_json: &str, mime_type: &str, content: &[u8]) -> (r: (String, Vec<u8>))
    ensures
        r.1@ == multipart_body(r.0@, metadata_json@, mime_type@, content@),
{
    let boundary = new_mime_boundary();
    let body = multipart_related_body(boundary.as_str(), metadata_json, mime_type, content);
    (boundary, body)
}

/// Files endpoint of the Drive API.
pub const DRIVE_FILES: &'static str = "https://www.googleapis.com/drive/v3/files";

/// Fields requested for file listings.
pub const LIST_FIELDS: &'static str = "nextPageToken,incompleteSearch,files(id,name,mimeType,description,starred,trashed,parents,webViewLink,webContentLink,createdTime,modifiedTime,size,owners,shared,driveId)";

/// The Drive query of a listing: the children of `parent_id` that are not
/// trashed, or every file not trashed.
pub open spec fn list_query(parent_id: Option<&str>) -> Seq<char> {
    match parent_id {
        Some(p) => "'"@ + p@ + "' in parents and trashed = false"@,
        None => "trashed = false"@,
    }
}

fn list_query_text(parent_id: Option<&str>) -> (r: String)
    ensures
        r@ == list_query(parent_id),
{
    match parent_id {
        Some(p) => {
            let mut q = String::from_str("'");
            q.append(p);
            q.append("' in parents and trashed = false");
            q
        },
        None => String::from_str("trashed = false"),
    }
}

/// Query parameters of a file listing.
pub open spec fn list_params(
    parent_id: Option<&str>,
    page_size: Option<u32>,
    page_token: Option<&str>,
    order_by: Option<&str>,
) -> Seq<(Seq<char>, Seq<char>)> {
    seq![("fields"@, enc(LIST_FIELDS@)), ("q"@, enc(list_query(parent_id)))] + opt_param(
        "pageSize"@,
        num_opt(page_size),
    ) + opt_param("pageToken"@, enc_opt(page_token)) + opt_param("orderBy"@, enc_opt(order_by))
}

/// The URL of a file listing (see `list_params`).
pub fn list_url(
    parent_id: Option<&str>,
    page_size: Option<u32>,
    page_token: Option<&str>,
    order_by: Option<&str>,
) -> (r: String)
    ensures
        r@ == DRIVE_FILES@ + query_of(list_params(parent_id, page_size, page_token, order_by)),
{
    let mut params: Vec<(String, String)> = Vec::new();
    add_param(&mut params, "fields", urlencoding(LIST_FIELDS));
    let q = list_query_text(parent_id);
    add_param(&mut params, "q", urlencoding(q.as_str()));
    assert(pair_views(params@) =~= seq![("fields"@, enc(LIST_FIELDS@)), ("q"@, enc(list_query(parent_id)))]);
    add_number(&mut params, "pageSize", page_size);
    add_encoded(&mut params, "pageToken", page_token);
    add_encoded(&mut params, "orderBy", order_by);
    assert(pair_views(params@) =~= list_params(parent_id, page_size, page_token, order_by));
    url_with_query(DRIVE_FILES, &params)
}

/// Query parameters of a file search.
pub open spec fn search_params(query: Seq<char>, page_size: Option<u32>, page_token: Option<&str>) -> Seq<
    (Seq<char>, Seq<char>),
> {
    seq![("q"@, enc(query)), ("fields"@, enc(LIST_FIELDS@))] + opt_param("pageSize"@, num_opt(page_size))
        + opt_param("pageToken"@, enc_opt(page_token))
}

/// The URL of a file search in Drive query syntax (see `search_params`).
pub fn search_url(query: &str, page_size: Option<u32>, page_token: Option<&str>) -> (r: String)
    ensures
        r@ == DRIVE_FILES@ + query_of(search_params(query@, page_size, page_token)),
{
    let mut params: Vec<(String, String)> = Vec::new();
    add_param(&mut params, "q", urlencoding(query));
    add_param(&mut params, "fields", urlencoding(LIST_FIELDS));
    assert(pair_views(params@) =~= seq![("q"@, enc(query@)), ("fields"@, enc(LIST_FIELDS@))]);
    add_number(&mut params, "pageSize", page_size);
    add_encoded(&mut params, "pageToken", page_token);
    assert(pair_views(params@) =~= search_params(query@, page_size, page_token));
    url_with_query(DRIVE_FILES, &params)
}

/// Fields requested for single-file metadata.
pub const FILE_FIELDS: &'static str = "id,name,mimeType,description,starred,trashed,parents,webViewLink,webContentLink,iconLink,thumbnailLink,createdTime,modifiedTime,size,owners,shared,permissions,version,md5Checksum,sha1Checksum,sha256Checksum,originalFilename,fullFileExtension,fileExtension,quotaBytesUsed,driveId,capabilities,headRevisionId";

/// Fields requested for the changes feed.
pub const CHANGES_FIELDS: &'static str = "nextPageToken,newStartPageToken,changes(kind,type,time,removed,fileId,file(id,name,mimeType,modifiedTime,owners,parents,webViewLink,size,trashed))";

/// A file's URL with the single-file fields requested (get, rename, trash).
pub fn file_url(file_id: &str) -> (r: String)
    ensures
        r@ == DRIVE_FILES@ + "/"@ + file_id@ + query_of(seq![("fields"@, enc(FILE_FIELDS@))]),
{
    let mut base = String::from_str(DRIVE_FILES);
    base.append("/");
    base.append(file_id);
    with_file_fields(base.as_str())
}

/// Query parameters of a move: the new parent, the fields, and the old
/// parent to leave when given.
pub open spec fn move_params(new_parent_id: Seq<char>, old_parent_id: Option<&str>) -> Seq<(Seq<char>, Seq<char>)> {
    seq![("addParents"@, enc(new_parent_id)), ("fields"@, enc(FILE_FIELDS@))] + opt_param(
        "removeParents"@,
        enc_opt(old_parent_id),
    )
}

/// The URL that moves a file under a new parent.
pub fn move_url(file_id: &str, new_parent_id: &str, old_parent_id: Option<&str>) -> (r: String)
    ensures
        r@ == DRIVE_FILES@ + "/"@ + file_id@ + query_of(move_params(new_parent_id@, old_parent_id)),
{
    let mut base = String::from_str(DRIVE_FILES);
    base.append("/");
    base.append(file_id);
    let mut params: Vec<(String, String)> = Vec::new();
    add_param(&mut params, "addParents", urlencoding(new_parent_id));
    add_param(&mut params, "fields", urlencoding(FILE_FIELDS));
    assert(pair_views(params@) =~= seq![("addParents"@, enc(new_parent_id@)), ("fields"@, enc(FILE_FIELDS@))]);
    add_encoded(&mut params, "removeParents", old_parent_id);
    assert(pair_views(params@) =~= move_params(new_parent_id@, old_parent_id));
    url_with_query(base.as_str(), &params)
}

/// The URL that shares a file, with or without a notification email.
pub fn share_url(file_id: &str, send_notification: bool) -> (r: String)
    ensures
        r@ == DRIVE_FILES@ + "/"@ + file_id@ + "/permissions?sendNotificationEmail="@ + (if send_notification {
            "true"@
        } else {
            "false"@
        }),
{
    let mut url = String::from_str(DRIVE_FILES);
    url.append("/");
    url.append(file_id);
    url.append("/permissions?sendNotificationEmail=");
    url.append(if send_notification { "true" } else { "false" });
    url
}

/// Query parameters of one page of the changes feed.
pub open spec fn changes_params(page_token: Seq<char>, page_size: Option<u32>) -> Seq<(Seq<char>, Seq<char>)> {
    seq![("pageToken"@, enc(page_token)), ("fields"@, enc(CHANGES_FIELDS@))] + opt_param(
        "pageSize"@,
        num_opt(page_size),
    ) + seq![("includeItemsFromAllDrives"@, "true"@), ("supportsAllDrives"@, "true"@)]
}

/// The URL of one page of the changes feed, shared drives included.
pub fn changes_url(page_token: &str, page_size: Option<u32>) -> (r: String)
    ensures
        r@ == "https://www.googleapis.com/drive/v3/changes"@ + query_of(changes_params(page_token@, page_size)),
{
    let mut params: Vec<(String, String)> = Vec::new();
    add_param(&mut params, "pageToken", urlencoding(page_token));
    add_param(&mut params, "fields", urlencoding(CHANGES_FIELDS));
    assert(pair_views(params@) =~= seq![("pageToken"@, enc(page_token@)), ("fields"@, enc(CHANGES_FIELDS@))]);
    add_number(&mut params, "pageSize", page_size);
    let ghost mid = pair_views(params@);
    add_param(&mut params, "includeItemsFromAllDrives", String::from_str("true"));
    add_param(&mut params, "supportsAllDrives", String::from_str("true"));
    assert(pair_views(params@) =~= changes_params(page_token@, page_size));
    url_with_query("https://www.googleapis.com/drive/v3/changes", &params)
}

/// The start page token a fresh sync begins from; its absence is
/// `Error::Other("missing startPageToken")`.
pub fn start_page_token(token: Option<String>) -> (r: Result<String>)
    ensures
        match token {
            Some(t) => r == Ok::<String, Error>(t),
            None => r matches Err(Error::Other(m)) && m@ == "missing startPageToken"@,
        },
{
    match token {
        Some(t) => Ok(t),
        None => Err(Error::Other(String::from_str("missing startPageToken"))),
    }
}

/// A Drive URL with the single-file fields requested: `base` followed by
/// `?fields=` and the encoded `FILE_FIELDS`.
fn with_file_fields(base: &str) -> (r: String)
    ensures
        r@ == base@ + query_of(seq![("fields"@, enc(FILE_FIELDS@))]),
{
    let mut params: Vec<(String, String)> = Vec::new();
    add_param(&mut params, "fields", urlencoding(FILE_FIELDS));
    assert(pair_views(params@) =~= seq![("fields"@, enc(FILE_FIELDS@))]);
    url_with_query(base, &params)
}

/// The URL creating a file from metadata alone (a folder).
pub fn create_file_url() -> (r: String)
    ensures
        r@ == DRIVE_FILES@ + query_of(seq![("fields"@, enc(FILE_FIELDS@))]),
{
    with_file_fields(DRIVE_FILES)
}

/// The URL copying a file.
pub fn copy_url(file_id: &str) -> (r: String)
    ensures
        r@ == DRIVE_FILES@ + "/"@ + file_id@ + "/copy"@ + query_of(seq![("fields"@, enc(FILE_FIELDS@))]),
{
    let mut base = String::from_str(DRIVE_FILES);
    base.append("/");
    base.append(file_id);
    base.append("/copy");
    with_file_fields(base.as_str())
}

/// The multipart upload endpoint.
pub const UPLOAD_FILES: &'static str = "https://www.googleapis.com/upload/drive/v3/files";

/// The URL of a multipart upload (metadata and content in one request).
pub fn upload_url() -> (r: String)
    ensures
        r@ == UPLOAD_FILES@ + query_of(seq![("uploadType"@, "multipart"@), ("fields"@, enc(FILE_FIELDS@))]),
{
    let mut params: Vec<(String, String)> = Vec::new();
    add_param(&mut params, "uploadType", String::from_str("multipart"));
    add_param(&mut params, "fields", urlencoding(FILE_FIELDS));
    assert(pair_views(params@) =~= seq![("uploadType"@, "multipart"@), ("fields"@, enc(FILE_FIELDS@))]);
    url_with_query(UPLOAD_FILES, &params)
}

/// Fields requested for a file's permissions.
pub const PERMISSION_FIELDS: &'static str = "permissions(id,type,role,emailAddress,displayName,domain,expirationTime,deleted)";

/// The URL listing a file's permissions.
pub fn permissions_url(file_id: &str) -> (r: String)
    ensures
        r@ == DRIVE_FILES@ + "/"@ + file_id@ + "/permissions"@ + query_of(seq![("fields"@, enc(PERMISSION_FIELDS@))]),
{
    let mut base = String::from_str(DRIVE_FILES);
    base.append("/");
    base.append(file_id);
    base.append("/permissions");
    let mut params: Vec<(String, String)> = Vec::new();
    add_param(&mut params, "fields", urlencoding(PERMISSION_FIELDS));
    assert(pair_views(params@) =~= seq![("fields"@, enc(PERMISSION_FIELDS@))]);
    url_with_query(base.as_str(), &params)
}

/// The URL listing shared drives.
pub fn drives_url(page_token: Option<&str>) -> (r: String)
    ensures
        r@ == "https://www.googleapis.com/drive/v3/drives"@ + query_of(opt_param("pageToken"@, enc_opt(page_token))),
{
    let mut params: Vec<(String, String)> = Vec::new();
    assert(pair_views(params@) =~= Seq::<(Seq<char>, Seq<char>)>::empty());
    add_encoded(&mut params, "pageToken", page_token);
    assert(pair_views(params@) =~= opt_param("pageToken"@, enc_opt(page_token)));
    url_with_query("https://www.googleapis.com/drive/v3/drives", &params)
}

/// The URL exporting a Google Workspace file to `mime_type`.
pub fn export_url(file_id: &str, mime_type: &str) -> (r: String)
    ensures
        r@ == DRIVE_FILES@ + "/"@ + file_id@ + "/export?mimeType="@ + enc(mime_type@),
{
    let mut url = String::from_str(DRIVE_FILES);
    url.append("/");
    url.append(file_id);
    url.append("/export?mimeType=");
    let m = urlencoding(mime_type);
    url.append(m.as_str());
    url
}

/// The URL of the changes feed's start page token.
pub const START_PAGE_TOKEN_URL: &'static str = "https://www.googleapis.com/drive/v3/changes/startPageToken";

/// Index namespace of Drive items.
pub const DRIVE_INDEX_NAMESPACE: &'static str = "drive";

} // verus!
