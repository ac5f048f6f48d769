//! Item lifecycle: the requests that read, change, trash and delete items,
//! the payloads that create attachments, and the decisions of the file
//! upload protocol.
use vstd::prelude::*;
use crate::client::{is_success, pairs_view, target_prefix_spec, trim_end_slashes, trim_slashes, ApiRequest, HttpMethod, ZoteroClient};
use crate::errors::{rejects, ZoteroApiError};
use crate::json::JsonValue;
use crate::keys::{ItemKey, LibraryVersion};
use crate::notes::{member_names, single_object};
use crate::objects::ZoteroItem;
use crate::paths::file_name;
use crate::text::{decimal, decimal_string, push_char, push_decimal, push_str};
use crate::types::{ItemType, LinkMode};

verus! {

/// Whether an item goes to the trash or comes back from it.
#[derive(Copy, Clone, Debug, Eq, PartialEq)]
pub enum TrashAction {
    MoveToTrash,
    Restore,
}

impl TrashAction {
    /// Whether the action trashes the item.
    pub fn is_deleted(self) -> (b: bool)
        ensures
            b == (self is MoveToTrash),
    {
        match self {
            TrashAction::MoveToTrash => true,
            TrashAction::Restore => false,
        }
    }
}

/// The path of an item.
pub open spec fn item_path(key: Seq<char>) -> Seq<char> {
    "/items/"@ + key
}

/// The path of an item.
pub fn item_path_exec(key: &str) -> (r: String)
    ensures
        r@ == item_path(key@),
{
    let mut p = "/items/".to_owned();
    push_str(&mut p, key);
    p
}

/// The label of a missing item in its not-found error.
pub fn item_not_found_label(key: &str) -> (r: String)
    ensures
        r@ == "Item "@ + key@,
{
    let mut p = "Item ".to_owned();
    push_str(&mut p, key);
    p
}

/// The path of an item's children.
pub fn children_path(key: &str) -> (r: String)
    ensures
        r@ == item_path(key@) + "/children"@,
{
    let mut p = item_path_exec(key);
    push_str(&mut p, "/children");
    p
}

/// The path of an item's indexed full text.
pub fn fulltext_path(key: &str) -> (r: String)
    ensures
        r@ == item_path(key@) + "/fulltext"@,
{
    let mut p = item_path_exec(key);
    push_str(&mut p, "/fulltext");
    p
}

/// The path of an attachment's file view URL.
pub fn file_view_url_path(key: &str) -> (r: String)
    ensures
        r@ == item_path(key@) + "/file/view/url"@,
{
    let mut p = item_path_exec(key);
    push_str(&mut p, "/file/view/url");
    p
}

impl ZoteroClient {
    /// The request of the `limit` most recently modified items, notes left
    /// out.
    pub fn recent_items_request(&self, limit: usize) -> (r: ApiRequest)
        ensures
            r.method == HttpMethod::Get && r.path@ == "/items"@ && r.target_scoped,
            r.unmodified_since_version is None && r.json_body is None,
            pairs_view(r.query@) == seq![
                ("limit"@, decimal(limit as nat)),
                ("sort"@, "dateModified"@),
                ("direction"@, "desc"@),
                ("itemType"@, "-note"@),
            ],
    {
        let req = self.get("/items");
        assert(pairs_view(req.query@) =~= Seq::empty());
        let lim = decimal_string(limit as u64);
        let req = req.query("limit", lim.as_str()).query("sort", "dateModified").query("direction", "desc").query(
            "itemType",
            "-note",
        );
        assert(pairs_view(req.query@) =~= seq![
            ("limit"@, decimal(limit as nat)),
            ("sort"@, "dateModified"@),
            ("direction"@, "desc"@),
            ("itemType"@, "-note"@),
        ]);
        req
    }

    /// The request of up to `limit` top-level items.
    pub fn top_items_request(&self, limit: usize) -> (r: ApiRequest)
        ensures
            r.method == HttpMethod::Get && r.path@ == "/items/top"@ && r.target_scoped,
            r.unmodified_since_version is None && r.json_body is None,
            pairs_view(r.query@) == seq![("limit"@, decimal(limit as nat))],
    {
        let req = self.get("/items/top");
        assert(pairs_view(req.query@) =~= Seq::empty());
        let lim = decimal_string(limit as u64);
        let req = req.query("limit", lim.as_str());
        assert(pairs_view(req.query@) =~= seq![("limit"@, decimal(limit as nat))]);
        req
    }

    /// The URL of the whole library's items without notes, most recently
    /// modified first, which is fetched page by page.
    pub fn all_items_url(&self) -> (r: String)
        ensures
            r@ == trim_slashes(self@.base_url) + target_prefix_spec(self@.target)
                + "/items?itemType=-note&sort=dateModified&direction=desc"@,
    {
        let mut url = trim_end_slashes(self.base_url());
        let prefix = self.target_prefix();
        push_str(&mut url, prefix.as_str());
        push_str(&mut url, "/items?itemType=-note&sort=dateModified&direction=desc");
        url
    }

    /// The URL of an item's stored file.
    pub fn item_file_url(&self, key: &str) -> (r: String)
        ensures
            r@ == trim_slashes(self@.base_url) + target_prefix_spec(self@.target) + "/items/"@ + key@
                + "/file"@,
    {
        let mut url = trim_end_slashes(self.base_url());
        let prefix = self.target_prefix();
        push_str(&mut url, prefix.as_str());
        push_str(&mut url, "/items/");
        push_str(&mut url, key);
        push_str(&mut url, "/file");
        url
    }

    /// The request that deletes an item, guarded by the version it was read
    /// at.
    pub fn delete_item_request(&self, key: &str, version: LibraryVersion) -> (r: ApiRequest)
        ensures
            r.method == HttpMethod::Delete && r.path@ == item_path(key@) && r.target_scoped,
            r.query@.len() == 0 && r.json_body is None,
            r.unmodified_since_version == Some(version@),
    {
        let path = item_path_exec(key);
        self.delete_req(path.as_str()).unmodified_since_version(version.as_u64())
    }
}

/// The items not filed in any collection, in order.
pub fn unfiled_items(items: Vec<ZoteroItem>) -> (r: Vec<ZoteroItem>)
    ensures
        r@ == items@.filter(|i: ZoteroItem| i.data.collections@.len() == 0),
{
    let ghost src = items@;
    let ghost pred = |i: ZoteroItem| i.data.collections@.len() == 0;
    let n = items.len();
    let mut rest = items;
    let mut out: Vec<ZoteroItem> = Vec::new();
    let mut i: usize = 0;
    assert(src.take(0) =~= Seq::<ZoteroItem>::empty());
    proof {
        reveal(Seq::filter);
    }
    while i < n
        invariant
            n == src.len(),
            i <= n,
            rest@ == src.skip(i as int),
            pred == (|i: ZoteroItem| i.data.collections@.len() == 0),
            out@ == src.take(i as int).filter(pred),
        decreases n - i,
    {
        let x = rest.remove(0);
        assert(x == src[i as int]);
        assert(rest@ == src.skip(i + 1));
        proof {
            reveal(Seq::filter);
            assert(src.take(i + 1).drop_last() =~= src.take(i as int));
            assert(src.take(i + 1).last() == x);
        }
        if x.data.collections.len() == 0 {
            out.push(x);
        }
        i = i + 1;
    }
    assert(src.take(n as int) =~= src);
    out
}

/// The two members `key: bool` and `version: n` of an update.
pub open spec fn flag_and_version(ms: Seq<(String, JsonValue)>, key: Seq<char>, flag: bool, version: u64) -> bool {
    &&& member_names(ms) == seq![key, "version"@]
    &&& ms[0].1 == JsonValue::Bool(flag)
    &&& ms[1].1 is Number && ms[1].1->Number_0@ == decimal(version as nat)
}

/// The body of the update that trashes or restores an item read at
/// `version`: `deleted` and `version`.
pub fn trash_patch(action: TrashAction, version: LibraryVersion) -> (r: JsonValue)
    ensures
        r is Object && flag_and_version(r->Object_0@, "deleted"@, action is MoveToTrash, version@),
{
    let mut ms: Vec<(String, JsonValue)> = Vec::new();
    ms.push(("deleted".to_owned(), JsonValue::Bool(action.is_deleted())));
    ms.push(("version".to_owned(), JsonValue::Number(decimal_string(version.as_u64()))));
    assert(member_names(ms@) =~= seq!["deleted"@, "version"@]);
    JsonValue::Object(ms)
}

/// The indexed text of an item: the string `content` of the answer, or the
/// empty text.
pub fn fulltext_content(data: &JsonValue) -> (r: String)
    ensures
        r@ == match data.get_spec("content"@) {
            Some(JsonValue::String(s)) => s@,
            _ => Seq::empty(),
        },
{
    match data.get("content") {
        Some(JsonValue::String(s)) => s.clone(),
        _ => String::new(),
    }
}

/// The content type of an attachment: the one given, or `application/pdf`.
pub open spec fn content_type_or_pdf(ct: Option<Seq<char>>) -> Seq<char> {
    match ct {
        Some(c) => c,
        None => "application/pdf"@,
    }
}

/// The members of a linked attachment: `itemType` `attachment`,
/// `parentItem`, `title`, `linkMode` `imported_file`, `path` and
/// `contentType`.
pub open spec fn link_members(parent: Seq<char>, title: Seq<char>, path: Seq<char>, ct: Option<Seq<char>>, ms: Seq<(String, JsonValue)>) -> bool {
    &&& member_names(ms) == seq!["itemType"@, "parentItem"@, "title"@, "linkMode"@, "path"@, "contentType"@]
    &&& ms[0].1 is String && ms[0].1->String_0@ == "attachment"@
    &&& ms[1].1 is String && ms[1].1->String_0@ == parent
    &&& ms[2].1 is String && ms[2].1->String_0@ == title
    &&& ms[3].1 is String && ms[3].1->String_0@ == "imported_file"@
    &&& ms[4].1 is String && ms[4].1->String_0@ == path
    &&& ms[5].1 is String && ms[5].1->String_0@ == content_type_or_pdf(ct)
}

/// The body that attaches a file or URL to an item by reference.
pub fn attach_link_payload(parent: &str, title: &str, file_path_or_url: &str, content_type: Option<&str>) -> (r: JsonValue)
    ensures
        single_object(r) is Some,
        link_members(
            parent@,
            title@,
            file_path_or_url@,
            match content_type {
                Some(c) => Some(c@),
                None => None,
            },
            single_object(r)->0,
        ),
{
    let ct = match content_type {
        Some(c) => c,
        None => "application/pdf",
    };
    let mut ms: Vec<(String, JsonValue)> = Vec::new();
    ms.push(("itemType".to_owned(), JsonValue::String(ItemType::Attachment.as_str().to_owned())));
    ms.push(("parentItem".to_owned(), JsonValue::String(parent.to_owned())));
    ms.push(("title".to_owned(), JsonValue::String(title.to_owned())));
    ms.push(("linkMode".to_owned(), JsonValue::String(LinkMode::ImportedFile.as_str().to_owned())));
    ms.push(("path".to_owned(), JsonValue::String(file_path_or_url.to_owned())));
    ms.push(("contentType".to_owned(), JsonValue::String(ct.to_owned())));
    assert(member_names(ms@) =~= seq!["itemType"@, "parentItem"@, "title"@, "linkMode"@, "path"@, "contentType"@]);
    let mut items: Vec<JsonValue> = Vec::new();
    items.push(JsonValue::Object(ms));
    JsonValue::Array(items)
}

// ---------------------------------------------------------------------------
// File import

/// The message of a path without a file name.
pub open spec fn no_filename_message() -> Seq<char> {
    "path has no valid UTF-8 filename"@
}

/// The file name under which a file is imported.
pub fn import_filename(path: &str) -> (r: Result<String, ZoteroApiError>)
    ensures
        match file_name(path@) {
            Some(n) => r matches Ok(s) && s@ == n,
            None => rejects(r, no_filename_message()),
        },
{
    match crate::paths::path_file_name(path) {
        Some(n) => Ok(n),
        None => Err(ZoteroApiError::InputRejected("path has no valid UTF-8 filename".to_owned())),
    }
}

/// The members of an imported attachment: `itemType` `attachment`,
/// `title`, `linkMode` `imported_file`, `filename`, `contentType`, and
/// `parentItem` when there is a parent.
pub open spec fn import_members(parent: Option<Seq<char>>, title: Seq<char>, filename: Seq<char>, ct: Option<Seq<char>>, ms: Seq<(String, JsonValue)>) -> bool {
    &&& member_names(ms) == seq!["itemType"@, "title"@, "linkMode"@, "filename"@, "contentType"@] + match parent {
        Some(_) => seq!["parentItem"@],
        None => Seq::empty(),
    }
    &&& ms[0].1 is String && ms[0].1->String_0@ == "attachment"@
    &&& ms[1].1 is String && ms[1].1->String_0@ == title
    &&& ms[2].1 is String && ms[2].1->String_0@ == "imported_file"@
    &&& ms[3].1 is String && ms[3].1->String_0@ == filename
    &&& ms[4].1 is String && ms[4].1->String_0@ == content_type_or_pdf(ct)
    &&& parent matches Some(p) ==> ms[5].1 is String && ms[5].1->String_0@ == p
}

/// The body that creates the attachment record of an imported file.
pub fn import_attachment_payload(parent: Option<&str>, title: &str, filename: &str, content_type: Option<&str>) -> (r: JsonValue)
    ensures
        single_object(r) is Some,
        import_members(
            match parent {
                Some(p) => Some(p@),
                None => None,
            },
            title@,
            filename@,
            match content_type {
                Some(c) => Some(c@),
                None => None,
            },
            single_object(r)->0,
        ),
{
    let ct = match content_type {
        Some(c) => c,
        None => "application/pdf",
    };
    let mut ms: Vec<(String, JsonValue)> = Vec::new();
    ms.push(("itemType".to_owned(), JsonValue::String(ItemType::Attachment.as_str().to_owned())));
    ms.push(("title".to_owned(), JsonValue::String(title.to_owned())));
    ms.push(("linkMode".to_owned(), JsonValue::String(LinkMode::ImportedFile.as_str().to_owned())));
    ms.push(("filename".to_owned(), JsonValue::String(filename.to_owned())));
    ms.push(("contentType".to_owned(), JsonValue::String(ct.to_owned())));
    match parent {
        Some(p) => {
            ms.push(("parentItem".to_owned(), JsonValue::String(p.to_owned())));
            assert(member_names(ms@) =~= seq!["itemType"@, "title"@, "linkMode"@, "filename"@, "contentType"@]
                + seq!["parentItem"@]);
        },
        None => {
            assert(member_names(ms@) =~= seq!["itemType"@, "title"@, "linkMode"@, "filename"@, "contentType"@]
                + Seq::<Seq<char>>::empty());
        },
    }
    let mut items: Vec<JsonValue> = Vec::new();
    items.push(JsonValue::Object(ms));
    JsonValue::Array(items)
}

/// The MD5 digest of `data` (RFC 1321), as the `md-5` crate computes it.
pub uninterp spec fn md5_digest(data: Seq<u8>) -> Seq<u8>;

/// `md5::Md5`: the digest of `data`, sixteen bytes.
#[verifier::external_body]
fn md5_bytes(data: &[u8]) -> (r: Vec<u8>)
    ensures
        r@ == md5_digest(data@),
        r@.len() == 16,
{
    let mut hasher = <md5::Md5 as md5::Digest>::new();
    md5::Digest::update(&mut hasher, data);
    md5::Digest::finalize(hasher).to_vec()
}

/// The lowercase hexadecimal digit of `d < 16`.
pub open spec fn hex_lower(d: int) -> char {
    if d < 10 {
        (48 + d) as char
    } else {
        (87 + d) as char
    }
}

/// Bytes written as two lowercase hexadecimal digits each.
pub open spec fn hex_string(bs: Seq<u8>) -> Seq<char>
    decreases bs.len(),
{
    if bs.len() == 0 {
        Seq::empty()
    } else {
        hex_string(bs.drop_last()) + seq![hex_lower(bs.last() as int / 16), hex_lower(bs.last() as int % 16)]
    }
}

/// The value of a lowercase hexadecimal digit.
pub open spec fn lower_hex_value(c: char) -> int {
    if '0' <= c && c <= '9' {
        c as int - '0' as int
    } else {
        c as int - 'a' as int + 10
    }
}

/// `c` is one of `0`-`9` and `a`-`f`.
pub open spec fn is_lower_hex_digit(c: char) -> bool {
    ('0' <= c && c <= '9') || ('a' <= c && c <= 'f')
}

/// Characters `2k` and `2k + 1` of `s` are lowercase hexadecimal digits
/// whose values, the first taken as the high half, make up the byte `b`.
pub open spec fn hex_pair_reads(s: Seq<char>, k: int, b: u8) -> bool {
    &&& 0 <= 2 * k && 2 * k + 1 < s.len()
    &&& is_lower_hex_digit(s[2 * k])
    &&& is_lower_hex_digit(s[2 * k + 1])
    &&& 16 * lower_hex_value(s[2 * k]) + lower_hex_value(s[2 * k + 1]) == b as int
}

/// Bytes in hexadecimal read back: each byte gives two lowercase hexadecimal
/// digits, the high half first, whose values make up the byte.
pub proof fn lemma_hex_string_reads_back(bs: Seq<u8>)
    ensures
        hex_string(bs).len() == 2 * bs.len(),
        forall|k: int| 0 <= k < bs.len() ==> #[trigger] hex_pair_reads(hex_string(bs), k, bs[k]),
    decreases bs.len(),
{
    if bs.len() > 0 {
        let p = bs.drop_last();
        lemma_hex_string_reads_back(p);
        let b = bs.last();
        let hi = b as int / 16;
        let lo = b as int % 16;
        let s = hex_string(bs);
        let t = hex_string(p);
        assert(s == t + seq![hex_lower(hi), hex_lower(lo)]);
        assert(0 <= hi < 16 && 0 <= lo < 16 && 16 * hi + lo == b as int);
        assert forall|k: int| 0 <= k < bs.len() implies #[trigger] hex_pair_reads(s, k, bs[k]) by {
            if k < p.len() {
                assert(hex_pair_reads(t, k, p[k]));
                assert(s[2 * k] == t[2 * k]);
                assert(s[2 * k + 1] == t[2 * k + 1]);
                assert(bs[k] == p[k]);
            } else {
                assert(k == p.len());
                assert(s[2 * k] == hex_lower(hi));
                assert(s[2 * k + 1] == hex_lower(lo));
                assert(bs[k] == b);
            }
        }
    }
}

fn hex_digit(d: u8) -> (c: char)
    requires
        d < 16,
    ensures
        c == hex_lower(d as int),
{
    if d < 10 {
        (d + 48) as char
    } else {
        (d + 87) as char
    }
}

/// The MD5 digest of a file's bytes in lowercase hexadecimal, as the upload
/// protocol sends it.
pub fn md5_hex(data: &[u8]) -> (r: String)
    ensures
        r@ == hex_string(md5_digest(data@)),
        r@.len() == 32,
{
    let digest = md5_bytes(data);
    let mut s = String::new();
    let mut i: usize = 0;
    assert(digest@.take(0) =~= Seq::<u8>::empty());
    while i < digest.len()
        invariant
            i <= digest@.len(),
            digest@.len() == 16,
            s@ == hex_string(digest@.take(i as int)),
            s@.len() == 2 * i,
        decreases digest@.len() - i,
    {
        let b = digest[i];
        push_char(&mut s, hex_digit(b / 16));
        push_char(&mut s, hex_digit(b % 16));
        assert(digest@.take(i + 1).drop_last() =~= digest@.take(i as int));
        assert(digest@.take(i + 1).last() == b);
        i = i + 1;
    }
    assert(digest@.take(16) =~= digest@);
    s
}

/// The form of an upload ticket request: `md5`, `filename`, `filesize` and
/// `mtime`.
pub fn upload_form(md5: &str, filename: &str, filesize: usize, mtime: u64) -> (r: Vec<(String, String)>)
    ensures
        pairs_view(r@) == seq![
            ("md5"@, md5@),
            ("filename"@, filename@),
            ("filesize"@, decimal(filesize as nat)),
            ("mtime"@, decimal(mtime as nat)),
        ],
{
    let mut f: Vec<(String, String)> = Vec::new();
    f.push(("md5".to_owned(), md5.to_owned()));
    f.push(("filename".to_owned(), filename.to_owned()));
    f.push(("filesize".to_owned(), decimal_string(filesize as u64)));
    f.push(("mtime".to_owned(), decimal_string(mtime)));
    assert(pairs_view(f@) =~= seq![
        ("md5"@, md5@),
        ("filename"@, filename@),
        ("filesize"@, decimal(filesize as nat)),
        ("mtime"@, decimal(mtime as nat)),
    ]);
    f
}

/// The form that completes an upload.
pub fn finalize_form(upload_key: &str) -> (r: Vec<(String, String)>)
    ensures
        pairs_view(r@) == seq![("upload"@, upload_key@)],
{
    let mut f: Vec<(String, String)> = Vec::new();
    f.push(("upload".to_owned(), upload_key.to_owned()));
    assert(pairs_view(f@) =~= seq![("upload"@, upload_key@)]);
    f
}

/// The server already holds the file: the ticket answer is an object with
/// an `exists` member.
pub open spec fn already_stored_spec(body: JsonValue) -> bool {
    match body {
        JsonValue::Object(ms) => exists|i: int| #![trigger ms@[i]] 0 <= i < ms@.len() && ms@[i].0@ == "exists"@,
        _ => false,
    }
}

/// Whether the ticket answer says that the file is already stored.
pub fn already_stored(body: &JsonValue) -> (b: bool)
    ensures
        b == already_stored_spec(*body),
{
    match body {
        JsonValue::Object(ms) => {
            let mut i: usize = 0;
            while i < ms.len()
                invariant
                    *body == JsonValue::Object(*ms),
                    i <= ms@.len(),
                    forall|j: int| 0 <= j < i ==> (#[trigger] ms@[j]).0@ != "exists"@,
                decreases ms@.len() - i,
            {
                if crate::text::str_eq(ms[i].0.as_str(), "exists") {
                    assert(ms@[i as int].0@ == "exists"@);
                    assert((*body)->Object_0@[i as int].0@ == "exists"@);
                    return true;
                }
                i = i + 1;
            }
            false
        },
        _ => false,
    }
}

/// The error of an upload that the storage did not answer with `201
/// Created`.
pub fn upload_status_error(status: u16, body: String) -> (r: Option<ZoteroApiError>)
    ensures
        status == 201 ==> r is None,
        status != 201 ==> r == Some(ZoteroApiError::LocalApi { status, message: body }),
{
    if status == 201 {
        None
    } else {
        Some(ZoteroApiError::LocalApi { status, message: body })
    }
}

/// An upload ticket: where the bytes go, and the key that registers them.
#[derive(Debug, PartialEq, Eq)]
pub struct UploadTicket {
    pub url: String,
    pub upload_key: String,
}

/// What the import of a file needs to know of it: its digest in
/// hexadecimal, its name, its size in bytes and its modification time in
/// milliseconds since the epoch.
#[derive(Debug, PartialEq, Eq)]
pub struct ImportFile {
    pub md5: String,
    pub filename: String,
    pub filesize: usize,
    pub mtime: u64,
}

/// The stage an import of a file has reached.
#[derive(Debug, PartialEq, Eq)]
pub enum ImportState {
    /// The attachment record was asked for.
    Creating,
    /// An upload ticket was asked for the created attachment.
    Authorizing(ZoteroItem),
    /// The bytes went to the storage; the upload key waits for the end.
    Uploading(ZoteroItem, String),
    /// The upload is being registered.
    Finalizing(ZoteroItem),
}

/// The answer to the step an import took last.
#[derive(Debug, PartialEq, Eq)]
pub enum ImportEvent {
    /// The items of the creation response.
    Created(Vec<ZoteroItem>),
    /// The answer to the ticket request: its status, its text, its text
    /// read as JSON or the message of the failure to read it, and the JSON
    /// decoded as an upload ticket or the message of the failure to decode
    /// it.
    Ticket { status: u16, text: String, json: Result<JsonValue, String>, ticket: Result<UploadTicket, String> },
    /// The storage's answer to the upload.
    Uploaded { status: u16, text: String },
    /// The answer to the request that registers the upload.
    Finalized { status: u16, text: String },
}

/// What an import does next.
#[derive(Debug, PartialEq, Eq)]
pub enum ImportAction {
    /// Post `form` to `url` with `If-None-Match: *` to ask for a ticket.
    RequestTicket { url: String, form: Vec<(String, String)> },
    /// Post the file's bytes to `url`.
    Upload { url: String },
    /// Post `form` to `url` with `If-None-Match: *` to register the upload.
    Finalize { url: String, form: Vec<(String, String)> },
    /// The file is stored; here is its attachment.
    Done(ZoteroItem),
    /// The import failed.
    Fail(ZoteroApiError),
}

/// The URL of the stored file of the item `key`.
pub open spec fn file_url_spec(c: crate::client::ClientView, key: Seq<char>) -> Seq<char> {
    trim_slashes(c.base_url) + target_prefix_spec(c.target) + "/items/"@ + key + "/file"@
}

/// The form that asks for an upload ticket for `file`.
pub open spec fn ticket_form_spec(file: ImportFile) -> Seq<(Seq<char>, Seq<char>)> {
    seq![
        ("md5"@, file.md5@),
        ("filename"@, file.filename@),
        ("filesize"@, decimal(file.filesize as nat)),
        ("mtime"@, decimal(file.mtime as nat)),
    ]
}

/// The message of an answer that does not belong to the pending step.
pub open spec fn out_of_step_message() -> Seq<char> {
    "unexpected answer during a file import"@
}

/// The failure `e`, with no stage after it.
pub open spec fn fails_with(r: (Option<ImportState>, ImportAction), e: ZoteroApiError) -> bool {
    r.0 is None && r.1 == ImportAction::Fail(e)
}

impl ZoteroClient {
    /// One step of importing `file`: from the stage reached and the answer
    /// to the last step, the next stage (none once the import ends) and
    /// what to do. The attachment record comes first; then a ticket is
    /// asked for, unless the storage already holds the file; then the bytes
    /// are uploaded, which the storage acknowledges with `201`; then the
    /// upload is registered. Any other answer ends the import with its
    /// error.
    pub fn import_step(&self, file: &ImportFile, state: ImportState, event: ImportEvent) -> (r: (
        Option<ImportState>,
        ImportAction,
    ))
        ensures
            match (state, event) {
                (ImportState::Creating, ImportEvent::Created(items)) => if items@.len() == 0 {
                    r.0 is None && (r.1 matches ImportAction::Fail(ZoteroApiError::Json(m)) && m@
                        == "no "@ + "attachment"@ + " in the creation response"@)
                } else {
                    &&& r.0 == Some(ImportState::Authorizing(items@[0]))
                    &&& r.1 matches ImportAction::RequestTicket { url, form }
                    &&& url@ == file_url_spec(self@, items@[0].data.key@)
                    &&& pairs_view(form@) == ticket_form_spec(*file)
                },
                (ImportState::Authorizing(item), ImportEvent::Ticket { status, text, json, ticket }) => if !is_success(
                    status,
                ) {
                    fails_with(r, ZoteroApiError::LocalApi { status, message: text })
                } else {
                    match json {
                        Err(m) => fails_with(r, ZoteroApiError::Network(m)),
                        Ok(body) => if already_stored_spec(body) {
                            r.0 is None && r.1 == ImportAction::Done(item)
                        } else {
                            match ticket {
                                Ok(t) => {
                                    &&& r.0 == Some(ImportState::Uploading(item, t.upload_key))
                                    &&& r.1 == ImportAction::Upload { url: t.url }
                                },
                                Err(m) => fails_with(r, ZoteroApiError::Json(m)),
                            }
                        },
                    }
                },
                (ImportState::Uploading(item, key), ImportEvent::Uploaded { status, text }) => if status
                    != 201 {
                    fails_with(r, ZoteroApiError::LocalApi { status, message: text })
                } else {
                    &&& r.0 == Some(ImportState::Finalizing(item))
                    &&& r.1 matches ImportAction::Finalize { url, form }
                    &&& url@ == file_url_spec(self@, item.data.key@)
                    &&& pairs_view(form@) == seq![("upload"@, key@)]
                },
                (ImportState::Finalizing(item), ImportEvent::Finalized { status, text }) => if !is_success(
                    status,
                ) {
                    fails_with(r, ZoteroApiError::LocalApi { status, message: text })
                } else {
                    r.0 is None && r.1 == ImportAction::Done(item)
                },
                _ => r.0 is None && (r.1 matches ImportAction::Fail(ZoteroApiError::Network(m)) && m@
                    == out_of_step_message()),
            },
    {
        let out_of_step = "unexpected answer during a file import";
        match state {
            ImportState::Creating => match event {
                ImportEvent::Created(items) => match crate::collections::first_created(items, "attachment") {
                    Err(e) => (None, ImportAction::Fail(e)),
                    Ok(item) => {
                        let url = self.item_file_url(item.data.key.as_str());
                        let form = upload_form(
                            file.md5.as_str(),
                            file.filename.as_str(),
                            file.filesize,
                            file.mtime,
                        );
                        (Some(ImportState::Authorizing(item)), ImportAction::RequestTicket { url, form })
                    },
                },
                _ => (None, ImportAction::Fail(ZoteroApiError::Network(out_of_step.to_owned()))),
            },
            ImportState::Authorizing(item) => match event {
                ImportEvent::Ticket { status, text, json, ticket } => {
                    if let Some(e) = crate::client::status_error(status, text) {
                        return (None, ImportAction::Fail(e));
                    }
                    match json {
                        Err(m) => (None, ImportAction::Fail(ZoteroApiError::Network(m))),
                        Ok(body) => {
                            if already_stored(&body) {
                                (None, ImportAction::Done(item))
                            } else {
                                match ticket {
                                    Ok(t) => (Some(ImportState::Uploading(item, t.upload_key)), ImportAction::Upload {
                                        url: t.url,
                                    }),
                                    Err(m) => (None, ImportAction::Fail(ZoteroApiError::Json(m))),
                                }
                            }
                        },
                    }
                },
                _ => (None, ImportAction::Fail(ZoteroApiError::Network(out_of_step.to_owned()))),
            },
            ImportState::Uploading(item, key) => match event {
                ImportEvent::Uploaded { status, text } => match upload_status_error(status, text) {
                    Some(e) => (None, ImportAction::Fail(e)),
                    None => {
                        let url = self.item_file_url(item.data.key.as_str());
                        let form = finalize_form(key.as_str());
                        (Some(ImportState::Finalizing(item)), ImportAction::Finalize { url, form })
                    },
                },
                _ => (None, ImportAction::Fail(ZoteroApiError::Network(out_of_step.to_owned()))),
            },
            ImportState::Finalizing(item) => match event {
                ImportEvent::Finalized { status, text } => match crate::client::status_error(status, text) {
                    Some(e) => (None, ImportAction::Fail(e)),
                    None => (None, ImportAction::Done(item)),
                },
                _ => (None, ImportAction::Fail(ZoteroApiError::Network(out_of_step.to_owned()))),
            },
        }
    }
}

} // verus!
