//! The Better Notes plugin's HTTP interface: export formats, the payload of
//! each endpoint, the endpoint URLs, and the error of a refused call.
use vstd::prelude::*;
use crate::better_bibtex::is_json_str;
use crate::client::{trim_end_slashes, trim_slashes};
use crate::errors::ZoteroApiError;
use crate::json::JsonValue;
use crate::keys::ItemKey;
use crate::status::{status_line, status_line_spec};
use crate::text::push_str;

verus! {

/// The name of a Better Notes template, such as `default`.
#[derive(Clone, Debug, Default, PartialEq, Eq, Hash)]
pub struct TemplateName(String);

impl View for TemplateName {
    type V = Seq<char>;

    closed spec fn view(&self) -> Seq<char> {
        self.0@
    }
}

impl TemplateName {
    /// Wraps a string.
    pub fn new(value: String) -> (r: Self)
        ensures
            r@ == value@,
    {
        TemplateName(value)
    }

    /// Wraps a copy of a string slice.
    pub fn from_str(value: &str) -> (r: Self)
        ensures
            r@ == value@,
    {
        TemplateName(value.to_owned())
    }

    /// Borrows the inner string.
    pub fn as_str(&self) -> (r: &str)
        ensures
            r@ == self@,
    {
        self.0.as_str()
    }
}

/// The encoding of an exported note.
#[derive(Copy, Clone, Debug, PartialEq, Eq)]
pub enum NoteExportFormat {
    Markdown,
    Html,
}

impl Default for NoteExportFormat {
    fn default() -> (r: Self)
        ensures
            r == NoteExportFormat::Markdown,
    {
        NoteExportFormat::Markdown
    }
}

/// The wire name of an export format.
pub open spec fn export_format_name(f: NoteExportFormat) -> Seq<char> {
    match f {
        NoteExportFormat::Markdown => "markdown"@,
        NoteExportFormat::Html => "html"@,
    }
}

impl NoteExportFormat {
    /// The wire name: `markdown` or `html`.
    pub fn as_str(self) -> (r: &'static str)
        ensures
            r@ == export_format_name(self),
    {
        match self {
            NoteExportFormat::Markdown => "markdown",
            NoteExportFormat::Html => "html",
        }
    }
}

/// A directed link between two notes.
#[derive(Clone, Debug)]
pub struct NoteRelationLink {
    pub from_lib_id: u64,
    pub from_key: ItemKey,
    pub to_lib_id: u64,
    pub to_key: ItemKey,
    /// The line of the source note that holds the link.
    pub from_line: u64,
    /// The target line, where the link points at one.
    pub to_line: Option<u64>,
    /// The target heading, where the link points at one.
    pub to_section: Option<String>,
    /// The `zotero://note/...` URL of the link.
    pub url: String,
}

/// The links of a note: those it makes and those made to it.
#[derive(Clone, Debug)]
pub struct NoteRelations {
    pub outbound: Vec<NoteRelationLink>,
    pub inbound: Vec<NoteRelationLink>,
}

/// `v` is an object whose members are named `names`, in order.
pub open spec fn object_named(v: JsonValue, names: Seq<Seq<char>>) -> bool {
    v is Object && v->Object_0@.map_values(|m: (String, JsonValue)| m.0@) == names
}

/// The payload of `/notes/export`: the note and the format, Markdown where
/// none is given.
pub fn export_payload(item_key: &str, format: Option<NoteExportFormat>) -> (r: JsonValue)
    ensures
        object_named(r, seq!["itemKey"@, "format"@]),
        is_json_str(r->Object_0@[0].1, item_key@),
        is_json_str(
            r->Object_0@[1].1,
            export_format_name(
                match format {
                    Some(f) => f,
                    None => NoteExportFormat::Markdown,
                },
            ),
        ),
{
    let f = match format {
        Some(f) => f,
        None => NoteExportFormat::default(),
    };
    let mut ms: Vec<(String, JsonValue)> = Vec::new();
    ms.push(("itemKey".to_owned(), JsonValue::String(item_key.to_owned())));
    ms.push(("format".to_owned(), JsonValue::String(f.as_str().to_owned())));
    assert(ms@.map_values(|m: (String, JsonValue)| m.0@) =~= seq!["itemKey"@, "format"@]);
    JsonValue::Object(ms)
}

/// The payload of `/notes/from-markdown`: the parent, `null` for a
/// standalone note, and the Markdown text.
pub fn from_markdown_payload(parent_key: Option<&str>, markdown: &str) -> (r: JsonValue)
    ensures
        object_named(r, seq!["parentKey"@, "markdown"@]),
        match parent_key {
            Some(k) => is_json_str(r->Object_0@[0].1, k@),
            None => r->Object_0@[0].1 == JsonValue::Null,
        },
        is_json_str(r->Object_0@[1].1, markdown@),
{
    let parent = match parent_key {
        Some(k) => JsonValue::String(k.to_owned()),
        None => JsonValue::Null,
    };
    let mut ms: Vec<(String, JsonValue)> = Vec::new();
    ms.push(("parentKey".to_owned(), parent));
    ms.push(("markdown".to_owned(), JsonValue::String(markdown.to_owned())));
    assert(ms@.map_values(|m: (String, JsonValue)| m.0@) =~= seq!["parentKey"@, "markdown"@]);
    JsonValue::Object(ms)
}

/// The payload of `/templates/run`: the template and the item.
pub fn run_template_payload(name: &TemplateName, item_key: &str) -> (r: JsonValue)
    ensures
        object_named(r, seq!["name"@, "itemKey"@]),
        is_json_str(r->Object_0@[0].1, name@),
        is_json_str(r->Object_0@[1].1, item_key@),
{
    let mut ms: Vec<(String, JsonValue)> = Vec::new();
    ms.push(("name".to_owned(), JsonValue::String(name.as_str().to_owned())));
    ms.push(("itemKey".to_owned(), JsonValue::String(item_key.to_owned())));
    assert(ms@.map_values(|m: (String, JsonValue)| m.0@) =~= seq!["name"@, "itemKey"@]);
    JsonValue::Object(ms)
}

/// The payload of `/relations/get` and `/notes/tree`: the note alone.
pub fn note_key_payload(item_key: &str) -> (r: JsonValue)
    ensures
        object_named(r, seq!["itemKey"@]),
        is_json_str(r->Object_0@[0].1, item_key@),
{
    let mut ms: Vec<(String, JsonValue)> = Vec::new();
    ms.push(("itemKey".to_owned(), JsonValue::String(item_key.to_owned())));
    assert(ms@.map_values(|m: (String, JsonValue)| m.0@) =~= seq!["itemKey"@]);
    JsonValue::Object(ms)
}

/// The default endpoint of the plugin.
pub open spec fn default_notes_base() -> Seq<char> {
    "http://127.0.0.1:23119/better-notes"@
}

/// A client of the plugin, by its base URL. The HTTP transport belongs to
/// the application that sends the requests.
#[derive(Clone, Debug)]
pub struct BetterNotesClient {
    base_url: String,
}

impl BetterNotesClient {
    /// The base URL of the client.
    pub closed spec fn base_url_spec(&self) -> Seq<char> {
        self.base_url@
    }

    /// A client of the plugin at `base_url`; an empty URL means the local
    /// default.
    pub fn new(base_url: String) -> (r: Self)
        ensures
            r.base_url_spec() == if base_url@.len() == 0 {
                default_notes_base()
            } else {
                base_url@
            },
    {
        if base_url.as_str().is_empty() {
            BetterNotesClient { base_url: "http://127.0.0.1:23119/better-notes".to_owned() }
        } else {
            BetterNotesClient { base_url }
        }
    }

    /// The base URL.
    pub fn base_url(&self) -> (r: &str)
        ensures
            r@ == self.base_url_spec(),
    {
        self.base_url.as_str()
    }

    /// The URL of an endpoint: the base URL without trailing slashes, then
    /// the endpoint.
    pub fn endpoint_url(&self, endpoint: &str) -> (r: String)
        ensures
            r@ == trim_slashes(self.base_url_spec()) + endpoint@,
    {
        let mut url = trim_end_slashes(self.base_url.as_str());
        push_str(&mut url, endpoint);
        url
    }
}

impl Default for BetterNotesClient {
    fn default() -> (r: Self)
        ensures
            r.base_url_spec() == default_notes_base(),
    {
        BetterNotesClient::new("http://127.0.0.1:23119/better-notes".to_owned())
    }
}

/// The error of a call answered with a status outside 200 to 299:
/// `HTTP {status line} calling {endpoint}`.
pub fn notes_http_error(status: u16, endpoint: &str) -> (r: ZoteroApiError)
    requires
        100 <= status <= 999,
    ensures
        r matches ZoteroApiError::BetterNotes(m) && m@ == "HTTP "@ + status_line_spec(status)
            + " calling "@ + endpoint@,
{
    let mut m = "HTTP ".to_owned();
    let line = status_line(status);
    push_str(&mut m, line.as_str());
    push_str(&mut m, " calling ");
    push_str(&mut m, endpoint);
    ZoteroApiError::BetterNotes(m)
}

} // verus!
