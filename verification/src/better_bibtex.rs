//! The Better BibTeX plugin's JSON-RPC 2.0 interface: the names it takes,
//! the parameters of each method, the request envelope, and the rules by
//! which a reply becomes a result or an error.
use vstd::prelude::*;
use crate::client::trim_end_slashes;
use crate::client::trim_slashes;
use crate::errors::ZoteroApiError;
use crate::json::JsonValue;
use crate::keys::{CitationKey, ItemKey};
use crate::status::{status_line, status_line_spec};
use crate::text::{push_signed_decimal, push_str, signed_decimal, str_eq};

verus! {

/// A Better BibTeX collection path: collections separated by `/`, where
/// `//` is the personal library's root.
#[derive(Clone, Debug, Default, PartialEq, Eq, Hash)]
pub struct CollectionPath(String);

impl View for CollectionPath {
    type V = Seq<char>;

    closed spec fn view(&self) -> Seq<char> {
        self.0@
    }
}

impl CollectionPath {
    /// Wraps a string.
    pub fn new(value: String) -> (r: Self)
        ensures
            r@ == value@,
    {
        CollectionPath(value)
    }

    /// Wraps a copy of a string slice.
    pub fn from_str(value: &str) -> (r: Self)
        ensures
            r@ == value@,
    {
        CollectionPath(value.to_owned())
    }

    /// Borrows the inner string.
    pub fn as_str(&self) -> (r: &str)
        ensures
            r@ == self@,
    {
        self.0.as_str()
    }

    /// The root of the personal library, `//`.
    pub fn personal_library() -> (r: Self)
        ensures
            r@ == "//"@,
    {
        CollectionPath("//".to_owned())
    }
}

/// A Better BibTeX translator, by name or GUID (`Better BibTeX`,
/// `Better BibLaTeX`, `Better CSL JSON`, ...).
#[derive(Clone, Debug, Default, PartialEq, Eq, Hash)]
pub struct TranslatorName(String);

impl View for TranslatorName {
    type V = Seq<char>;

    closed spec fn view(&self) -> Seq<char> {
        self.0@
    }
}

impl TranslatorName {
    /// Wraps a string.
    pub fn new(value: String) -> (r: Self)
        ensures
            r@ == value@,
    {
        TranslatorName(value)
    }

    /// Wraps a copy of a string slice.
    pub fn from_str(value: &str) -> (r: Self)
        ensures
            r@ == value@,
    {
        TranslatorName(value.to_owned())
    }

    /// Borrows the inner string.
    pub fn as_str(&self) -> (r: &str)
        ensures
            r@ == self@,
    {
        self.0.as_str()
    }
}

/// The absolute path of a LaTeX `.aux` file.
#[derive(Clone, Debug, Default, PartialEq, Eq, Hash)]
pub struct AuxFilePath(String);

impl View for AuxFilePath {
    type V = Seq<char>;

    closed spec fn view(&self) -> Seq<char> {
        self.0@
    }
}

impl AuxFilePath {
    /// Wraps a string.
    pub fn new(value: String) -> (r: Self)
        ensures
            r@ == value@,
    {
        AuxFilePath(value)
    }

    /// Wraps a copy of a string slice.
    pub fn from_str(value: &str) -> (r: Self)
        ensures
            r@ == value@,
    {
        AuxFilePath(value.to_owned())
    }

    /// Borrows the inner string.
    pub fn as_str(&self) -> (r: &str)
        ensures
            r@ == self@,
    {
        self.0.as_str()
    }
}

/// The absolute path of an auto-export's output file.
#[derive(Clone, Debug, Default, PartialEq, Eq, Hash)]
pub struct ExportFilePath(String);

impl View for ExportFilePath {
    type V = Seq<char>;

    closed spec fn view(&self) -> Seq<char> {
        self.0@
    }
}

impl ExportFilePath {
    /// Wraps a string.
    pub fn new(value: String) -> (r: Self)
        ensures
            r@ == value@,
    {
        ExportFilePath(value)
    }

    /// Wraps a copy of a string slice.
    pub fn from_str(value: &str) -> (r: Self)
        ensures
            r@ == value@,
    {
        ExportFilePath(value.to_owned())
    }

    /// Borrows the inner string.
    pub fn as_str(&self) -> (r: &str)
        ensures
            r@ == self@,
    {
        self.0.as_str()
    }
}

/// A CSL style identifier, such as `apa` or a style URI.
#[derive(Clone, Debug, Default, PartialEq, Eq, Hash)]
pub struct CslStyleId(String);

impl View for CslStyleId {
    type V = Seq<char>;

    closed spec fn view(&self) -> Seq<char> {
        self.0@
    }
}

impl CslStyleId {
    /// Wraps a string.
    pub fn new(value: String) -> (r: Self)
        ensures
            r@ == value@,
    {
        CslStyleId(value)
    }

    /// Wraps a copy of a string slice.
    pub fn from_str(value: &str) -> (r: Self)
        ensures
            r@ == value@,
    {
        CslStyleId(value.to_owned())
    }

    /// Borrows the inner string.
    pub fn as_str(&self) -> (r: &str)
        ensures
            r@ == self@,
    {
        self.0.as_str()
    }
}

/// A CSL locale identifier, such as `en-US`.
#[derive(Clone, Debug, Default, PartialEq, Eq, Hash)]
pub struct Locale(String);

impl View for Locale {
    type V = Seq<char>;

    closed spec fn view(&self) -> Seq<char> {
        self.0@
    }
}

impl Locale {
    /// Wraps a string.
    pub fn new(value: String) -> (r: Self)
        ensures
            r@ == value@,
    {
        Locale(value)
    }

    /// Wraps a copy of a string slice.
    pub fn from_str(value: &str) -> (r: Self)
        ensures
            r@ == value@,
    {
        Locale(value.to_owned())
    }

    /// Borrows the inner string.
    pub fn as_str(&self) -> (r: &str)
        ensures
            r@ == self@,
    {
        self.0.as_str()
    }
}

/// A Better BibTeX quick-search query.
#[derive(Clone, Debug, Default, PartialEq, Eq, Hash)]
pub struct SearchQuery(String);

impl View for SearchQuery {
    type V = Seq<char>;

    closed spec fn view(&self) -> Seq<char> {
        self.0@
    }
}

impl SearchQuery {
    /// Wraps a string.
    pub fn new(value: String) -> (r: Self)
        ensures
            r@ == value@,
    {
        SearchQuery(value)
    }

    /// Wraps a copy of a string slice.
    pub fn from_str(value: &str) -> (r: Self)
        ensures
            r@ == value@,
    {
        SearchQuery(value.to_owned())
    }

    /// Borrows the inner string.
    pub fn as_str(&self) -> (r: &str)
        ensures
            r@ == self@,
    {
        self.0.as_str()
    }
}

/// The content type of a generated bibliography.
#[derive(Copy, Clone, Debug, PartialEq, Eq)]
pub enum BibliographyContentType {
    Html,
    Text,
}

impl Default for BibliographyContentType {
    fn default() -> (r: Self)
        ensures
            r == BibliographyContentType::Text,
    {
        BibliographyContentType::Text
    }
}

/// The wire name of a content type.
pub open spec fn content_type_name(c: BibliographyContentType) -> Seq<char> {
    match c {
        BibliographyContentType::Html => "html"@,
        BibliographyContentType::Text => "text"@,
    }
}

impl BibliographyContentType {
    /// The wire name: `html` or `text`.
    pub fn as_str(self) -> (r: &'static str)
        ensures
            r@ == content_type_name(self),
    {
        match self {
            BibliographyContentType::Html => "html",
            BibliographyContentType::Text => "text",
        }
    }
}

/// How `item.bibliography` formats its output; a field left `None` is left
/// to Better BibTeX's configured default.
#[derive(Clone, Debug)]
pub struct BibliographyFormat {
    pub content_type: Option<BibliographyContentType>,
    /// CSL style, such as `apa`.
    pub id: Option<CslStyleId>,
    /// CSL locale, such as `en-US`.
    pub locale: Option<Locale>,
    /// Whether to use Zotero's quick-copy preferences.
    pub quick_copy: Option<bool>,
}

impl Default for BibliographyFormat {
    fn default() -> (r: Self)
        ensures
            r.content_type is None && r.id is None && r.locale is None && r.quick_copy is None,
    {
        BibliographyFormat { content_type: None, id: None, locale: None, quick_copy: None }
    }
}

/// The parameters of an `autoexport.add` call.
#[derive(Clone, Debug, Default)]
pub struct AutoExportAddRequest {
    /// The collection to export; `//` is the personal library.
    pub collection: CollectionPath,
    pub translator: TranslatorName,
    /// Where the export is written.
    pub path: ExportFilePath,
    /// Display options handed to the translator, by name.
    pub display_options: Option<Vec<(String, bool)>>,
    /// Whether to replace a matching auto-export; `None` leaves it to the
    /// plugin.
    pub replace: Option<bool>,
}

/// `v` is the JSON string `s`.
pub open spec fn is_json_str(v: JsonValue, s: Seq<char>) -> bool {
    v.str_spec() == Some(s)
}

/// `v` is a JSON array of the strings `ss`, in order.
pub open spec fn is_json_strs(v: JsonValue, ss: Seq<Seq<char>>) -> bool {
    &&& v is Array
    &&& v->Array_0@.len() == ss.len()
    &&& forall|i: int| 0 <= i < ss.len() ==> #[trigger] is_json_str(v->Array_0@[i], ss[i])
}

/// The members that a bibliography format writes, by name, in order.
pub open spec fn format_member_names(f: BibliographyFormat) -> Seq<Seq<char>> {
    (if f.content_type is Some { seq!["contentType"@] } else { seq![] }) + (if f.id is Some {
        seq!["id"@]
    } else {
        seq![]
    }) + (if f.locale is Some { seq!["locale"@] } else { seq![] }) + (if f.quick_copy is Some {
        seq!["quickCopy"@]
    } else {
        seq![]
    })
}

/// `v` is the JSON object of a bibliography format: only its present
/// fields, under their camel-case names.
pub open spec fn format_json(f: BibliographyFormat, v: JsonValue) -> bool {
    &&& v is Object
    &&& v->Object_0@.map_values(|m: (String, JsonValue)| m.0@) == format_member_names(f)
    &&& match f.content_type {
        Some(c) => v.get_spec("contentType"@) matches Some(x) && is_json_str(x, content_type_name(c)),
        None => true,
    }
    &&& match f.id {
        Some(s) => v.get_spec("id"@) matches Some(x) && is_json_str(x, s@),
        None => true,
    }
    &&& match f.locale {
        Some(l) => v.get_spec("locale"@) matches Some(x) && is_json_str(x, l@),
        None => true,
    }
    &&& match f.quick_copy {
        Some(b) => v.get_spec("quickCopy"@) == Some(JsonValue::Bool(b)),
        None => true,
    }
}

fn str_json(s: &str) -> (r: JsonValue)
    ensures
        is_json_str(r, s@),
{
    JsonValue::String(s.to_owned())
}

impl BibliographyFormat {
    /// The JSON object of the format, with the fields that are set.
    pub fn to_json(&self) -> (r: JsonValue)
        ensures
            format_json(*self, r),
    {
        let mut ms: Vec<(String, JsonValue)> = Vec::new();
        if let Some(c) = self.content_type {
            ms.push(("contentType".to_owned(), str_json(c.as_str())));
        }
        let ghost n0 = ms@.len();
        if let Some(id) = &self.id {
            ms.push(("id".to_owned(), str_json(id.as_str())));
        }
        let ghost n1 = ms@.len();
        if let Some(l) = &self.locale {
            ms.push(("locale".to_owned(), str_json(l.as_str())));
        }
        let ghost n2 = ms@.len();
        if let Some(b) = self.quick_copy {
            ms.push(("quickCopy".to_owned(), JsonValue::Bool(b)));
        }
        let r = JsonValue::Object(ms);
        proof {
            let names = ms@.map_values(|m: (String, JsonValue)| m.0@);
            assert(names =~= format_member_names(*self));
            reveal_strlit("contentType");
            reveal_strlit("id");
            reveal_strlit("locale");
            reveal_strlit("quickCopy");
            if self.content_type is Some {
                crate::json::lemma_members_get_first(ms@, "contentType"@, 0);
            }
            if self.id is Some {
                assert(forall|j: int| 0 <= j < n0 ==> ms@[j].0@ == "contentType"@);
                crate::json::lemma_members_get_first(ms@, "id"@, n0 as int);
            }
            if self.locale is Some {
                assert(forall|j: int| 0 <= j < n1 ==> ms@[j].0@ == "contentType"@ || ms@[j].0@ == "id"@);
                assert("locale"@.len() != "contentType"@.len() && "locale"@.len() != "id"@.len());
                assert(forall|j: int| 0 <= j < n1 ==> ms@[j].0@ != "locale"@);
                crate::json::lemma_members_get_first(ms@, "locale"@, n1 as int);
            }
            if self.quick_copy is Some {
                assert(forall|j: int|
                    0 <= j < n2 ==> ms@[j].0@ == "contentType"@ || ms@[j].0@ == "id"@ || ms@[j].0@
                        == "locale"@);
                assert(forall|j: int| 0 <= j < n2 ==> ms@[j].0@ != "quickCopy"@);
                crate::json::lemma_members_get_first(ms@, "quickCopy"@, n2 as int);
            }
        }
        r
    }
}

fn citekeys_json(citekeys: &[CitationKey]) -> (r: JsonValue)
    ensures
        is_json_strs(r, citekeys@.map_values(|k: CitationKey| k@)),
{
    let mut items: Vec<JsonValue> = Vec::new();
    let mut i: usize = 0;
    while i < citekeys.len()
        invariant
            i <= citekeys@.len(),
            items@.len() == i,
            forall|j: int| 0 <= j < i ==> #[trigger] is_json_str(items@[j], citekeys@[j]@),
        decreases citekeys@.len() - i,
    {
        items.push(str_json(citekeys[i].as_str()));
        i = i + 1;
    }
    JsonValue::Array(items)
}

fn item_keys_json(keys: &[ItemKey]) -> (r: JsonValue)
    ensures
        is_json_strs(r, keys@.map_values(|k: ItemKey| k@)),
{
    let mut items: Vec<JsonValue> = Vec::new();
    let mut i: usize = 0;
    while i < keys.len()
        invariant
            i <= keys@.len(),
            items@.len() == i,
            forall|j: int| 0 <= j < i ==> #[trigger] is_json_str(items@[j], keys@[j]@),
        decreases keys@.len() - i,
    {
        items.push(str_json(keys[i].as_str()));
        i = i + 1;
    }
    JsonValue::Array(items)
}

/// The views of citation keys.
pub open spec fn citekey_views(ks: Seq<CitationKey>) -> Seq<Seq<char>> {
    ks.map_values(|k: CitationKey| k@)
}

/// `item.citationkey`: one parameter, the array of item keys.
pub fn citekeys_params(item_keys: &[ItemKey]) -> (r: Vec<JsonValue>)
    ensures
        r@.len() == 1,
        is_json_strs(r@[0], item_keys@.map_values(|k: ItemKey| k@)),
{
    let mut p: Vec<JsonValue> = Vec::new();
    p.push(item_keys_json(item_keys));
    p
}

/// `item.export`: the array of citation keys and the translator.
pub fn export_params(citekeys: &[CitationKey], translator: &TranslatorName) -> (r: Vec<JsonValue>)
    ensures
        r@.len() == 2,
        is_json_strs(r@[0], citekey_views(citekeys@)),
        is_json_str(r@[1], translator@),
{
    let mut p: Vec<JsonValue> = Vec::new();
    p.push(citekeys_json(citekeys));
    p.push(str_json(translator.as_str()));
    p
}

/// `item.bibliography`: the array of citation keys, then the format where
/// one is given.
pub fn bibliography_params(citekeys: &[CitationKey], format: Option<&BibliographyFormat>) -> (r: Vec<
    JsonValue,
>)
    ensures
        is_json_strs(r@[0], citekey_views(citekeys@)),
        match format {
            Some(f) => r@.len() == 2 && format_json(*f, r@[1]),
            None => r@.len() == 1,
        },
{
    let mut p: Vec<JsonValue> = Vec::new();
    p.push(citekeys_json(citekeys));
    if let Some(f) = format {
        p.push(f.to_json());
    }
    p
}

/// `item.pin`: one parameter, the array of citation keys.
pub fn regenerate_keys_params(citekeys: &[CitationKey]) -> (r: Vec<JsonValue>)
    ensures
        r@.len() == 1,
        is_json_strs(r@[0], citekey_views(citekeys@)),
{
    let mut p: Vec<JsonValue> = Vec::new();
    p.push(citekeys_json(citekeys));
    p
}

/// `collection.scanAUX`: the collection path and the `.aux` file.
pub fn scan_aux_params(collection: &CollectionPath, aux_path: &AuxFilePath) -> (r: Vec<JsonValue>)
    ensures
        r@.len() == 2,
        is_json_str(r@[0], collection@),
        is_json_str(r@[1], aux_path@),
{
    let mut p: Vec<JsonValue> = Vec::new();
    p.push(str_json(collection.as_str()));
    p.push(str_json(aux_path.as_str()));
    p
}

/// `item.search`: one parameter, the query.
pub fn search_params(query: &SearchQuery) -> (r: Vec<JsonValue>)
    ensures
        r@.len() == 1,
        is_json_str(r@[0], query@),
{
    let mut p: Vec<JsonValue> = Vec::new();
    p.push(str_json(query.as_str()));
    p
}

/// `item.pandoc_filter`: the array of citation keys and whether to answer
/// in CSL.
pub fn pandoc_filter_params(citekeys: &[CitationKey], as_csl: bool) -> (r: Vec<JsonValue>)
    ensures
        r@.len() == 2,
        is_json_strs(r@[0], citekey_views(citekeys@)),
        r@[1] == JsonValue::Bool(as_csl),
{
    let mut p: Vec<JsonValue> = Vec::new();
    p.push(citekeys_json(citekeys));
    p.push(JsonValue::Bool(as_csl));
    p
}

/// `v` is the JSON object of display options: one boolean member per
/// option, in order.
pub open spec fn display_options_json(opts: Seq<(String, bool)>, v: JsonValue) -> bool {
    &&& v is Object
    &&& v->Object_0@.len() == opts.len()
    &&& forall|i: int|
        0 <= i < opts.len() ==> (#[trigger] v->Object_0@[i]).0@ == opts[i].0@ && v->Object_0@[i].1
            == JsonValue::Bool(opts[i].1)
}

/// The number of parameters of an `autoexport.add` call: the collection,
/// translator and path; the display options, written as `{}` when only
/// `replace` is given; and `replace`.
pub open spec fn autoexport_param_count(req: AutoExportAddRequest) -> nat {
    3 + (if req.display_options is Some || req.replace is Some { 1nat } else { 0 }) + (if req.replace is Some {
        1nat
    } else {
        0
    })
}

/// `autoexport.add`: the collection, translator and path; then the display
/// options (an empty object when only `replace` is set, since the plugin
/// takes its arguments by position); then `replace` when it is set.
pub fn autoexport_params(request: &AutoExportAddRequest) -> (r: Vec<JsonValue>)
    ensures
        r@.len() == autoexport_param_count(*request),
        is_json_str(r@[0], request.collection@),
        is_json_str(r@[1], request.translator@),
        is_json_str(r@[2], request.path@),
        match request.display_options {
            Some(opts) => display_options_json(opts@, r@[3]),
            None => request.replace is Some ==> (r@[3] matches JsonValue::Object(ms) && ms@.len() == 0),
        },
        match request.replace {
            Some(b) => r@[r@.len() - 1] == JsonValue::Bool(b),
            None => true,
        },
{
    let mut p: Vec<JsonValue> = Vec::new();
    p.push(str_json(request.collection.as_str()));
    p.push(str_json(request.translator.as_str()));
    p.push(str_json(request.path.as_str()));
    match &request.display_options {
        Some(opts) => {
            let mut ms: Vec<(String, JsonValue)> = Vec::new();
            let mut i: usize = 0;
            while i < opts.len()
                invariant
                    i <= opts@.len(),
                    ms@.len() == i,
                    forall|j: int|
                        0 <= j < i ==> (#[trigger] ms@[j]).0@ == opts@[j].0@ && ms@[j].1
                            == JsonValue::Bool(opts@[j].1),
                decreases opts@.len() - i,
            {
                let (name, flag) = (&opts[i].0, opts[i].1);
                ms.push((name.clone(), JsonValue::Bool(flag)));
                i = i + 1;
            }
            p.push(JsonValue::Object(ms));
        },
        None => {
            if request.replace.is_some() {
                let empty: Vec<(String, JsonValue)> = Vec::new();
                p.push(JsonValue::Object(empty));
            }
        },
    }
    if let Some(b) = request.replace {
        p.push(JsonValue::Bool(b));
    }
    p
}

/// `v` is the JSON-RPC 2.0 request envelope of a call: `jsonrpc` `2.0`,
/// the method, the parameters and `id` 1.
pub open spec fn rpc_envelope(method: Seq<char>, params: Seq<JsonValue>, v: JsonValue) -> bool {
    &&& v is Object
    &&& v->Object_0@.map_values(|m: (String, JsonValue)| m.0@) == seq![
        "jsonrpc"@,
        "method"@,
        "params"@,
        "id"@,
    ]
    &&& is_json_str(v->Object_0@[0].1, "2.0"@)
    &&& is_json_str(v->Object_0@[1].1, method)
    &&& v->Object_0@[2].1 matches JsonValue::Array(ps) && ps@ == params
    &&& v->Object_0@[3].1 matches JsonValue::Number(n) && n@ == "1"@
}

/// The JSON-RPC 2.0 request envelope of a call.
pub fn rpc_request_body(method: &str, params: Vec<JsonValue>) -> (r: JsonValue)
    ensures
        rpc_envelope(method@, params@, r),
{
    let ghost ps = params@;
    let mut ms: Vec<(String, JsonValue)> = Vec::new();
    ms.push(("jsonrpc".to_owned(), str_json("2.0")));
    ms.push(("method".to_owned(), str_json(method)));
    ms.push(("params".to_owned(), JsonValue::Array(params)));
    ms.push(("id".to_owned(), JsonValue::Number("1".to_owned())));
    let r = JsonValue::Object(ms);
    assert(ms@.map_values(|m: (String, JsonValue)| m.0@) =~= seq![
        "jsonrpc"@,
        "method"@,
        "params"@,
        "id"@,
    ]);
    r
}

/// The default endpoint of the plugin.
pub open spec fn default_bibtex_base() -> Seq<char> {
    "http://127.0.0.1:23119/better-bibtex"@
}

/// A client of the plugin, by its base URL. The HTTP transport belongs to
/// the application that sends the requests.
#[derive(Clone, Debug)]
pub struct BetterBibtexClient {
    base_url: String,
}

impl BetterBibtexClient {
    /// The base URL of the client.
    pub closed spec fn base_url_spec(&self) -> Seq<char> {
        self.base_url@
    }

    /// A client of the plugin at `base_url`; an empty URL means the local
    /// default.
    pub fn new(base_url: String) -> (r: Self)
        ensures
            r.base_url_spec() == if base_url@.len() == 0 {
                default_bibtex_base()
            } else {
                base_url@
            },
    {
        if base_url.as_str().is_empty() {
            BetterBibtexClient { base_url: "http://127.0.0.1:23119/better-bibtex".to_owned() }
        } else {
            BetterBibtexClient { base_url }
        }
    }

    /// The base URL.
    pub fn base_url(&self) -> (r: &str)
        ensures
            r@ == self.base_url_spec(),
    {
        self.base_url.as_str()
    }

    /// The URL of the JSON-RPC endpoint: the base URL without trailing
    /// slashes, then `/json-rpc`.
    pub fn rpc_url(&self) -> (r: String)
        ensures
            r@ == trim_slashes(self.base_url_spec()) + "/json-rpc"@,
    {
        let mut url = trim_end_slashes(self.base_url.as_str());
        push_str(&mut url, "/json-rpc");
        url
    }
}

impl Default for BetterBibtexClient {
    fn default() -> (r: Self)
        ensures
            r.base_url_spec() == default_bibtex_base(),
    {
        BetterBibtexClient::new("http://127.0.0.1:23119/better-bibtex".to_owned())
    }
}

/// The error of an RPC call answered with a status outside 200 to 299:
/// `HTTP ` and the status line.
pub fn rpc_http_error(status: u16) -> (r: ZoteroApiError)
    requires
        100 <= status <= 999,
    ensures
        r matches ZoteroApiError::BetterBibTeX(m) && m@ == "HTTP "@ + status_line_spec(status),
{
    let mut m = "HTTP ".to_owned();
    let line = status_line(status);
    push_str(&mut m, line.as_str());
    ZoteroApiError::BetterBibTeX(m)
}

/// The error object of a failed RPC call; `data` is the JSON text of its
/// detail, if it has one.
#[derive(Clone, Debug)]
pub struct RpcErrorBody {
    pub code: i64,
    pub message: String,
    pub data: Option<String>,
}

/// The message of an RPC error object: `RPC error {code}: {message}`, then
/// ` (data: {data})` when it has detail.
pub open spec fn rpc_error_message(e: RpcErrorBody) -> Seq<char> {
    "RPC error "@ + signed_decimal(e.code as int) + ": "@ + e.message@ + match e.data {
        Some(d) => " (data: "@ + d@ + ")"@,
        None => Seq::empty(),
    }
}

/// The outcome of a JSON-RPC reply, in order of the checks: a version
/// other than `2.0`, then an error object, then a missing result.
pub open spec fn rpc_outcome(jsonrpc: Seq<char>, result: Option<JsonValue>, error: Option<RpcErrorBody>) -> Result<
    JsonValue,
    Seq<char>,
> {
    if jsonrpc != "2.0"@ {
        Err("Unsupported JSON-RPC version "@ + jsonrpc)
    } else if let Some(e) = error {
        Err(rpc_error_message(e))
    } else {
        match result {
            Some(v) => Ok(v),
            None => Err("JSON-RPC returned null result"@),
        }
    }
}

/// The result of a JSON-RPC reply, or the Better BibTeX error it stands for.
pub fn rpc_result(jsonrpc: String, result: Option<JsonValue>, error: Option<RpcErrorBody>) -> (r: Result<
    JsonValue,
    ZoteroApiError,
>)
    ensures
        match rpc_outcome(jsonrpc@, result, error) {
            Ok(v) => r == Ok::<JsonValue, ZoteroApiError>(v),
            Err(m) => r matches Err(ZoteroApiError::BetterBibTeX(x)) && x@ == m,
        },
{
    if !str_eq(jsonrpc.as_str(), "2.0") {
        let mut m = "Unsupported JSON-RPC version ".to_owned();
        push_str(&mut m, jsonrpc.as_str());
        return Err(ZoteroApiError::BetterBibTeX(m));
    }
    if let Some(e) = error {
        let mut m = "RPC error ".to_owned();
        push_signed_decimal(&mut m, e.code);
        push_str(&mut m, ": ");
        push_str(&mut m, e.message.as_str());
        if let Some(d) = &e.data {
            push_str(&mut m, " (data: ");
            push_str(&mut m, d.as_str());
            push_str(&mut m, ")");
        }
        return Err(ZoteroApiError::BetterBibTeX(m));
    }
    match result {
        Some(v) => Ok(v),
        None => Err(ZoteroApiError::BetterBibTeX("JSON-RPC returned null result".to_owned())),
    }
}

/// The index of the first entry of a citation-key map for `key`.
pub open spec fn citekey_entry(map: Seq<(ItemKey, Option<CitationKey>)>, key: Seq<char>) -> Option<int>
    decreases map.len(),
{
    if map.len() == 0 {
        None
    } else if map[0].0@ == key {
        Some(0)
    } else {
        match citekey_entry(map.drop_first(), key) {
            Some(i) => Some(i + 1),
            None => None,
        }
    }
}

proof fn lemma_citekey_entry_bounds(map: Seq<(ItemKey, Option<CitationKey>)>, key: Seq<char>)
    ensures
        citekey_entry(map, key) matches Some(i) ==> 0 <= i < map.len(),
    decreases map.len(),
{
    if map.len() > 0 {
        lemma_citekey_entry_bounds(map.drop_first(), key);
    }
}

fn citekey_position(map: &[(ItemKey, Option<CitationKey>)], key: &ItemKey) -> (r: Option<usize>)
    ensures
        match citekey_entry(map@, key@) {
            Some(i) => r == Some(i as usize) && 0 <= i < map@.len(),
            None => r is None,
        },
{
    proof {
        lemma_citekey_entry_bounds(map@, key@);
    }
    let mut i: usize = 0;
    assert(map@.skip(0) =~= map@);
    while i < map.len()
        invariant
            i <= map@.len(),
            citekey_entry(map@, key@) == match citekey_entry(map@.skip(i as int), key@) {
                Some(k) => Some(k + i),
                None => None,
            },
        decreases map@.len() - i,
    {
        assert(map@.skip(i as int).drop_first() =~= map@.skip(i + 1));
        if str_eq(map[i].0.as_str(), key.as_str()) {
            return Some(i);
        }
        i = i + 1;
    }
    None
}

/// The citation key of an item in the map that `item.citationkey` answered:
/// the error `no citation key for item {key}` where the item is missing or
/// has none.
pub fn citekey_for_item(map: &[(ItemKey, Option<CitationKey>)], key: &ItemKey) -> (r: Result<
    CitationKey,
    ZoteroApiError,
>)
    ensures
        match citekey_entry(map@, key@) {
            Some(i) => match map@[i].1 {
                Some(c) => r matches Ok(x) && x@ == c@,
                None => r matches Err(ZoteroApiError::BetterBibTeX(m)) && m@ == "no citation key for item "@ + key@,
            },
            None => r matches Err(ZoteroApiError::BetterBibTeX(m)) && m@ == "no citation key for item "@ + key@,
        },
{
    if let Some(i) = citekey_position(map, key) {
        if let Some(c) = &map[i].1 {
            return Ok(CitationKey::from_str(c.as_str()));
        }
    }
    let mut m = "no citation key for item ".to_owned();
    push_str(&mut m, key.as_str());
    Err(ZoteroApiError::BetterBibTeX(m))
}

} // verus!
