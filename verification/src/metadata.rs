//! Metadata resolution of DOIs (Crossref), arXiv identifiers (Semantic
//! Scholar) and ISBNs (Open Library) into item drafts: the service URLs,
//! the reading of the answers, and how an answer's status is judged.
use vstd::prelude::*;
use crate::client::{trim_end_slashes, trim_slashes};
use crate::encoding::{encode_component, url_encode};
use crate::errors::ZoteroApiError;
use crate::json::JsonValue;
use crate::objects::{ItemDraft, ZoteroCreator};
use crate::search::{SearchCondition, SearchField, SearchOperator};
use crate::status::{status_line, status_line_spec};
use crate::objects::ZoteroItem;
use crate::keys::CollectionKey;
use crate::text::{chars_of, decimal, digits_value, is_ascii_digit, parse_unsigned, parse_unsigned_exec, push_str};
use crate::types::{CreatorType, ItemType};

verus! {

/// The identifier namespaces that metadata can be resolved for.
#[derive(Copy, Clone, Debug, PartialEq, Eq)]
pub enum IdentifierKind {
    /// A DOI, resolved through Crossref.
    Doi,
    /// An arXiv identifier, resolved through Semantic Scholar.
    Arxiv,
    /// An ISBN, resolved through Open Library.
    Isbn,
}

pub open spec fn default_crossref_url() -> Seq<char> {
    "https://api.crossref.org"@
}

pub open spec fn default_semantic_scholar_url() -> Seq<char> {
    "https://api.semanticscholar.org"@
}

pub open spec fn default_open_library_url() -> Seq<char> {
    "https://openlibrary.org"@
}

/// The service URL that resolves `id` of kind `kind`, from the given base
/// URL of that service or its default.
pub open spec fn metadata_url_spec(kind: IdentifierKind, id: Seq<char>, crossref: Option<Seq<char>>, semantic_scholar: Option<Seq<char>>, open_library: Option<Seq<char>>) -> Seq<char> {
    match kind {
        IdentifierKind::Doi => trim_slashes(
            match crossref {
                Some(b) => b,
                None => default_crossref_url(),
            },
        ) + "/works/"@ + url_encode(id),
        IdentifierKind::Arxiv => trim_slashes(
            match semantic_scholar {
                Some(b) => b,
                None => default_semantic_scholar_url(),
            },
        ) + "/graph/v1/paper/arXiv:"@ + id + "?fields=title,authors,year,abstract,externalIds,venue"@,
        IdentifierKind::Isbn => trim_slashes(
            match open_library {
                Some(b) => b,
                None => default_open_library_url(),
            },
        ) + "/api/books?bibkeys=ISBN:"@ + id + "&jscmd=data&format=json"@,
    }
}

/// The service URL that resolves an identifier.
pub fn metadata_url(kind: IdentifierKind, id: &str, crossref_base: Option<&str>, semantic_scholar_base: Option<&str>, open_library_base: Option<&str>) -> (r: String)
    ensures
        r@ == metadata_url_spec(
            kind,
            id@,
            match crossref_base {
                Some(s) => Some(s@),
                None => None,
            },
            match semantic_scholar_base {
                Some(s) => Some(s@),
                None => None,
            },
            match open_library_base {
                Some(s) => Some(s@),
                None => None,
            },
        ),
{
    match kind {
        IdentifierKind::Doi => {
            let base = match crossref_base {
                Some(b) => b,
                None => "https://api.crossref.org",
            };
            let mut url = trim_end_slashes(base);
            push_str(&mut url, "/works/");
            let enc = encode_component(id);
            push_str(&mut url, enc.as_str());
            url
        },
        IdentifierKind::Arxiv => {
            let base = match semantic_scholar_base {
                Some(b) => b,
                None => "https://api.semanticscholar.org",
            };
            let mut url = trim_end_slashes(base);
            push_str(&mut url, "/graph/v1/paper/arXiv:");
            push_str(&mut url, id);
            push_str(&mut url, "?fields=title,authors,year,abstract,externalIds,venue");
            url
        },
        IdentifierKind::Isbn => {
            let base = match open_library_base {
                Some(b) => b,
                None => "https://openlibrary.org",
            };
            let mut url = trim_end_slashes(base);
            push_str(&mut url, "/api/books?bibkeys=ISBN:");
            push_str(&mut url, id);
            push_str(&mut url, "&jscmd=data&format=json");
            url
        },
    }
}

/// The error of a metadata answer: `404` means nothing was found at `url`,
/// another status outside 2xx is reported with its status line; `None` for
/// 2xx.
pub fn metadata_status_error(status: u16, url: &str) -> (r: Option<ZoteroApiError>)
    requires
        100 <= status <= 999,
    ensures
        status == 404 ==> (r matches Some(ZoteroApiError::NotFound(m)) && m@ == "No metadata found for "@ + url@),
        status != 404 && !crate::client::is_success(status) ==> (r matches Some(
            ZoteroApiError::LocalApi { status: s, message },
        ) && s == status && message@ == status_line_spec(status)),
        status != 404 && crate::client::is_success(status) ==> r is None,
{
    if status == 404 {
        let mut m = "No metadata found for ".to_owned();
        push_str(&mut m, url);
        Some(ZoteroApiError::NotFound(m))
    } else if 200 <= status && status <= 299 {
        None
    } else {
        Some(ZoteroApiError::LocalApi { status, message: status_line(status) })
    }
}

/// The value reached from `v` by following `path`: a segment that reads as
/// an index selects an array element, any other selects an object member.
pub open spec fn value_at_spec(v: JsonValue, path: Seq<Seq<char>>) -> Option<JsonValue>
    decreases path.len(),
{
    if path.len() == 0 {
        Some(v)
    } else {
        let next = match parse_unsigned(path[0], usize::MAX as nat) {
            Some(i) => v.at_spec(i as int),
            None => v.get_spec(path[0]),
        };
        match next {
            Some(n) => value_at_spec(n, path.drop_first()),
            None => None,
        }
    }
}

/// The views of path segments.
pub open spec fn seg_views(path: Seq<&str>) -> Seq<Seq<char>> {
    path.map_values(|s: &str| s@)
}

/// Follows `path` from `value`.
pub fn value_at<'a>(value: &'a JsonValue, path: &[&str]) -> (r: Option<&'a JsonValue>)
    ensures
        match value_at_spec(*value, seg_views(path@)) {
            Some(v) => r matches Some(x) && *x == v,
            None => r is None,
        },
{
    let mut current = value;
    let mut i: usize = 0;
    assert(seg_views(path@).skip(0) == seg_views(path@));
    while i < path.len()
        invariant
            i <= path@.len(),
            value_at_spec(*value, seg_views(path@)) == value_at_spec(*current, seg_views(path@).skip(i as int)),
        decreases path@.len() - i,
    {
        let seg = path[i];
        let ghost rest = seg_views(path@).skip(i as int);
        assert(rest[0] == seg@);
        assert(rest.drop_first() == seg_views(path@).skip(i + 1));
        let next = match parse_unsigned_exec(seg, usize::MAX as u64) {
            Some(idx) => current.at(idx as usize),
            None => current.get(seg),
        };
        match next {
            Some(n) => {
                current = n;
            },
            None => {
                return None;
            },
        }
        i = i + 1;
    }
    assert(seg_views(path@).skip(i as int).len() == 0);
    Some(current)
}

/// The text at `path`, when a string is there.
pub open spec fn str_at_spec(v: JsonValue, path: Seq<Seq<char>>) -> Option<Seq<char>> {
    match value_at_spec(v, path) {
        Some(JsonValue::String(s)) => Some(s@),
        _ => None,
    }
}

/// The text at `path`, or the empty text.
pub open spec fn text_at(v: JsonValue, path: Seq<Seq<char>>) -> Seq<char> {
    match str_at_spec(v, path) {
        Some(s) => s,
        None => Seq::empty(),
    }
}

/// The text at `path`, when a string is there.
pub fn str_at<'a>(value: &'a JsonValue, path: &[&str]) -> (r: Option<&'a str>)
    ensures
        match str_at_spec(*value, seg_views(path@)) {
            Some(s) => r matches Some(t) && t@ == s,
            None => r is None,
        },
{
    match value_at(value, path) {
        Some(v) => v.as_str(),
        None => None,
    }
}

fn text_at_exec(value: &JsonValue, path: &[&str]) -> (r: String)
    ensures
        r@ == text_at(*value, seg_views(path@)),
{
    match str_at(value, path) {
        Some(s) => s.to_owned(),
        None => String::new(),
    }
}

/// The integer that a JSON number's text denotes, when it is an integer
/// that fits in an `i64` (digits, with a `-` for a negative one).
pub open spec fn json_i64(t: Seq<char>) -> Option<int> {
    if t.len() > 0 && t[0] == '-' {
        let d = t.drop_first();
        if d.len() > 0 && (forall|i: int| 0 <= i < d.len() ==> is_ascii_digit(#[trigger] d[i])) && digits_value(d)
            <= 0x8000_0000_0000_0000 {
            Some(-(digits_value(d) as int))
        } else {
            None
        }
    } else {
        if t.len() > 0 && t[0] != '+' && (forall|i: int| 0 <= i < t.len() ==> is_ascii_digit(#[trigger] t[i]))
            && digits_value(t) <= 0x7fff_ffff_ffff_ffff {
            Some(digits_value(t) as int)
        } else {
            None
        }
    }
}

/// The decimal text of an integer, with `-` for a negative one.
pub open spec fn int_text(v: int) -> Seq<char> {
    if v < 0 {
        "-"@ + decimal((-v) as nat)
    } else {
        decimal(v as nat)
    }
}

/// The integer at `path`, as its decimal text.
pub open spec fn int_text_at(v: JsonValue, path: Seq<Seq<char>>) -> Option<Seq<char>> {
    match value_at_spec(v, path) {
        Some(JsonValue::Number(n)) => match json_i64(n@) {
            Some(i) => Some(int_text(i)),
            None => None,
        },
        _ => None,
    }
}

fn int_text_at_exec(value: &JsonValue, path: &[&str]) -> (r: Option<String>)
    ensures
        match int_text_at(*value, seg_views(path@)) {
            Some(t) => r matches Some(s) && s@ == t,
            None => r is None,
        },
{
    match value_at(value, path) {
        Some(JsonValue::Number(n)) => {
            let cs = chars_of(n.as_str());
            let neg = cs.len() > 0 && cs[0] == '-';
            let start: usize = if neg {
                1
            } else {
                0
            };
            if start >= cs.len() || cs[start] == '+' {
                proof {
                    if neg && start < cs.len() {
                        assert(cs@.drop_first()[0] == cs@[1]);
                        assert(!is_ascii_digit(cs@.drop_first()[0]));
                    }
                }
                return None;
            }
            let digits = crate::text::string_of(&cs.as_slice()[start..cs.len()]);
            assert(digits@ == cs@.skip(start as int));
            assert(neg ==> digits@ == cs@.drop_first());
            assert(!neg ==> digits@ == cs@);
            assert(crate::text::unsigned_body(digits@) == digits@);
            let max: u64 = if neg {
                0x8000_0000_0000_0000
            } else {
                0x7fff_ffff_ffff_ffff
            };
            match parse_unsigned_exec(digits.as_str(), max) {
                Some(v) => {
                    if neg && v > 0 {
                        let mut s = "-".to_owned();
                        crate::text::push_decimal(&mut s, v);
                        Some(s)
                    } else {
                        Some(crate::text::decimal_string(v))
                    }
                },
                None => None,
            }
        },
        _ => None,
    }
}

/// An author credited by first and last name.
pub open spec fn person_creator(c: ZoteroCreator, first: Seq<char>, last: Seq<char>) -> bool {
    &&& c.creator_type == Some(CreatorType::Author)
    &&& crate::objects::opt_view(c.first_name) == Some(first)
    &&& crate::objects::opt_view(c.last_name) == Some(last)
    &&& c.name is None
}

/// An author credited by a single name.
pub open spec fn named_creator(c: ZoteroCreator, name: Seq<char>) -> bool {
    &&& c.creator_type == Some(CreatorType::Author)
    &&& c.first_name is None
    &&& c.last_name is None
    &&& crate::objects::opt_view(c.name) == Some(name)
}

/// The elements of the array member `key` of `v`, or none.
pub open spec fn array_member(v: JsonValue, key: Seq<char>) -> Seq<JsonValue> {
    match v.get_spec(key) {
        Some(JsonValue::Array(items)) => items@,
        _ => Seq::empty(),
    }
}

/// The creators listed in the `authors` array of `container`, each by the
/// text of its `name` (empty when missing).
pub fn named_creators(container: &JsonValue) -> (r: Vec<ZoteroCreator>)
    ensures
        r@.len() == array_member(*container, "authors"@).len(),
        forall|i: int|
            0 <= i < r@.len() ==> named_creator(
                #[trigger] r@[i],
                text_at(array_member(*container, "authors"@)[i], seq!["name"@]),
            ),
{
    let mut out: Vec<ZoteroCreator> = Vec::new();
    match container.get("authors") {
        Some(JsonValue::Array(items)) => {
            let mut i: usize = 0;
            while i < items.len()
                invariant
                    i <= items@.len(),
                    array_member(*container, "authors"@) == items@,
                    out@.len() == i,
                    forall|k: int|
                        0 <= k < i ==> named_creator(#[trigger] out@[k], text_at(items@[k], seq!["name"@])),
                decreases items@.len() - i,
            {
                let path: [&str; 1] = ["name"];
                assert(seg_views(path@) =~= seq!["name"@]);
                let name = text_at_exec(&items[i], path.as_slice());
                out.push(ZoteroCreator { creator_type: Some(CreatorType::Author), first_name: None, last_name: None, name: Some(name) });
                i = i + 1;
            }
        },
        _ => {},
    }
    out
}

/// The draft of a Crossref answer for `doi`: a journal article with the
/// first title, the authors by given and family name, the year published
/// (else issued), the DOI and URL given (the DOI asked for when none), and
/// the first container title.
pub open spec fn doi_draft_spec(body: JsonValue, doi: Seq<char>, d: ItemDraft) -> bool {
    let msg = match body.get_spec("message"@) {
        Some(m) => m,
        None => JsonValue::Null,
    };
    let authors = array_member(msg, "author"@);
    &&& d.item_type == ItemType::JournalArticle
    &&& d.title@ == text_at(msg, seq!["title"@, "0"@])
    &&& d.creators@.len() == authors.len()
    &&& forall|i: int|
        0 <= i < authors.len() ==> person_creator(
            #[trigger] d.creators@[i],
            text_at(authors[i], seq!["given"@]),
            text_at(authors[i], seq!["family"@]),
        )
    &&& d.date@ == match int_text_at(msg, seq!["published"@, "date-parts"@, "0"@, "0"@]) {
        Some(y) => y,
        None => match int_text_at(msg, seq!["issued"@, "date-parts"@, "0"@, "0"@]) {
            Some(y) => y,
            None => Seq::empty(),
        },
    }
    &&& d.doi@ == match str_at_spec(msg, seq!["DOI"@]) {
        Some(x) => x,
        None => doi,
    }
    &&& d.url@ == text_at(msg, seq!["URL"@])
    &&& d.publication_title@ == text_at(msg, seq!["container-title"@, "0"@])
    &&& d.abstract_note@.len() == 0 && d.isbn@.len() == 0 && d.publisher@.len() == 0
    &&& d.collections@.len() == 0
}

fn empty_draft(item_type: ItemType) -> (d: ItemDraft)
    ensures
        d.item_type == item_type,
        d.title@.len() == 0 && d.creators@.len() == 0 && d.date@.len() == 0 && d.doi@.len() == 0,
        d.url@.len() == 0 && d.publication_title@.len() == 0 && d.abstract_note@.len() == 0,
        d.isbn@.len() == 0 && d.publisher@.len() == 0 && d.collections@.len() == 0,
{
    ItemDraft {
        item_type,
        title: String::new(),
        creators: Vec::new(),
        date: String::new(),
        doi: String::new(),
        url: String::new(),
        publication_title: String::new(),
        abstract_note: String::new(),
        isbn: String::new(),
        publisher: String::new(),
        collections: Vec::new(),
    }
}

/// The creators listed in the `author` array of `container`, each by the
/// texts of its `given` and `family` names (empty when missing).
pub fn person_creators(container: &JsonValue) -> (r: Vec<ZoteroCreator>)
    ensures
        r@.len() == array_member(*container, "author"@).len(),
        forall|i: int|
            0 <= i < r@.len() ==> person_creator(
                #[trigger] r@[i],
                text_at(array_member(*container, "author"@)[i], seq!["given"@]),
                text_at(array_member(*container, "author"@)[i], seq!["family"@]),
            ),
{
    let mut out: Vec<ZoteroCreator> = Vec::new();
    match container.get("author") {
        Some(JsonValue::Array(items)) => {
            let mut i: usize = 0;
            while i < items.len()
                invariant
                    i <= items@.len(),
                    array_member(*container, "author"@) == items@,
                    out@.len() == i,
                    forall|k: int|
                        0 <= k < i ==> person_creator(
                            #[trigger] out@[k],
                            text_at(items@[k], seq!["given"@]),
                            text_at(items@[k], seq!["family"@]),
                        ),
                decreases items@.len() - i,
            {
                let pg: [&str; 1] = ["given"];
                let pf: [&str; 1] = ["family"];
                assert(seg_views(pg@) =~= seq!["given"@]);
                assert(seg_views(pf@) =~= seq!["family"@]);
                let first = text_at_exec(&items[i], pg.as_slice());
                let last = text_at_exec(&items[i], pf.as_slice());
                out.push(ZoteroCreator { creator_type: Some(CreatorType::Author), first_name: Some(first), last_name: Some(last), name: None });
                i = i + 1;
            }
        },
        _ => {},
    }
    out
}

/// The draft of a Crossref answer for `doi`.
pub fn doi_draft(body: &JsonValue, doi: &str) -> (d: ItemDraft)
    ensures
        doi_draft_spec(*body, doi@, d),
{
    let null = JsonValue::Null;
    let msg = match body.get("message") {
        Some(m) => m,
        None => &null,
    };
    let mut d = empty_draft(ItemType::JournalArticle);
    let p_title: [&str; 2] = ["title", "0"];
    assert(seg_views(p_title@) =~= seq!["title"@, "0"@]);
    d.title = text_at_exec(msg, p_title.as_slice());
    d.creators = person_creators(msg);
    let p_pub: [&str; 4] = ["published", "date-parts", "0", "0"];
    let p_iss: [&str; 4] = ["issued", "date-parts", "0", "0"];
    assert(seg_views(p_pub@) =~= seq!["published"@, "date-parts"@, "0"@, "0"@]);
    assert(seg_views(p_iss@) =~= seq!["issued"@, "date-parts"@, "0"@, "0"@]);
    d.date = match int_text_at_exec(msg, p_pub.as_slice()) {
        Some(y) => y,
        None => match int_text_at_exec(msg, p_iss.as_slice()) {
            Some(y) => y,
            None => String::new(),
        },
    };
    let p_doi: [&str; 1] = ["DOI"];
    assert(seg_views(p_doi@) =~= seq!["DOI"@]);
    d.doi = match str_at(msg, p_doi.as_slice()) {
        Some(x) => x.to_owned(),
        None => doi.to_owned(),
    };
    let p_url: [&str; 1] = ["URL"];
    assert(seg_views(p_url@) =~= seq!["URL"@]);
    d.url = text_at_exec(msg, p_url.as_slice());
    let p_ct: [&str; 2] = ["container-title", "0"];
    assert(seg_views(p_ct@) =~= seq!["container-title"@, "0"@]);
    d.publication_title = text_at_exec(msg, p_ct.as_slice());
    d
}

/// The draft of a Semantic Scholar answer for an arXiv identifier: a
/// journal article when the paper has a DOI, else a preprint; its title,
/// authors by name, year, DOI, arXiv URL, abstract and venue.
pub open spec fn arxiv_draft_spec(body: JsonValue, arxiv_id: Seq<char>, d: ItemDraft) -> bool {
    let doi = str_at_spec(body, seq!["externalIds"@, "DOI"@]);
    let authors = array_member(body, "authors"@);
    &&& d.item_type == if doi is Some {
        ItemType::JournalArticle
    } else {
        ItemType::Preprint
    }
    &&& d.title@ == text_at(body, seq!["title"@])
    &&& d.creators@.len() == authors.len()
    &&& forall|i: int|
        0 <= i < authors.len() ==> named_creator(#[trigger] d.creators@[i], text_at(authors[i], seq!["name"@]))
    &&& d.date@ == match int_text_at(body, seq!["year"@]) {
        Some(y) => y,
        None => Seq::empty(),
    }
    &&& d.doi@ == match doi {
        Some(x) => x,
        None => Seq::empty(),
    }
    &&& d.url@ == "https://arxiv.org/abs/"@ + arxiv_id
    &&& d.abstract_note@ == text_at(body, seq!["abstract"@])
    &&& d.publication_title@ == text_at(body, seq!["venue"@])
    &&& d.isbn@.len() == 0 && d.publisher@.len() == 0 && d.collections@.len() == 0
}

/// The draft of a Semantic Scholar answer for an arXiv identifier.
pub fn arxiv_draft(body: &JsonValue, arxiv_id: &str) -> (d: ItemDraft)
    ensures
        arxiv_draft_spec(*body, arxiv_id@, d),
{
    let p_doi: [&str; 2] = ["externalIds", "DOI"];
    assert(seg_views(p_doi@) =~= seq!["externalIds"@, "DOI"@]);
    let doi = str_at(body, p_doi.as_slice());
    let kind = match doi {
        Some(_) => ItemType::JournalArticle,
        None => ItemType::Preprint,
    };
    let mut d = empty_draft(kind);
    let p_title: [&str; 1] = ["title"];
    assert(seg_views(p_title@) =~= seq!["title"@]);
    d.title = text_at_exec(body, p_title.as_slice());
    d.creators = named_creators(body);
    let p_year: [&str; 1] = ["year"];
    assert(seg_views(p_year@) =~= seq!["year"@]);
    d.date = match int_text_at_exec(body, p_year.as_slice()) {
        Some(y) => y,
        None => String::new(),
    };
    d.doi = match doi {
        Some(x) => x.to_owned(),
        None => String::new(),
    };
    let mut url = "https://arxiv.org/abs/".to_owned();
    push_str(&mut url, arxiv_id);
    d.url = url;
    let p_abs: [&str; 1] = ["abstract"];
    assert(seg_views(p_abs@) =~= seq!["abstract"@]);
    d.abstract_note = text_at_exec(body, p_abs.as_slice());
    let p_venue: [&str; 1] = ["venue"];
    assert(seg_views(p_venue@) =~= seq!["venue"@]);
    d.publication_title = text_at_exec(body, p_venue.as_slice());
    d
}

/// The draft of an Open Library answer for `isbn`: a book with the record's
/// title, authors by name, publish date, first publisher, URL and the ISBN
/// asked for.
pub open spec fn isbn_draft_spec(record: JsonValue, isbn: Seq<char>, d: ItemDraft) -> bool {
    let authors = array_member(record, "authors"@);
    &&& d.item_type == ItemType::Book
    &&& d.title@ == text_at(record, seq!["title"@])
    &&& d.creators@.len() == authors.len()
    &&& forall|i: int|
        0 <= i < authors.len() ==> named_creator(#[trigger] d.creators@[i], text_at(authors[i], seq!["name"@]))
    &&& d.date@ == text_at(record, seq!["publish_date"@])
    &&& d.isbn@ == isbn
    &&& d.publisher@ == text_at(record, seq!["publishers"@, "0"@, "name"@])
    &&& d.url@ == text_at(record, seq!["url"@])
    &&& d.doi@.len() == 0 && d.publication_title@.len() == 0 && d.abstract_note@.len() == 0
    &&& d.collections@.len() == 0
}

/// The draft of an Open Library answer for `isbn`, or not found when the
/// answer has no `ISBN:{isbn}` record.
pub fn isbn_draft(body: &JsonValue, isbn: &str) -> (r: Result<ItemDraft, ZoteroApiError>)
    ensures
        match body.get_spec("ISBN:"@ + isbn@) {
            Some(record) => r matches Ok(d) && isbn_draft_spec(record, isbn@, d),
            None => r matches Err(ZoteroApiError::NotFound(m)) && m@ == "No book found for ISBN "@ + isbn@,
        },
{
    let mut key = "ISBN:".to_owned();
    push_str(&mut key, isbn);
    let record = match body.get(key.as_str()) {
        Some(r) => r,
        None => {
            let mut m = "No book found for ISBN ".to_owned();
            push_str(&mut m, isbn);
            return Err(ZoteroApiError::NotFound(m));
        },
    };
    let mut d = empty_draft(ItemType::Book);
    let p_title: [&str; 1] = ["title"];
    assert(seg_views(p_title@) =~= seq!["title"@]);
    d.title = text_at_exec(record, p_title.as_slice());
    d.creators = named_creators(record);
    let p_pub: [&str; 3] = ["publishers", "0", "name"];
    assert(seg_views(p_pub@) =~= seq!["publishers"@, "0"@, "name"@]);
    d.publisher = text_at_exec(record, p_pub.as_slice());
    let p_date: [&str; 1] = ["publish_date"];
    assert(seg_views(p_date@) =~= seq!["publish_date"@]);
    d.date = text_at_exec(record, p_date.as_slice());
    d.isbn = isbn.to_owned();
    let p_url: [&str; 1] = ["url"];
    assert(seg_views(p_url@) =~= seq!["url"@]);
    d.url = text_at_exec(record, p_url.as_slice());
    Ok(d)
}

/// The conditions of the search for an item that already has the draft's
/// title: `title is {title}`; none for a draft without a title.
pub fn duplicate_title_conditions(draft: &ItemDraft) -> (r: Option<Vec<SearchCondition>>)
    ensures
        draft.title@.len() == 0 ==> r is None,
        draft.title@.len() > 0 ==> (r matches Some(cs) && cs@.len() == 1 && cs@[0].field == SearchField::Title
            && cs@[0].operator == SearchOperator::Is && cs@[0].value@ == draft.title@),
{
    if draft.title.as_str().is_empty() {
        return None;
    }
    let mut cs: Vec<SearchCondition> = Vec::new();
    cs.push(
        SearchCondition {
            field: SearchField::Title,
            operator: SearchOperator::Is,
            value: draft.title.as_str().to_owned(),
        },
    );
    Some(cs)
}

/// What becomes of an identifier's metadata once the search for a
/// duplicate has answered.
#[derive(Debug)]
pub enum ImportDecision {
    /// The library already holds the item: it is returned as it is.
    UseExisting(ZoteroItem),
    /// The draft is created, filed into the collection asked for.
    Create(ItemDraft),
}

/// Returns the item found by the duplicate search, if there is one;
/// otherwise the draft to create, with the collection added to its
/// collections where one is given.
pub fn import_decision(draft: ItemDraft, existing: Option<ZoteroItem>, collection_key: Option<String>) -> (r:
    ImportDecision)
    ensures
        match existing {
            Some(x) => r == ImportDecision::UseExisting(x),
            None => r matches ImportDecision::Create(d) && d.title == draft.title && d.item_type == draft.item_type
                && d.creators == draft.creators && d.date == draft.date && d.doi == draft.doi && d.url == draft.url
                && d.publication_title == draft.publication_title && d.abstract_note == draft.abstract_note
                && d.isbn == draft.isbn && d.publisher == draft.publisher && match collection_key {
                Some(k) => d.collections@.len() == draft.collections@.len() + 1 && d.collections@.take(
                    draft.collections@.len() as int,
                ) == draft.collections@ && d.collections@.last()@ == k@,
                None => d.collections == draft.collections,
            },
        },
{
    match existing {
        Some(x) => ImportDecision::UseExisting(x),
        None => {
            let mut d = draft;
            if let Some(k) = collection_key {
                let ghost before = d.collections@;
                d.collections.push(CollectionKey::new(k));
                assert(d.collections@.take(before.len() as int) =~= before);
            }
            ImportDecision::Create(d)
        },
    }
}

} // verus!
