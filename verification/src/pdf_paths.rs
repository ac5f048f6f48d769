//! Where the PDF of an item lies: the file roots that the companion bridge
//! reports, the resolution of imported and linked attachments to paths, and
//! the security checks a PDF path passes before it is read.
use vstd::prelude::*;
use crate::client::{trim_end_slashes, trim_slashes};
use crate::errors::ZoteroApiError;
use crate::objects::ZoteroItem;
use crate::paths::{join_path, path_join};
use crate::errors::rejects;
use crate::paths::path_under;
use crate::security::{
    allowed_under, direct_paths_disabled, has_pdf_extension, not_pdf_message, outside_message, pdf_too_large_message,
    SecurityConfig,
};
use crate::text::{chars_of, push_str, starts_with, str_eq, string_of, views};
use crate::types::{ItemType, LinkMode};

verus! {

/// The scheme of a URL, as the `url` crate parses it; `None` where it does
/// not parse.
pub uninterp spec fn url_scheme_of(href: Seq<char>) -> Option<Seq<char>>;

/// Calls `url::Url::parse` and then `scheme`: the scheme of the parsed URL,
/// `None` where the text does not parse as a URL.
#[verifier::external_body]
fn url_scheme(href: &str) -> (r: Option<String>)
    ensures
        match r {
            Some(s) => url_scheme_of(href@) == Some(s@),
            None => url_scheme_of(href@) is None,
        },
{
    match url::Url::parse(href) {
        Ok(u) => Some(u.scheme().to_owned()),
        Err(_) => None,
    }
}

/// The local path that the `url` crate gives for a URL: `Url::parse`, then
/// `to_file_path`, taken as a string; `None` where the text does not parse,
/// where `to_file_path` refuses it, or where the path is not UTF-8. The
/// conversion follows the path conventions of the target the crate is built
/// for, and the name stands for it as built.
pub uninterp spec fn url_file_path_of(href: Seq<char>) -> Option<Seq<char>>;

/// Calls `url::Url::parse`, then `to_file_path`, and takes the path as a
/// string: the result is the crate's conversion of `href`, and a path comes
/// back only from a URL that parses.
#[verifier::external_body]
fn url_to_file_path(href: &str) -> (r: Option<String>)
    ensures
        match r {
            Some(p) => url_file_path_of(href@) == Some(p@),
            None => url_file_path_of(href@) is None,
        },
        r is Some ==> url_scheme_of(href@) is Some,
{
    match url::Url::parse(href) {
        Ok(u) => match u.to_file_path() {
            Ok(p) => p.into_os_string().into_string().ok(),
            Err(_) => None,
        },
        Err(_) => None,
    }
}

/// The local path of a URL: the `url` crate's conversion of a `file` URL,
/// nothing for a URL of another scheme or one that does not parse.
pub open spec fn file_url_path_spec(href: Seq<char>) -> Option<Seq<char>> {
    if url_scheme_of(href) == Some("file"@) {
        url_file_path_of(href)
    } else {
        None
    }
}

/// The local path of a `file://` URL; `None` for a URL of another scheme or
/// one that does not parse.
pub fn file_url_to_path(href: &str) -> (r: Option<String>)
    ensures
        opt_view(r) == file_url_path_spec(href@),
{
    match url_scheme(href) {
        Some(s) => {
            if !str_eq(s.as_str(), "file") {
                return None;
            }
            url_to_file_path(href)
        },
        None => None,
    }
}

/// The kind of a file root that the bridge reports.
#[derive(Copy, Clone, Debug, PartialEq, Eq, Structural)]
pub enum FileRootKind {
    /// Zotero's managed storage.
    ZoteroStorage,
    /// The base directory of linked files.
    ZoteroLinkedBase,
    /// The destination directory of the Attanger plugin.
    AttangerDest,
    /// A root that PDF reads do not use.
    Other,
}

/// The kind that a wire name denotes: kebab-case names, anything else
/// `Other`.
pub open spec fn root_kind_named(s: Seq<char>) -> FileRootKind {
    if s == "zotero-storage"@ {
        FileRootKind::ZoteroStorage
    } else if s == "zotero-linked-base"@ {
        FileRootKind::ZoteroLinkedBase
    } else if s == "attanger-dest"@ {
        FileRootKind::AttangerDest
    } else {
        FileRootKind::Other
    }
}

impl FileRootKind {
    /// The kind of a wire name.
    pub fn from_wire(s: &str) -> (r: FileRootKind)
        ensures
            r == root_kind_named(s@),
    {
        if str_eq(s, "zotero-storage") {
            FileRootKind::ZoteroStorage
        } else if str_eq(s, "zotero-linked-base") {
            FileRootKind::ZoteroLinkedBase
        } else if str_eq(s, "attanger-dest") {
            FileRootKind::AttangerDest
        } else {
            FileRootKind::Other
        }
    }
}

/// A file root as the bridge reports it.
#[derive(Clone, Debug)]
pub struct BridgeFileRoot {
    pub kind: FileRootKind,
    pub path: String,
}

/// A file root accepted for PDF reads.
#[derive(Clone, Debug)]
pub struct BridgePdfRoot {
    pub kind: FileRootKind,
    pub path: String,
}

/// The reported roots that PDF reads use: those of a known kind with a
/// path, in order.
pub open spec fn kept_root(r: BridgeFileRoot) -> bool {
    r.kind != FileRootKind::Other && r.path@.len() > 0
}

/// The roots accepted for PDF reads, in the order reported.
pub fn pdf_roots(reported: Vec<BridgeFileRoot>) -> (r: Vec<BridgePdfRoot>)
    ensures
        r@.len() == reported@.filter(|x: BridgeFileRoot| kept_root(x)).len(),
        forall|i: int|
            0 <= i < r@.len() ==> (#[trigger] r@[i]).kind == reported@.filter(
                |x: BridgeFileRoot| kept_root(x),
            )[i].kind && r@[i].path@ == reported@.filter(|x: BridgeFileRoot| kept_root(x))[i].path@,
{
    let ghost src = reported@;
    let ghost pred = |x: BridgeFileRoot| kept_root(x);
    let n = reported.len();
    let mut rest = reported;
    let mut out: Vec<BridgePdfRoot> = Vec::new();
    let mut i: usize = 0;
    assert(src.take(0) =~= Seq::<BridgeFileRoot>::empty());
    proof {
        reveal(Seq::filter);
    }
    while i < n
        invariant
            n == src.len(),
            i <= n,
            rest@ == src.skip(i as int),
            pred == (|x: BridgeFileRoot| kept_root(x)),
            out@.len() == src.take(i as int).filter(pred).len(),
            forall|j: int|
                0 <= j < out@.len() ==> (#[trigger] out@[j]).kind == src.take(i as int).filter(pred)[j].kind
                    && out@[j].path@ == src.take(i as int).filter(pred)[j].path@,
        decreases n - i,
    {
        let x = rest.remove(0);
        assert(x == src[i as int]);
        assert(rest@ == src.skip(i + 1));
        proof {
            reveal(Seq::filter);
            assert(src.take(i + 1).drop_last() =~= src.take(i as int));
            assert(src.take(i + 1).last() == x);
        }
        if x.kind != FileRootKind::Other && !x.path.as_str().is_empty() {
            out.push(BridgePdfRoot { kind: x.kind, path: x.path });
        }
        i = i + 1;
    }
    assert(src.take(n as int) =~= src);
    out
}

/// The endpoint of the bridge that reports file roots.
pub fn file_roots_url(bridge_base: &str) -> (r: String)
    ensures
        r@ == trim_slashes(bridge_base@) + "/file-roots"@,
{
    let mut url = trim_end_slashes(bridge_base);
    push_str(&mut url, "/file-roots");
    url
}

/// A PDF path found for an item, and whether it must still be checked
/// against the allowed roots.
#[derive(Clone, Debug)]
pub enum ResolvedPdfPath {
    /// The path of an imported file, given by Zotero's own enclosure link.
    Trusted(String),
    /// The path of a linked file, to be checked against the allowed roots.
    NeedsRootCheck(String),
}

impl ResolvedPdfPath {
    /// The path, whichever check it needs.
    pub open spec fn path_spec(self) -> Seq<char> {
        match self {
            ResolvedPdfPath::Trusted(p) => p@,
            ResolvedPdfPath::NeedsRootCheck(p) => p@,
        }
    }

    /// The path.
    pub fn into_path(self) -> (r: String)
        ensures
            r@ == self.path_spec(),
    {
        match self {
            ResolvedPdfPath::Trusted(p) => p,
            ResolvedPdfPath::NeedsRootCheck(p) => p,
        }
    }
}

/// The number of leading `/` and `\` of a text.
pub open spec fn leading_slashes(s: Seq<char>) -> nat
    decreases s.len(),
{
    if s.len() > 0 && (s[0] == '/' || s[0] == '\\') {
        1 + leading_slashes(s.drop_first())
    } else {
        0
    }
}

/// The first linked-base root, if any.
pub open spec fn first_linked_base(roots: Seq<BridgePdfRoot>) -> Option<Seq<char>>
    decreases roots.len(),
{
    if roots.len() == 0 {
        None
    } else if roots[0].kind == FileRootKind::ZoteroLinkedBase {
        Some(roots[0].path@)
    } else {
        first_linked_base(roots.drop_first())
    }
}

/// The path of a linked attachment: a path stored as `attachments:rel` is
/// `rel`, without leading separators, under the first linked-base root (none
/// without such a root); any other path is taken as it is.
pub open spec fn linked_path_spec(raw: Seq<char>, roots: Seq<BridgePdfRoot>) -> Option<Seq<char>> {
    if starts_with(raw, "attachments:"@) {
        let rel = raw.skip(12);
        let rel = rel.skip(leading_slashes(rel) as int);
        match first_linked_base(roots) {
            Some(base) => Some(path_join(base, rel)),
            None => None,
        }
    } else {
        Some(raw)
    }
}

fn first_linked_base_exec(roots: &[BridgePdfRoot]) -> (r: Option<&str>)
    ensures
        match first_linked_base(roots@) {
            Some(b) => r matches Some(s) && s@ == b,
            None => r is None,
        },
{
    let mut i: usize = 0;
    assert(roots@.skip(0) =~= roots@);
    while i < roots.len()
        invariant
            i <= roots@.len(),
            first_linked_base(roots@) == first_linked_base(roots@.skip(i as int)),
        decreases roots@.len() - i,
    {
        assert(roots@.skip(i as int).drop_first() =~= roots@.skip(i + 1));
        if roots[i].kind == FileRootKind::ZoteroLinkedBase {
            return Some(roots[i].path.as_str());
        }
        i = i + 1;
    }
    None
}

/// The path of a linked attachment's stored path.
pub fn resolve_linked_attachment_path(raw_path: &str, roots: &[BridgePdfRoot]) -> (r: Option<String>)
    ensures
        match linked_path_spec(raw_path@, roots@) {
            Some(p) => r matches Some(s) && s@ == p,
            None => r is None,
        },
{
    let cs = chars_of(raw_path);
    proof {
        reveal_strlit("attachments:");
    }
    let prefix = chars_of("attachments:");
    if !crate::text::starts_with_exec(cs.as_slice(), prefix.as_slice()) {
        return Some(raw_path.to_owned());
    }
    let mut i: usize = 12;
    assert(cs@.skip(12).skip(0) =~= cs@.skip(12));
    while i < cs.len() && (cs[i] == '/' || cs[i] == '\\')
        invariant
            12 <= i <= cs@.len(),
            leading_slashes(cs@.skip(12)) == (i - 12) + leading_slashes(cs@.skip(i as int)),
        decreases cs@.len() - i,
    {
        assert(cs@.skip(i as int).drop_first() =~= cs@.skip(i + 1));
        i = i + 1;
    }
    assert(leading_slashes(cs@.skip(i as int)) == 0);
    assert(cs@.skip(12).skip(i - 12) =~= cs@.skip(i as int));
    let mut rel = String::new();
    let start = i;
    while i < cs.len()
        invariant
            start <= i <= cs@.len(),
            rel@ == cs@.subrange(start as int, i as int),
        decreases cs@.len() - i,
    {
        crate::text::push_char(&mut rel, cs[i]);
        i = i + 1;
        assert(rel@ =~= cs@.subrange(start as int, i as int));
    }
    assert(cs@.subrange(start as int, cs@.len() as int) =~= cs@.skip(start as int));
    match first_linked_base_exec(roots) {
        Some(base) => Some(join_path(base, rel.as_str())),
        None => None,
    }
}

/// The path of an imported attachment: the local path of its enclosure
/// link.
pub fn enclosure_file_path(item: &ZoteroItem) -> (r: Option<String>)
    ensures
        opt_view(r) == enclosure_path_spec(*item),
{
    match &item.links {
        Some(l) => match l.href("enclosure") {
            Some(h) => file_url_to_path(h),
            None => None,
        },
        None => None,
    }
}

/// The local path of an item's enclosure link: the conversion of the
/// `href` of its `enclosure` link, when it is a `file` URL.
pub open spec fn enclosure_path_spec(item: ZoteroItem) -> Option<Seq<char>> {
    match item.links {
        Some(l) => match l.href_spec("enclosure"@) {
            Some(h) => file_url_path_spec(h),
            None => None,
        },
        None => None,
    }
}

/// The view of an optional string.
pub open spec fn opt_view(o: Option<String>) -> Option<Seq<char>> {
    match o {
        Some(s) => Some(s@),
        None => None,
    }
}

/// How an attachment resolves to a PDF path, given what its enclosure link
/// gives (`enclosure`): an imported file by its enclosure; a linked file by
/// its stored path; any attachment of type `application/pdf` by its stored
/// path too; nothing else.
pub open spec fn attachment_pdf_spec(item: ZoteroItem, enclosure: Option<Seq<char>>, roots: Seq<BridgePdfRoot>) -> Option<
    (bool, Seq<char>),
> {
    let d = item.data;
    let linked = match opt_view(d.path) {
        Some(p) => linked_path_spec(p, roots),
        None => None,
    };
    if d.item_type != ItemType::Attachment {
        None
    } else if d.link_mode_spec(Some(LinkMode::ImportedFile)) && enclosure is Some {
        Some((true, enclosure->0))
    } else if d.link_mode_spec(Some(LinkMode::LinkedFile)) && linked is Some {
        Some((false, linked->0))
    } else if opt_view(d.content_type) == Some("application/pdf"@) && linked is Some {
        Some((false, linked->0))
    } else {
        None
    }
}

/// How an attachment resolves to a PDF path, its enclosure being what its
/// `enclosure` link gives.
pub open spec fn item_pdf_spec(item: ZoteroItem, roots: Seq<BridgePdfRoot>) -> Option<(bool, Seq<char>)> {
    attachment_pdf_spec(item, enclosure_path_spec(item), roots)
}

/// `r` is what `attachment_pdf_spec` gives.
pub open spec fn resolved_as(r: Option<ResolvedPdfPath>, s: Option<(bool, Seq<char>)>) -> bool {
    match s {
        Some((trusted, p)) => r matches Some(x) && x.path_spec() == p && (x is Trusted) == trusted,
        None => r is None,
    }
}

/// The PDF path of an attachment, if it has one.
pub fn resolve_attachment_pdf_path(item: &ZoteroItem, roots: &[BridgePdfRoot]) -> (r: Option<ResolvedPdfPath>)
    ensures
        resolved_as(r, item_pdf_spec(*item, roots@)),
{
    let d = &item.data;
    let is_attachment = match d.item_type {
        ItemType::Attachment => true,
        _ => false,
    };
    if !is_attachment {
        return None;
    }
    let mode = d.link_mode();
    let imported = match mode {
        Some(LinkMode::ImportedFile) => true,
        _ => false,
    };
    let is_linked_mode = match mode {
        Some(LinkMode::LinkedFile) => true,
        _ => false,
    };
    assert(imported == d.link_mode_spec(Some(LinkMode::ImportedFile)));
    assert(is_linked_mode == d.link_mode_spec(Some(LinkMode::LinkedFile)));
    let enc = if imported {
        enclosure_file_path(item)
    } else {
        None
    };
    let ghost e = if imported {
        opt_view(enc)
    } else {
        enclosure_path_spec(*item)
    };
    assert(e == enclosure_path_spec(*item));
    if let Some(p) = enc {
        let r = Some(ResolvedPdfPath::Trusted(p));
        assert(resolved_as(r, attachment_pdf_spec(*item, e, roots@)));
        return r;
    }
    let linked = match &d.path {
        Some(p) => resolve_linked_attachment_path(p.as_str(), roots),
        None => None,
    };
    let is_pdf = match &d.content_type {
        Some(c) => str_eq(c.as_str(), "application/pdf"),
        None => false,
    };
    let r = match linked {
        Some(p) => if is_linked_mode || is_pdf {
            Some(ResolvedPdfPath::NeedsRootCheck(p))
        } else {
            None
        },
        None => None,
    };
    assert(resolved_as(r, attachment_pdf_spec(*item, e, roots@)));
    r
}

/// The PDF path of the first child that has one.
pub fn find_pdf_path(children: &[ZoteroItem], roots: &[BridgePdfRoot]) -> (r: Option<ResolvedPdfPath>)
    ensures
        r is None ==> forall|i: int| 0 <= i < children@.len() ==> item_pdf_spec(#[trigger] children@[i], roots@) is None,
        r is Some ==> exists|i: int|
            0 <= i < children@.len() && resolved_as(r, #[trigger] item_pdf_spec(children@[i], roots@)) && forall|
                j: int,
            | 0 <= j < i ==> item_pdf_spec(#[trigger] children@[j], roots@) is None,
{
    let mut i: usize = 0;
    while i < children.len()
        invariant
            i <= children@.len(),
            forall|j: int| 0 <= j < i ==> item_pdf_spec(#[trigger] children@[j], roots@) is None,
        decreases children@.len() - i,
    {
        let found = resolve_attachment_pdf_path(&children[i], roots);
        if found.is_some() {
            assert(resolved_as(found, item_pdf_spec(children@[i as int], roots@)));
            return found;
        }
        i = i + 1;
    }
    None
}

/// The outcome of the PDF checks on an accepted path: the path itself when
/// it names a `.pdf` within the size limit.
pub open spec fn pdf_checked(cfg: SecurityConfig, path: Seq<char>, file_len: u64, r: Result<String, ZoteroApiError>) -> bool {
    if !has_pdf_extension(path) {
        rejects(r, not_pdf_message(path))
    } else if file_len > cfg@.max_pdf_bytes {
        rejects(r, pdf_too_large_message(path, cfg@.max_pdf_bytes as nat))
    } else {
        r matches Ok(p) && p@ == path
    }
}

/// A path under some roots is under those roots with more added.
pub proof fn lemma_allowed_under_more(path: Seq<char>, a: Seq<Seq<char>>, b: Seq<Seq<char>>)
    requires
        allowed_under(path, a),
    ensures
        allowed_under(path, a + b),
{
    let i = choose|i: int| 0 <= i < a.len() && path_under(path, #[trigger] a[i]);
    assert((a + b)[i] == a[i]);
}

/// Checks a PDF that Zotero's own enclosure link points at, given in
/// canonical form with its size.
pub fn check_trusted_pdf(cfg: &SecurityConfig, canonical_path: &str, file_len: u64) -> (r: Result<String, ZoteroApiError>)
    ensures
        pdf_checked(*cfg, canonical_path@, file_len, r),
{
    match cfg.check_pdf_file(canonical_path, file_len) {
        Ok(()) => Ok(canonical_path.to_owned()),
        Err(e) => Err(e),
    }
}

/// Checks a PDF path before it is read. `canonical_path` is the path in
/// canonical form, `file_len` its size; `canonical_allowed` and
/// `canonical_bridge` are the canonical forms of the configured read roots
/// and of the bridge's roots. A path under either passes on to the PDF
/// checks. Outside them, a path typed by the user is refused as a direct
/// path where those are disabled, and as outside the configured roots
/// otherwise; a path found through an item is refused as outside.
pub fn validate_pdf_read_path(
    cfg: &SecurityConfig,
    canonical_path: &str,
    canonical_allowed: &[String],
    canonical_bridge: &[String],
    direct_input: bool,
    file_len: u64,
) -> (r: Result<String, ZoteroApiError>)
    ensures
        allowed_under(canonical_path@, views(canonical_allowed@) + views(canonical_bridge@)) ==> pdf_checked(
            *cfg,
            canonical_path@,
            file_len,
            r,
        ),
        !allowed_under(canonical_path@, views(canonical_allowed@) + views(canonical_bridge@)) ==> {
            if direct_input && !cfg@.direct_file_paths {
                rejects(r, direct_paths_disabled())
            } else {
                rejects(r, outside_message("PDF read"@, canonical_path@))
            }
        },
{
    let mut roots: Vec<String> = Vec::new();
    let mut i: usize = 0;
    while i < canonical_allowed.len()
        invariant
            i <= canonical_allowed@.len(),
            views(roots@) == views(canonical_allowed@).take(i as int),
        decreases canonical_allowed@.len() - i,
    {
        let c = canonical_allowed[i].clone();
        let ghost before = roots@;
        roots.push(c);
        assert(views(roots@) =~= views(before).push(canonical_allowed@[i as int]@));
        i = i + 1;
        assert(views(roots@) =~= views(canonical_allowed@).take(i as int));
    }
    let mut j: usize = 0;
    while j < canonical_bridge.len()
        invariant
            j <= canonical_bridge@.len(),
            views(roots@) == views(canonical_allowed@) + views(canonical_bridge@).take(j as int),
        decreases canonical_bridge@.len() - j,
    {
        let c = canonical_bridge[j].clone();
        let ghost before = roots@;
        roots.push(c);
        assert(views(roots@) =~= views(before).push(canonical_bridge@[j as int]@));
        j = j + 1;
        assert(views(roots@) =~= views(canonical_allowed@) + views(canonical_bridge@).take(j as int));
    }
    assert(views(canonical_allowed@).take(canonical_allowed@.len() as int) =~= views(canonical_allowed@));
    assert(views(canonical_bridge@).take(canonical_bridge@.len() as int) =~= views(canonical_bridge@));
    match cfg.check_existing_read_path(canonical_path, roots.as_slice(), "PDF read") {
        Ok(checked) => check_trusted_pdf(cfg, checked.as_str(), file_len),
        Err(e) => {
            if direct_input {
                match cfg.check_direct_file_paths_enabled() {
                    Ok(()) => {},
                    Err(d) => {
                        return Err(d);
                    },
                }
                proof {
                    if allowed_under(canonical_path@, views(canonical_allowed@)) {
                        lemma_allowed_under_more(canonical_path@, views(canonical_allowed@), views(canonical_bridge@));
                    }
                }
                match cfg.check_existing_read_path(canonical_path, canonical_allowed, "PDF read") {
                    Ok(checked) => check_trusted_pdf(cfg, checked.as_str(), file_len),
                    Err(e2) => Err(e2),
                }
            } else {
                Err(e)
            }
        },
    }
}

/// The error of an item key or path that leads to no PDF.
pub fn no_pdf_path_error(item_key_or_path: &str) -> (r: ZoteroApiError)
    ensures
        r matches ZoteroApiError::NotFound(m) && m@ == "No PDF file path found for key: "@ + item_key_or_path@,
{
    let mut m = "No PDF file path found for key: ".to_owned();
    push_str(&mut m, item_key_or_path);
    ZoteroApiError::NotFound(m)
}

/// The path reported for an attachment: its stored path, else the PDF
/// path it resolves to.
pub fn attachment_reported_path(item: &ZoteroItem, roots: &[BridgePdfRoot]) -> (r: Option<String>)
    ensures
        match opt_view(item.data.path) {
            Some(p) => r matches Some(s) && s@ == p,
            None => match item_pdf_spec(*item, roots@) {
                Some((_, p)) => r matches Some(s) && s@ == p,
                None => r is None,
            },
        },
{
    match &item.data.path {
        Some(p) => Some(p.clone()),
        None => match resolve_attachment_pdf_path(item, roots) {
            Some(x) => Some(x.into_path()),
            None => None,
        },
    }
}

} // verus!
