//! Security profiles, path allowlists and input size limits of the MCP server.
//!
//! Paths reach these checks already canonicalized; deciding whether they are
//! allowed, and what error a refusal carries, is done here.
use vstd::prelude::*;
use crate::errors::{rejects, ZoteroApiError};
use crate::objects::opt_view;
use crate::paths::{
    extension, file_name, is_path_under, join_path, parent, path_extension, path_file_name, path_join,
    path_under,
};
use crate::text::{
    ascii_lower, ascii_lower_exec, chars_eq, chars_of, decimal, parse_unsigned, parse_unsigned_exec,
    push_decimal, push_str, utf8_len, utf8_len_exec, views, lemma_utf8_len_ge_len,
};

verus! {

pub const DEFAULT_MAX_PDF_BYTES: u64 = 50 * 1024 * 1024;
pub const DEFAULT_MAX_HTTP_BODY_BYTES: usize = 10 * 1024 * 1024;
pub const DEFAULT_MAX_MARKDOWN_BYTES: usize = 2 * 1024 * 1024;
pub const DEFAULT_MAX_HTML_BYTES: usize = 2 * 1024 * 1024;
pub const DEFAULT_MAX_TEMPLATE_NAME_BYTES: usize = 128;
pub const HARDENED_MAX_PDF_BYTES: u64 = 25 * 1024 * 1024;
pub const HARDENED_MAX_HTTP_BODY_BYTES: usize = 2 * 1024 * 1024;
pub const HARDENED_MAX_MARKDOWN_BYTES: usize = 512 * 1024;
pub const HARDENED_MAX_HTML_BYTES: usize = 512 * 1024;

/// Security profiles of the server.
#[derive(Clone, Copy, Debug, PartialEq, Eq)]
pub enum SecurityProfile {
    /// Conservative read-only access.
    Default,
    /// Reads and exports relative to the working directory.
    Workspace,
    /// Reads from the usual user folders.
    TrustedLocal,
    /// Smaller request and response sizes.
    Hardened,
}

/// The settings of a [`SecurityConfig`].
pub struct SecurityView {
    pub profile: SecurityProfile,
    pub direct_file_paths: bool,
    pub file_paths_enabled: bool,
    pub allowed_read_dirs: Seq<Seq<char>>,
    pub allowed_aux_dirs: Seq<Seq<char>>,
    pub allowed_export_dirs: Seq<Seq<char>>,
    pub max_pdf_bytes: u64,
    pub max_http_body_bytes: usize,
    pub max_markdown_bytes: usize,
    pub max_html_bytes: usize,
    pub max_template_name_bytes: usize,
}

/// Path access and size limits.
#[derive(Clone, Debug, PartialEq, Eq)]
pub struct SecurityConfig {
    profile: SecurityProfile,
    direct_file_paths: bool,
    file_paths_enabled: bool,
    allowed_read_dirs: Vec<String>,
    allowed_aux_dirs: Vec<String>,
    allowed_export_dirs: Vec<String>,
    max_pdf_bytes: u64,
    max_http_body_bytes: usize,
    max_markdown_bytes: usize,
    max_html_bytes: usize,
    max_template_name_bytes: usize,
}

impl View for SecurityConfig {
    type V = SecurityView;

    closed spec fn view(&self) -> SecurityView {
        SecurityView {
            profile: self.profile,
            direct_file_paths: self.direct_file_paths,
            file_paths_enabled: self.file_paths_enabled,
            allowed_read_dirs: views(self.allowed_read_dirs@),
            allowed_aux_dirs: views(self.allowed_aux_dirs@),
            allowed_export_dirs: views(self.allowed_export_dirs@),
            max_pdf_bytes: self.max_pdf_bytes,
            max_http_body_bytes: self.max_http_body_bytes,
            max_markdown_bytes: self.max_markdown_bytes,
            max_html_bytes: self.max_html_bytes,
            max_template_name_bytes: self.max_template_name_bytes,
        }
    }
}

/// The settings of the default profile.
pub open spec fn default_view() -> SecurityView {
    SecurityView {
        profile: SecurityProfile::Default,
        direct_file_paths: false,
        file_paths_enabled: false,
        allowed_read_dirs: Seq::empty(),
        allowed_aux_dirs: Seq::empty(),
        allowed_export_dirs: Seq::empty(),
        max_pdf_bytes: DEFAULT_MAX_PDF_BYTES,
        max_http_body_bytes: DEFAULT_MAX_HTTP_BODY_BYTES,
        max_markdown_bytes: DEFAULT_MAX_MARKDOWN_BYTES,
        max_html_bytes: DEFAULT_MAX_HTML_BYTES,
        max_template_name_bytes: DEFAULT_MAX_TEMPLATE_NAME_BYTES,
    }
}

/// The profile that `ZOTERO_MCP_PROFILE` names; unknown or missing names
/// select the default profile.
pub open spec fn profile_named(name: Option<Seq<char>>) -> SecurityProfile {
    match name {
        Some(n) => if n == "workspace"@ {
            SecurityProfile::Workspace
        } else if n == "trusted-local"@ {
            SecurityProfile::TrustedLocal
        } else if n == "hardened"@ {
            SecurityProfile::Hardened
        } else {
            SecurityProfile::Default
        },
        None => SecurityProfile::Default,
    }
}

/// The settings that a profile starts from, given the working and home
/// directories.
pub open spec fn profile_view(p: SecurityProfile, cwd: Seq<char>, home: Option<Seq<char>>) -> SecurityView {
    let d = default_view();
    match p {
        SecurityProfile::Default => d,
        SecurityProfile::Workspace => SecurityView {
            profile: p,
            direct_file_paths: true,
            file_paths_enabled: true,
            allowed_read_dirs: seq![cwd],
            allowed_aux_dirs: seq![cwd],
            allowed_export_dirs: seq![path_join(cwd, "exports"@)],
            ..d
        },
        SecurityProfile::TrustedLocal => match home {
            Some(h) => SecurityView {
                profile: p,
                direct_file_paths: true,
                file_paths_enabled: true,
                allowed_read_dirs: seq![
                    path_join(h, "Documents"@),
                    path_join(h, "Downloads"@),
                    path_join(h, "Zotero/storage"@),
                ],
                allowed_aux_dirs: seq![path_join(h, "Documents"@), path_join(h, "Downloads"@)],
                allowed_export_dirs: seq![path_join(h, "Documents/Zotero Exports"@)],
                ..d
            },
            None => SecurityView { profile: p, direct_file_paths: true, file_paths_enabled: true, ..d },
        },
        SecurityProfile::Hardened => SecurityView {
            profile: p,
            max_pdf_bytes: HARDENED_MAX_PDF_BYTES,
            max_http_body_bytes: HARDENED_MAX_HTTP_BODY_BYTES,
            max_markdown_bytes: HARDENED_MAX_MARKDOWN_BYTES,
            max_html_bytes: HARDENED_MAX_HTML_BYTES,
            ..d
        },
    }
}

/// The flag value that a boolean variable spells, in any ASCII case.
pub open spec fn bool_named(v: Seq<char>) -> Option<bool> {
    let l = ascii_lower(v);
    if l == "1"@ || l == "true"@ || l == "yes"@ || l == "y"@ {
        Some(true)
    } else if l == "0"@ || l == "false"@ || l == "no"@ || l == "n"@ {
        Some(false)
    } else {
        None
    }
}

/// Reads a boolean variable: `1`, `true`, `yes`, `y` or `0`, `false`, `no`,
/// `n`, in any ASCII case.
pub fn parse_bool(value: &str) -> (r: Option<bool>)
    ensures
        r == bool_named(value@),
{
    let l = ascii_lower_exec(chars_of(value).as_slice());
    let ls = l.as_slice();
    if chars_eq(ls, chars_of("1").as_slice()) || chars_eq(ls, chars_of("true").as_slice())
        || chars_eq(ls, chars_of("yes").as_slice()) || chars_eq(ls, chars_of("y").as_slice()) {
        Some(true)
    } else if chars_eq(ls, chars_of("0").as_slice()) || chars_eq(ls, chars_of("false").as_slice())
        || chars_eq(ls, chars_of("no").as_slice()) || chars_eq(ls, chars_of("n").as_slice()) {
        Some(false)
    } else {
        None
    }
}

/// The values of the environment variables that configure security. Lists
/// of directories arrive already split into paths.
pub struct SecurityEnv {
    /// `ZOTERO_MCP_PROFILE`
    pub profile: Option<String>,
    /// `ZOTERO_DIRECT_FILE_PATHS`
    pub direct_file_paths: Option<String>,
    /// `ZOTERO_FILE_PATHS_ENABLED`
    pub file_paths_enabled: Option<String>,
    /// `ZOTERO_ALLOWED_READ_DIRS`
    pub allowed_read_dirs: Option<Vec<String>>,
    /// `ZOTERO_ALLOWED_AUX_DIRS`
    pub allowed_aux_dirs: Option<Vec<String>>,
    /// `ZOTERO_ALLOWED_EXPORT_DIRS`
    pub allowed_export_dirs: Option<Vec<String>>,
    /// `ZOTERO_MAX_PDF_BYTES`
    pub max_pdf_bytes: Option<String>,
    /// `ZOTERO_MAX_HTTP_BODY_BYTES`
    pub max_http_body_bytes: Option<String>,
    /// `ZOTERO_MAX_MARKDOWN_BYTES`
    pub max_markdown_bytes: Option<String>,
    /// `ZOTERO_MAX_HTML_BYTES`
    pub max_html_bytes: Option<String>,
    /// `ZOTERO_MAX_TEMPLATE_NAME_BYTES`
    pub max_template_name_bytes: Option<String>,
}

/// A boolean setting: the variable's flag value when it spells one, else
/// the profile's value.
pub open spec fn bool_setting(var: Option<String>, base: bool) -> bool {
    match var {
        Some(v) => match bool_named(v@) {
            Some(b) => b,
            None => base,
        },
        None => base,
    }
}

/// A directory list setting: the variable's paths when it is set, else the
/// profile's list.
pub open spec fn dirs_setting(var: Option<Vec<String>>, base: Seq<Seq<char>>) -> Seq<Seq<char>> {
    match var {
        Some(v) => views(v@),
        None => base,
    }
}

/// A size setting: the variable's number when it reads as one that fits in
/// `max`, else the profile's value.
pub open spec fn size_setting(var: Option<String>, max: nat, base: nat) -> nat {
    match var {
        Some(v) => match parse_unsigned(v@, max) {
            Some(n) => n,
            None => base,
        },
        None => base,
    }
}

/// The configuration that the environment selects.
pub open spec fn configured(env: SecurityEnv, cwd: Seq<char>, home: Option<Seq<char>>, c: SecurityView) -> bool {
    let b = profile_view(profile_named(opt_view(env.profile)), cwd, home);
    &&& c.profile == b.profile
    &&& c.direct_file_paths == bool_setting(env.direct_file_paths, b.direct_file_paths)
    &&& c.file_paths_enabled == bool_setting(env.file_paths_enabled, b.file_paths_enabled)
    &&& c.allowed_read_dirs == dirs_setting(env.allowed_read_dirs, b.allowed_read_dirs)
    &&& c.allowed_aux_dirs == dirs_setting(env.allowed_aux_dirs, b.allowed_aux_dirs)
    &&& c.allowed_export_dirs == dirs_setting(env.allowed_export_dirs, b.allowed_export_dirs)
    &&& c.max_pdf_bytes == size_setting(env.max_pdf_bytes, u64::MAX as nat, b.max_pdf_bytes as nat)
    &&& c.max_http_body_bytes == size_setting(
        env.max_http_body_bytes,
        usize::MAX as nat,
        b.max_http_body_bytes as nat,
    )
    &&& c.max_markdown_bytes == size_setting(
        env.max_markdown_bytes,
        usize::MAX as nat,
        b.max_markdown_bytes as nat,
    )
    &&& c.max_html_bytes == size_setting(env.max_html_bytes, usize::MAX as nat, b.max_html_bytes as nat)
    &&& c.max_template_name_bytes == size_setting(
        env.max_template_name_bytes,
        usize::MAX as nat,
        b.max_template_name_bytes as nat,
    )
}

fn apply_bool(var: &Option<String>, base: bool) -> (r: bool)
    ensures
        r == bool_setting(*var, base),
{
    match var {
        Some(v) => match parse_bool(v.as_str()) {
            Some(b) => b,
            None => base,
        },
        None => base,
    }
}

fn apply_u64(var: &Option<String>, base: u64) -> (r: u64)
    ensures
        r as nat == size_setting(*var, u64::MAX as nat, base as nat),
{
    match var {
        Some(v) => match parse_unsigned_exec(v.as_str(), u64::MAX) {
            Some(n) => n,
            None => base,
        },
        None => base,
    }
}

fn apply_usize(var: &Option<String>, base: usize) -> (r: usize)
    ensures
        r as nat == size_setting(*var, usize::MAX as nat, base as nat),
{
    match var {
        Some(v) => match parse_unsigned_exec(v.as_str(), usize::MAX as u64) {
            Some(n) => n as usize,
            None => base,
        },
        None => base,
    }
}

fn copy_strings(v: &Vec<String>) -> (r: Vec<String>)
    ensures
        views(r@) == views(v@),
{
    let mut out: Vec<String> = Vec::new();
    let mut i: usize = 0;
    while i < v.len()
        invariant
            i <= v@.len(),
            views(out@) == views(v@.take(i as int)),
        decreases v@.len() - i,
    {
        let ghost before = out@;
        out.push(v[i].clone());
        i = i + 1;
        proof {
            assert(views(out@) =~= views(before).push(v@[i - 1]@));
            assert(views(v@.take(i as int)) =~= views(v@.take(i - 1)).push(v@[i - 1]@));
        }
    }
    assert(v@.take(v@.len() as int) == v@);
    out
}

fn apply_dirs(var: &Option<Vec<String>>, base: Vec<String>) -> (r: Vec<String>)
    ensures
        views(r@) == dirs_setting(*var, views(base@)),
{
    match var {
        Some(v) => copy_strings(v),
        None => base,
    }
}

fn one_dir(d: String) -> (r: Vec<String>)
    ensures
        views(r@) == seq![d@],
{
    let mut v: Vec<String> = Vec::new();
    v.push(d);
    assert(views(v@) =~= seq![v@[0]@]);
    v
}

fn profile_of(name: &Option<String>) -> (p: SecurityProfile)
    ensures
        p == profile_named(opt_view(*name)),
{
    match name {
        Some(n) => {
            let s = n.as_str();
            if crate::text::str_eq(s, "workspace") {
                SecurityProfile::Workspace
            } else if crate::text::str_eq(s, "trusted-local") {
                SecurityProfile::TrustedLocal
            } else if crate::text::str_eq(s, "hardened") {
                SecurityProfile::Hardened
            } else {
                SecurityProfile::Default
            }
        },
        None => SecurityProfile::Default,
    }
}

impl SecurityConfig {
    /// The default configuration: no file paths, default size limits.
    pub fn default_config() -> (r: SecurityConfig)
        ensures
            r@ == default_view(),
    {
        let r = SecurityConfig {
            profile: SecurityProfile::Default,
            direct_file_paths: false,
            file_paths_enabled: false,
            allowed_read_dirs: Vec::new(),
            allowed_aux_dirs: Vec::new(),
            allowed_export_dirs: Vec::new(),
            max_pdf_bytes: DEFAULT_MAX_PDF_BYTES,
            max_http_body_bytes: DEFAULT_MAX_HTTP_BODY_BYTES,
            max_markdown_bytes: DEFAULT_MAX_MARKDOWN_BYTES,
            max_html_bytes: DEFAULT_MAX_HTML_BYTES,
            max_template_name_bytes: DEFAULT_MAX_TEMPLATE_NAME_BYTES,
        };
        assert(r@.allowed_read_dirs =~= Seq::<Seq<char>>::empty());
        assert(r@.allowed_aux_dirs =~= Seq::<Seq<char>>::empty());
        assert(r@.allowed_export_dirs =~= Seq::<Seq<char>>::empty());
        r
    }

    fn for_profile(p: SecurityProfile, cwd: &str, home: Option<&str>) -> (r: SecurityConfig)
        ensures
            r@ == profile_view(
                p,
                cwd@,
                match home {
                    Some(h) => Some(h@),
                    None => None,
                },
            ),
    {
        let mut c = SecurityConfig::default_config();
        match p {
            SecurityProfile::Default => {},
            SecurityProfile::Workspace => {
                c.profile = p;
                c.direct_file_paths = true;
                c.file_paths_enabled = true;
                c.allowed_read_dirs = one_dir(cwd.to_owned());
                c.allowed_aux_dirs = one_dir(cwd.to_owned());
                c.allowed_export_dirs = one_dir(join_path(cwd, "exports"));
            },
            SecurityProfile::TrustedLocal => {
                c.profile = p;
                c.direct_file_paths = true;
                c.file_paths_enabled = true;
                if let Some(h) = home {
                    let mut read: Vec<String> = Vec::new();
                    read.push(join_path(h, "Documents"));
                    read.push(join_path(h, "Downloads"));
                    read.push(join_path(h, "Zotero/storage"));
                    let mut aux: Vec<String> = Vec::new();
                    aux.push(join_path(h, "Documents"));
                    aux.push(join_path(h, "Downloads"));
                    assert(views(read@) =~= seq![read@[0]@, read@[1]@, read@[2]@]);
                    assert(views(aux@) =~= seq![aux@[0]@, aux@[1]@]);
                    c.allowed_read_dirs = read;
                    c.allowed_aux_dirs = aux;
                    c.allowed_export_dirs = one_dir(join_path(h, "Documents/Zotero Exports"));
                }
            },
            SecurityProfile::Hardened => {
                c.profile = p;
                c.max_pdf_bytes = HARDENED_MAX_PDF_BYTES;
                c.max_http_body_bytes = HARDENED_MAX_HTTP_BODY_BYTES;
                c.max_markdown_bytes = HARDENED_MAX_MARKDOWN_BYTES;
                c.max_html_bytes = HARDENED_MAX_HTML_BYTES;
            },
        }
        c
    }

    /// The configuration that the environment selects: the profile named by
    /// `ZOTERO_MCP_PROFILE`, then each variable that is set and readable
    /// overriding its setting.
    pub fn from_sources(env: &SecurityEnv, current_dir: &str, home_dir: Option<&str>) -> (r: SecurityConfig)
        ensures
            configured(
                *env,
                current_dir@,
                match home_dir {
                    Some(h) => Some(h@),
                    None => None,
                },
                r@,
            ),
    {
        let profile = profile_of(&env.profile);
        let base = SecurityConfig::for_profile(profile, current_dir, home_dir);
        SecurityConfig {
            profile: base.profile,
            direct_file_paths: apply_bool(&env.direct_file_paths, base.direct_file_paths),
            file_paths_enabled: apply_bool(&env.file_paths_enabled, base.file_paths_enabled),
            allowed_read_dirs: apply_dirs(&env.allowed_read_dirs, base.allowed_read_dirs),
            allowed_aux_dirs: apply_dirs(&env.allowed_aux_dirs, base.allowed_aux_dirs),
            allowed_export_dirs: apply_dirs(&env.allowed_export_dirs, base.allowed_export_dirs),
            max_pdf_bytes: apply_u64(&env.max_pdf_bytes, base.max_pdf_bytes),
            max_http_body_bytes: apply_usize(&env.max_http_body_bytes, base.max_http_body_bytes),
            max_markdown_bytes: apply_usize(&env.max_markdown_bytes, base.max_markdown_bytes),
            max_html_bytes: apply_usize(&env.max_html_bytes, base.max_html_bytes),
            max_template_name_bytes: apply_usize(
                &env.max_template_name_bytes,
                base.max_template_name_bytes,
            ),
        }
    }
}

/// The message of an input larger than its limit.
pub open spec fn size_message(field: Seq<char>, max: nat) -> Seq<char> {
    field + " exceeds "@ + decimal(max) + " bytes"@
}

/// Refuses `value` when its UTF-8 length exceeds `max_bytes`.
pub fn check_text_size(value: &str, max_bytes: usize, field: &str) -> (r: Result<(), ZoteroApiError>)
    ensures
        value.len() <= max_bytes ==> r is Ok,
        value.len() > max_bytes ==> rejects(r, size_message(field@, max_bytes as nat)),
{
    if value.len() > max_bytes {
        let mut m = field.to_owned();
        push_str(&mut m, " exceeds ");
        push_decimal(&mut m, max_bytes as u64);
        push_str(&mut m, " bytes");
        Err(ZoteroApiError::InputRejected(m))
    } else {
        Ok(())
    }
}

/// The message of a refused direct file path.
pub open spec fn direct_paths_disabled() -> Seq<char> {
    "Direct file paths are disabled; set ZOTERO_MCP_PROFILE=workspace or ZOTERO_DIRECT_FILE_PATHS=true with ZOTERO_ALLOWED_READ_DIRS"@
}

/// The message of a refused file path feature.
pub open spec fn file_paths_disabled() -> Seq<char> {
    "File path features are disabled; set ZOTERO_MCP_PROFILE=workspace or ZOTERO_FILE_PATHS_ENABLED=true"@
}

/// The smaller of two lengths.
pub open spec fn min_len(a: nat, b: nat) -> int {
    if a < b {
        a as int
    } else {
        b as int
    }
}

/// The directories that could be resolved, in order: the texts of the
/// entries that are present.
pub open spec fn resolved_roots(canon: Seq<Option<String>>) -> Seq<Seq<char>>
    decreases canon.len(),
{
    if canon.len() == 0 {
        Seq::empty()
    } else {
        let r = resolved_roots(canon.drop_last());
        match canon.last() {
            Some(d) => r.push(d@),
            None => r,
        }
    }
}

/// The outcome of a read check of an existing path, given in canonical
/// form, against canonical roots: the path when it lies under one of them,
/// else its refusal for `purpose`.
pub open spec fn read_checked(path: Seq<char>, roots: Seq<Seq<char>>, purpose: Seq<char>, r: Result<String, ZoteroApiError>) -> bool {
    if allowed_under(path, roots) {
        r matches Ok(p) && p@ == path
    } else {
        rejects(r, outside_message(purpose, path))
    }
}

/// The canonical roots of an AUX check: the resolved entries among the
/// first as many as there are allowed AUX directories.
pub open spec fn aux_roots(cfg: SecurityView, canonical_dirs: Seq<Option<String>>) -> Seq<Seq<char>> {
    resolved_roots(canonical_dirs.take(min_len(cfg.allowed_aux_dirs.len(), canonical_dirs.len())))
}

/// The outcome of an AUX check: refused while file path features are
/// disabled, else the read check under the AUX roots for the `AUX scan`.
pub open spec fn aux_checked(cfg: SecurityView, path: Seq<char>, canonical_dirs: Seq<Option<String>>, r: Result<String, ZoteroApiError>) -> bool {
    if !cfg.file_paths_enabled {
        rejects(r, file_paths_disabled())
    } else {
        read_checked(path, aux_roots(cfg, canonical_dirs), "AUX scan"@, r)
    }
}

/// With file path features enabled, the AUX check of a path is the read
/// check of that path under the canonical AUX directories, for the
/// `AUX scan`: it accepts and refuses the same paths, with the same
/// results.
pub proof fn lemma_aux_check_is_read_check(cfg: SecurityView, path: Seq<char>, canonical_dirs: Seq<Option<String>>, r: Result<String, ZoteroApiError>)
    requires
        cfg.file_paths_enabled,
    ensures
        aux_checked(cfg, path, canonical_dirs, r) == read_checked(path, aux_roots(cfg, canonical_dirs), "AUX scan"@, r),
{
}

/// `path` lies at or under one of `roots`.
pub open spec fn allowed_under(path: Seq<char>, roots: Seq<Seq<char>>) -> bool {
    exists|i: int| 0 <= i < roots.len() && path_under(path, #[trigger] roots[i])
}

/// Whether `path` lies at or under one of `roots`.
pub fn path_is_allowed(path: &str, roots: &[String]) -> (b: bool)
    ensures
        b == allowed_under(path@, views(roots@)),
{
    let mut i: usize = 0;
    while i < roots.len()
        invariant
            i <= roots@.len(),
            forall|j: int| 0 <= j < i ==> !path_under(path@, #[trigger] views(roots@)[j]),
        decreases roots@.len() - i,
    {
        if is_path_under(path, roots[i].as_str()) {
            assert(path_under(path@, views(roots@)[i as int]));
            return true;
        }
        i = i + 1;
    }
    false
}

/// The message of a path outside the allowed directories.
pub open spec fn outside_message(purpose: Seq<char>, path: Seq<char>) -> Seq<char> {
    purpose + " path "@ + path + " is outside allowed directories"@
}

fn outside_error(purpose: &str, path: &str) -> (e: ZoteroApiError)
    ensures
        e matches ZoteroApiError::InputRejected(m) && m@ == outside_message(purpose@, path@),
{
    let mut m = purpose.to_owned();
    push_str(&mut m, " path ");
    push_str(&mut m, path);
    push_str(&mut m, " is outside allowed directories");
    ZoteroApiError::InputRejected(m)
}

/// The message of an output path without an existing parent directory.
pub open spec fn parent_missing_message(purpose: Seq<char>) -> Seq<char> {
    purpose + " parent directory is missing"@
}

/// The message of an output path without a file name.
pub open spec fn file_name_missing_message(purpose: Seq<char>) -> Seq<char> {
    purpose + " output file name is missing"@
}

/// The message of a PDF path without a `.pdf` extension.
pub open spec fn not_pdf_message(path: Seq<char>) -> Seq<char> {
    "PDF read path must have a .pdf extension: "@ + path
}

/// The message of a PDF file over the size limit.
pub open spec fn pdf_too_large_message(path: Seq<char>, max: nat) -> Seq<char> {
    "PDF file "@ + path + " exceeds "@ + decimal(max) + " bytes"@
}

/// `path` has the extension `pdf`, in any ASCII case.
pub open spec fn has_pdf_extension(path: Seq<char>) -> bool {
    match extension(path) {
        Some(e) => ascii_lower(e) == "pdf"@,
        None => false,
    }
}

/// Refuses a path whose extension is not `pdf` in some ASCII case.
pub fn check_pdf_extension(path: &str) -> (r: Result<(), ZoteroApiError>)
    ensures
        has_pdf_extension(path@) ==> r is Ok,
        !has_pdf_extension(path@) ==> rejects(r, not_pdf_message(path@)),
{
    let ok = match path_extension(path) {
        Some(e) => {
            let l = ascii_lower_exec(chars_of(e.as_str()).as_slice());
            chars_eq(l.as_slice(), chars_of("pdf").as_slice())
        },
        None => false,
    };
    if ok {
        Ok(())
    } else {
        let mut m = "PDF read path must have a .pdf extension: ".to_owned();
        push_str(&mut m, path);
        Err(ZoteroApiError::InputRejected(m))
    }
}

impl SecurityConfig {
    /// Refuses when direct file paths are disabled.
    pub fn check_direct_file_paths_enabled(&self) -> (r: Result<(), ZoteroApiError>)
        ensures
            self@.direct_file_paths ==> r is Ok,
            !self@.direct_file_paths ==> rejects(r, direct_paths_disabled()),
    {
        if self.direct_file_paths {
            Ok(())
        } else {
            Err(
                ZoteroApiError::InputRejected(
                    "Direct file paths are disabled; set ZOTERO_MCP_PROFILE=workspace or ZOTERO_DIRECT_FILE_PATHS=true with ZOTERO_ALLOWED_READ_DIRS".to_owned(),
                ),
            )
        }
    }

    /// Accepts an existing path, given in canonical form, when it lies under
    /// one of `canonical_roots` (the canonical forms of the allowed roots
    /// that exist); the canonical path is returned.
    pub fn check_existing_read_path(&self, canonical_path: &str, canonical_roots: &[String], purpose: &str) -> (r: Result<String, ZoteroApiError>)
        ensures
            read_checked(canonical_path@, views(canonical_roots@), purpose@, r),
    {
        if path_is_allowed(canonical_path, canonical_roots) {
            Ok(canonical_path.to_owned())
        } else {
            Err(outside_error(purpose, canonical_path))
        }
    }

    /// Checks an output path: its parent directory must exist (given as
    /// `canonical_parent`, the canonical form of [`parent`] of `path`, or
    /// `None` where it cannot be resolved) and lie under one of
    /// `canonical_roots`, and the path must name a file. The accepted target
    /// is the file name joined onto the canonical parent.
    pub fn check_output_path(
        &self,
        path: &str,
        canonical_parent: Option<&str>,
        canonical_roots: &[String],
        purpose: &str,
    ) -> (r: Result<String, ZoteroApiError>)
        ensures
            (parent(path@) is None || canonical_parent is None) ==> rejects(r, parent_missing_message(purpose@)),
            canonical_parent matches Some(cp) ==> parent(path@) is Some ==> {
                if !allowed_under(cp@, views(canonical_roots@)) {
                    rejects(r, outside_message(purpose@, path@))
                } else {
                    match file_name(path@) {
                        Some(n) => r matches Ok(t) && t@ == path_join(cp@, n),
                        None => rejects(r, file_name_missing_message(purpose@)),
                    }
                }
            },
    {
        let missing = match canonical_parent {
            Some(_) => crate::paths::path_parent(path).is_none(),
            None => true,
        };
        if missing {
            let mut m = purpose.to_owned();
            push_str(&mut m, " parent directory is missing");
            return Err(ZoteroApiError::InputRejected(m));
        }
        let cp = match canonical_parent {
            Some(cp) => cp,
            None => "",
        };
        if !path_is_allowed(cp, canonical_roots) {
            return Err(outside_error(purpose, path));
        }
        match path_file_name(path) {
            Some(n) => Ok(join_path(cp, n.as_str())),
            None => {
                let mut m = purpose.to_owned();
                push_str(&mut m, " output file name is missing");
                Err(ZoteroApiError::InputRejected(m))
            },
        }
    }

    /// Checks that `path` names a PDF no larger than the limit, where
    /// `file_len` is the size of the file in bytes.
    pub fn check_pdf_file(&self, path: &str, file_len: u64) -> (r: Result<(), ZoteroApiError>)
        ensures
            !has_pdf_extension(path@) ==> rejects(r, not_pdf_message(path@)),
            has_pdf_extension(path@) && file_len > self@.max_pdf_bytes ==> rejects(
                r,
                pdf_too_large_message(path@, self@.max_pdf_bytes as nat),
            ),
            has_pdf_extension(path@) && file_len <= self@.max_pdf_bytes ==> r is Ok,
    {
        match check_pdf_extension(path) {
            Ok(()) => {},
            Err(e) => return Err(e),
        }
        if file_len > self.max_pdf_bytes {
            let mut m = "PDF file ".to_owned();
            push_str(&mut m, path);
            push_str(&mut m, " exceeds ");
            push_decimal(&mut m, self.max_pdf_bytes);
            push_str(&mut m, " bytes");
            return Err(ZoteroApiError::InputRejected(m));
        }
        Ok(())
    }

    /// Refuses markdown longer than the markdown limit.
    pub fn check_markdown_size(&self, markdown: &str) -> (r: Result<(), ZoteroApiError>)
        ensures
            markdown.len() <= self@.max_markdown_bytes ==> r is Ok,
            markdown.len() > self@.max_markdown_bytes ==> rejects(
                r,
                size_message("markdown"@, self@.max_markdown_bytes as nat),
            ),
    {
        check_text_size(markdown, self.max_markdown_bytes, "markdown")
    }

    /// Refuses HTML longer than the HTML limit.
    pub fn check_html_size(&self, html: &str) -> (r: Result<(), ZoteroApiError>)
        ensures
            html.len() <= self@.max_html_bytes ==> r is Ok,
            html.len() > self@.max_html_bytes ==> rejects(
                r,
                size_message("HTML"@, self@.max_html_bytes as nat),
            ),
    {
        check_text_size(html, self.max_html_bytes, "HTML")
    }

    /// Refuses a template name longer than the template name limit.
    pub fn check_template_name_size(&self, name: &str) -> (r: Result<(), ZoteroApiError>)
        ensures
            name.len() <= self@.max_template_name_bytes ==> r is Ok,
            name.len() > self@.max_template_name_bytes ==> rejects(
                r,
                size_message("template name"@, self@.max_template_name_bytes as nat),
            ),
    {
        check_text_size(name, self.max_template_name_bytes, "template name")
    }

    /// Checks a path for the AUX scan: file path features must be enabled
    /// and the canonical path must lie under one of the allowed AUX
    /// directories. `canonical_dirs[i]` is the canonical form of the `i`-th
    /// allowed AUX directory, or `None` where it could not be resolved (it
    /// does not exist); the roots are the resolved ones, and entries past the
    /// configured directories are not read.
    pub fn check_aux_path(&self, canonical_path: &str, canonical_dirs: &[Option<String>]) -> (r: Result<
        String,
        ZoteroApiError,
    >)
        ensures
            aux_checked(self@, canonical_path@, canonical_dirs@, r),
    {
        if !self.file_paths_enabled {
            return Err(
                ZoteroApiError::InputRejected(
                    "File path features are disabled; set ZOTERO_MCP_PROFILE=workspace or ZOTERO_FILE_PATHS_ENABLED=true".to_owned(),
                ),
            );
        }
        let n = if self.allowed_aux_dirs.len() < canonical_dirs.len() {
            self.allowed_aux_dirs.len()
        } else {
            canonical_dirs.len()
        };
        let ghost cv = canonical_dirs@;
        let mut roots: Vec<String> = Vec::new();
        let mut i: usize = 0;
        assert(cv.take(0) =~= Seq::<Option<String>>::empty());
        while i < n
            invariant
                i <= n,
                n <= canonical_dirs@.len(),
                cv == canonical_dirs@,
                views(roots@) == resolved_roots(cv.take(i as int)),
            decreases n - i,
        {
            assert(cv.take(i + 1).drop_last() =~= cv.take(i as int));
            assert(cv.take(i + 1).last() == cv[i as int]);
            match &canonical_dirs[i] {
                Some(d) => {
                    let ghost before = roots@;
                    roots.push(d.clone());
                    assert(views(roots@) =~= views(before).push(d@));
                },
                None => {},
            }
            i = i + 1;
        }
        assert(n as int == min_len(self@.allowed_aux_dirs.len(), canonical_dirs@.len()));
        assert(views(roots@) == aux_roots(self@, canonical_dirs@));
        self.check_existing_read_path(canonical_path, roots.as_slice(), "AUX scan")
    }

    pub fn profile(&self) -> (r: SecurityProfile)
        ensures
            r == self@.profile,
    {
        self.profile
    }

    pub fn is_direct_file_paths_enabled(&self) -> (r: bool)
        ensures
            r == self@.direct_file_paths,
    {
        self.direct_file_paths
    }

    pub fn is_file_paths_enabled(&self) -> (r: bool)
        ensures
            r == self@.file_paths_enabled,
    {
        self.file_paths_enabled
    }

    pub fn allowed_read_dirs(&self) -> (r: &[String])
        ensures
            views(r@) == self@.allowed_read_dirs,
    {
        self.allowed_read_dirs.as_slice()
    }

    pub fn allowed_aux_dirs(&self) -> (r: &[String])
        ensures
            views(r@) == self@.allowed_aux_dirs,
    {
        self.allowed_aux_dirs.as_slice()
    }

    pub fn allowed_export_dirs(&self) -> (r: &[String])
        ensures
            views(r@) == self@.allowed_export_dirs,
    {
        self.allowed_export_dirs.as_slice()
    }

    pub fn max_pdf_bytes(&self) -> (r: u64)
        ensures
            r == self@.max_pdf_bytes,
    {
        self.max_pdf_bytes
    }

    pub fn max_http_body_bytes(&self) -> (r: usize)
        ensures
            r == self@.max_http_body_bytes,
    {
        self.max_http_body_bytes
    }

    pub fn max_markdown_bytes(&self) -> (r: usize)
        ensures
            r == self@.max_markdown_bytes,
    {
        self.max_markdown_bytes
    }

    pub fn max_html_bytes(&self) -> (r: usize)
        ensures
            r == self@.max_html_bytes,
    {
        self.max_html_bytes
    }

    pub fn max_template_name_bytes(&self) -> (r: usize)
        ensures
            r == self@.max_template_name_bytes,
    {
        self.max_template_name_bytes
    }

    pub fn set_direct_file_paths_enabled(&mut self, enabled: bool)
        ensures
            final(self)@ == (SecurityView { direct_file_paths: enabled, ..old(self)@ }),
    {
        self.direct_file_paths = enabled;
    }

    pub fn set_file_paths_enabled(&mut self, enabled: bool)
        ensures
            final(self)@ == (SecurityView { file_paths_enabled: enabled, ..old(self)@ }),
    {
        self.file_paths_enabled = enabled;
    }

    pub fn set_allowed_read_dirs(&mut self, dirs: Vec<String>)
        ensures
            final(self)@ == (SecurityView { allowed_read_dirs: views(dirs@), ..old(self)@ }),
    {
        self.allowed_read_dirs = dirs;
    }

    pub fn set_allowed_export_dirs(&mut self, dirs: Vec<String>)
        ensures
            final(self)@ == (SecurityView { allowed_export_dirs: views(dirs@), ..old(self)@ }),
    {
        self.allowed_export_dirs = dirs;
    }

    pub fn set_allowed_aux_dirs(&mut self, dirs: Vec<String>)
        ensures
            final(self)@ == (SecurityView { allowed_aux_dirs: views(dirs@), ..old(self)@ }),
    {
        self.allowed_aux_dirs = dirs;
    }

    pub fn set_max_pdf_bytes(&mut self, max: u64)
        ensures
            final(self)@ == (SecurityView { max_pdf_bytes: max, ..old(self)@ }),
    {
        self.max_pdf_bytes = max;
    }

    pub fn set_max_http_body_bytes(&mut self, max: usize)
        ensures
            final(self)@ == (SecurityView { max_http_body_bytes: max, ..old(self)@ }),
    {
        self.max_http_body_bytes = max;
    }

    pub fn set_max_markdown_bytes(&mut self, max: usize)
        ensures
            final(self)@ == (SecurityView { max_markdown_bytes: max, ..old(self)@ }),
    {
        self.max_markdown_bytes = max;
    }

    pub fn set_max_html_bytes(&mut self, max: usize)
        ensures
            final(self)@ == (SecurityView { max_html_bytes: max, ..old(self)@ }),
    {
        self.max_html_bytes = max;
    }

    pub fn set_max_template_name_bytes(&mut self, max: usize)
        ensures
            final(self)@ == (SecurityView { max_template_name_bytes: max, ..old(self)@ }),
    {
        self.max_template_name_bytes = max;
    }
}

impl Default for SecurityConfig {
    /// The default profile's configuration.
    fn default() -> (r: Self)
        ensures
            r@ == default_view(),
    {
        SecurityConfig::default_config()
    }
}

/// The target that an output check accepts, a file name joined onto an
/// allowed canonical parent directory, lies under an allowed root.
pub proof fn lemma_output_target_stays_allowed(path: Seq<char>, canonical_parent: Seq<char>, roots: Seq<Seq<char>>)
    requires
        allowed_under(canonical_parent, roots),
        canonical_parent.len() > 0,
        file_name(path) is Some,
    ensures
        allowed_under(path_join(canonical_parent, file_name(path)->0), roots),
{
    crate::paths::lemma_file_name_has_no_sep(path);
    let i = choose|i: int| 0 <= i < roots.len() && path_under(canonical_parent, #[trigger] roots[i]);
    crate::paths::lemma_join_stays_under(canonical_parent, file_name(path)->0, roots[i]);
}

} // verus!
