//! The catalog of the server's tools, resources and prompts: what each
//! needs enabled, which tools are visible or write, and what a discovery
//! query returns.
use vstd::prelude::*;
use crate::text::{chars_of, contains, contains_exec, str_eq, to_lowercase, unicode_lowercase};

verus! {

/// The kind of a primitive of the server.
#[derive(Copy, Clone, Debug, PartialEq, Eq, Structural)]
pub enum PrimitiveKind {
    Tool,
    Resource,
    Prompt,
}

/// The area a primitive belongs to.
#[derive(Copy, Clone, Debug, PartialEq, Eq, Structural)]
pub enum PrimitiveDomain {
    Discovery,
    Items,
    Collections,
    Search,
    Notes,
    Sqlite,
    Semantic,
    Prompts,
}

/// A switch of the environment that a primitive needs on.
#[derive(Copy, Clone, Debug, PartialEq, Eq, Structural)]
pub enum EnvGate {
    WriteEnabled,
    SqliteAccess,
    SemanticSearchEnabled,
    ConnectorCompat,
}

/// The environment variable of a gate.
pub open spec fn env_var_name(g: EnvGate) -> Seq<char> {
    match g {
        EnvGate::WriteEnabled => "ZOTERO_WRITE_ENABLED"@,
        EnvGate::SqliteAccess => "ZOTERO_SQLITE_ACCESS"@,
        EnvGate::SemanticSearchEnabled => "ZOTERO_SEMANTIC_SEARCH"@,
        EnvGate::ConnectorCompat => "ZOTERO_CONNECTOR_COMPAT"@,
    }
}

impl EnvGate {
    /// The variable that sets this switch, such as `ZOTERO_WRITE_ENABLED`.
    pub fn env_var(self) -> (r: &'static str)
        ensures
            r@ == env_var_name(self),
    {
        match self {
            EnvGate::WriteEnabled => "ZOTERO_WRITE_ENABLED",
            EnvGate::SqliteAccess => "ZOTERO_SQLITE_ACCESS",
            EnvGate::SemanticSearchEnabled => "ZOTERO_SEMANTIC_SEARCH",
            EnvGate::ConnectorCompat => "ZOTERO_CONNECTOR_COMPAT",
        }
    }
}

/// Which gates the server was started with.
#[derive(Copy, Clone, Debug, PartialEq, Eq)]
pub struct GateState {
    pub write_enabled: bool,
    pub sqlite_access: bool,
    pub semantic_search: bool,
    pub connector_compat: bool,
}

impl GateState {
    /// Whether gate `g` is on.
    pub open spec fn on(self, g: EnvGate) -> bool {
        match g {
            EnvGate::WriteEnabled => self.write_enabled,
            EnvGate::SqliteAccess => self.sqlite_access,
            EnvGate::SemanticSearchEnabled => self.semantic_search,
            EnvGate::ConnectorCompat => self.connector_compat,
        }
    }

    /// Whether gate `g` is on.
    pub fn allows(&self, g: EnvGate) -> (b: bool)
        ensures
            b == self.on(g),
    {
        match g {
            EnvGate::WriteEnabled => self.write_enabled,
            EnvGate::SqliteAccess => self.sqlite_access,
            EnvGate::SemanticSearchEnabled => self.semantic_search,
            EnvGate::ConnectorCompat => self.connector_compat,
        }
    }

    /// Every gate of `gates` is on.
    pub open spec fn all_on(self, gates: Seq<EnvGate>) -> bool {
        forall|i: int| 0 <= i < gates.len() ==> self.on(#[trigger] gates[i])
    }

    /// Whether every gate of `gates` is on.
    pub fn allows_all(&self, gates: &[EnvGate]) -> (b: bool)
        ensures
            b == self.all_on(gates@),
    {
        let mut i: usize = 0;
        while i < gates.len()
            invariant
                i <= gates@.len(),
                forall|j: int| 0 <= j < i ==> self.on(#[trigger] gates@[j]),
            decreases gates@.len() - i,
        {
            if !self.allows(gates[i]) {
                return false;
            }
            i = i + 1;
        }
        true
    }
}

/// A primitive of the server, as the catalog describes it.
#[derive(Debug)]
pub struct PrimitiveInfo {
    pub name: String,
    pub kind: PrimitiveKind,
    pub domain: PrimitiveDomain,
    /// The gates it needs on.
    pub gates: Vec<EnvGate>,
    pub summary: String,
    pub example: Option<String>,
    /// The words that a discovery query is matched against.
    pub search_text: String,
}

/// The name, kind, domain and gates of a primitive.
pub open spec fn row_of(p: PrimitiveInfo) -> (Seq<char>, PrimitiveKind, PrimitiveDomain, Seq<EnvGate>) {
    (p.name@, p.kind, p.domain, p.gates@)
}

/// The catalog, by name, kind, domain and gates, in order.
pub open spec fn catalog_spec() -> Seq<(Seq<char>, PrimitiveKind, PrimitiveDomain, Seq<EnvGate>)> {
    seq![
        ("search"@, PrimitiveKind::Tool, PrimitiveDomain::Search, seq![EnvGate::ConnectorCompat]),
        ("fetch"@, PrimitiveKind::Tool, PrimitiveDomain::Items, seq![EnvGate::ConnectorCompat]),
        ("zotero_discover"@, PrimitiveKind::Tool, PrimitiveDomain::Discovery, Seq::<EnvGate>::empty()),
        ("zotero_status"@, PrimitiveKind::Tool, PrimitiveDomain::Discovery, Seq::<EnvGate>::empty()),
        ("zotero_collections"@, PrimitiveKind::Tool, PrimitiveDomain::Collections, Seq::<EnvGate>::empty()),
        ("zotero_tags"@, PrimitiveKind::Tool, PrimitiveDomain::Items, Seq::<EnvGate>::empty()),
        ("zotero_relations"@, PrimitiveKind::Tool, PrimitiveDomain::Items, Seq::<EnvGate>::empty()),
        ("zotero_pdf"@, PrimitiveKind::Tool, PrimitiveDomain::Items, Seq::<EnvGate>::empty()),
        ("better_bibtex"@, PrimitiveKind::Tool, PrimitiveDomain::Items, Seq::<EnvGate>::empty()),
        ("better_notes"@, PrimitiveKind::Tool, PrimitiveDomain::Notes, Seq::<EnvGate>::empty()),
        ("zotero://items/{item_key}"@, PrimitiveKind::Resource, PrimitiveDomain::Items, Seq::<EnvGate>::empty()),
        ("zotero://collections/{collection_key}/items"@, PrimitiveKind::Resource, PrimitiveDomain::Collections, Seq::<EnvGate>::empty()),
        ("zotero_search"@, PrimitiveKind::Tool, PrimitiveDomain::Search, Seq::<EnvGate>::empty()),
        ("zotero_items"@, PrimitiveKind::Tool, PrimitiveDomain::Items, Seq::<EnvGate>::empty()),
        ("zotero_notes"@, PrimitiveKind::Tool, PrimitiveDomain::Notes, Seq::<EnvGate>::empty()),
        ("zotero_items_write"@, PrimitiveKind::Tool, PrimitiveDomain::Items, seq![EnvGate::WriteEnabled]),
        ("zotero_notes_write"@, PrimitiveKind::Tool, PrimitiveDomain::Notes, seq![EnvGate::WriteEnabled]),
        ("zotero_sqlite_search"@, PrimitiveKind::Tool, PrimitiveDomain::Sqlite, seq![EnvGate::SqliteAccess]),
        ("zotero_semantic_search"@, PrimitiveKind::Tool, PrimitiveDomain::Semantic, seq![EnvGate::SemanticSearchEnabled]),
        ("zotero_literature_review"@, PrimitiveKind::Prompt, PrimitiveDomain::Prompts, Seq::<EnvGate>::empty()),
    ]
}

fn one_gate(g: EnvGate) -> (r: Vec<EnvGate>)
    ensures
        r@ == seq![g],
{
    let mut v: Vec<EnvGate> = Vec::new();
    v.push(g);
    v
}

fn primitive(
    name: &str,
    kind: PrimitiveKind,
    domain: PrimitiveDomain,
    gates: Vec<EnvGate>,
    summary: &str,
    example: Option<&str>,
    search_text: &str,
) -> (r: PrimitiveInfo)
    ensures
        r.name@ == name@ && r.kind == kind && r.domain == domain && r.gates@ == gates@,
        r.summary@ == summary@ && r.search_text@ == search_text@,
{
    PrimitiveInfo {
        name: name.to_owned(),
        kind,
        domain,
        gates,
        summary: summary.to_owned(),
        example: match example {
            Some(e) => Some(e.to_owned()),
            None => None,
        },
        search_text: search_text.to_owned(),
    }
}

/// The catalog of the server: every tool, resource template and prompt,
/// with the gates it needs, a summary, an example and its search words.
#[verifier::rlimit(60)]
pub fn primitive_catalog() -> (r: Vec<PrimitiveInfo>)
    ensures
        r@.map_values(|p: PrimitiveInfo| row_of(p)) == catalog_spec(),
{
    let mut t: Vec<PrimitiveInfo> = Vec::new();
    t.push(
        primitive(
            "search",
            PrimitiveKind::Tool,
            PrimitiveDomain::Search,
            one_gate(EnvGate::ConnectorCompat),
            "Connector compatibility: search Zotero items by query",
            Some("{\"query\":\"rust\"}"),
            "search connector compatibility zotero items query",
        ),
    );
    t.push(
        primitive(
            "fetch",
            PrimitiveKind::Tool,
            PrimitiveDomain::Items,
            one_gate(EnvGate::ConnectorCompat),
            "Connector compatibility: get Zotero item metadata by key",
            Some("{\"id\":\"ITEMKEY\"}"),
            "fetch connector compatibility zotero item metadata key",
        ),
    );
    t.push(
        primitive(
            "zotero_discover",
            PrimitiveKind::Tool,
            PrimitiveDomain::Discovery,
            Vec::new(),
            "Find Zotero tools, resources, prompts, env gates, and examples",
            Some("{\"query\":\"notes\"}"),
            "zotero_discover discovery find zotero tools resources prompts env gates and examples",
        ),
    );
    t.push(
        primitive(
            "zotero_status",
            PrimitiveKind::Tool,
            PrimitiveDomain::Discovery,
            Vec::new(),
            "Show server status and configuration",
            None,
            "zotero_status status server configuration",
        ),
    );
    t.push(
        primitive(
            "zotero_collections",
            PrimitiveKind::Tool,
            PrimitiveDomain::Collections,
            Vec::new(),
            "Grouped collection actions: list, items",
            Some("{\"action\":\"list\"}"),
            "zotero_collections collections grouped actions list items",
        ),
    );
    t.push(
        primitive(
            "zotero_tags",
            PrimitiveKind::Tool,
            PrimitiveDomain::Items,
            Vec::new(),
            "Grouped tag actions: list, add, remove",
            Some("{\"action\":\"list\",\"item_key\":\"ITEMKEY\"}"),
            "zotero_tags tags grouped actions list add remove",
        ),
    );
    t.push(
        primitive(
            "zotero_relations",
            PrimitiveKind::Tool,
            PrimitiveDomain::Items,
            Vec::new(),
            "Grouped relation actions: list, add, remove",
            Some("{\"action\":\"list\",\"item_key\":\"ITEMKEY\"}"),
            "zotero_relations relations grouped actions list add remove",
        ),
    );
    t.push(
        primitive(
            "zotero_pdf",
            PrimitiveKind::Tool,
            PrimitiveDomain::Items,
            Vec::new(),
            "Grouped PDF actions: attachment, fulltext, annotation",
            Some("{\"action\":\"attachment\",\"item_key\":\"ITEMKEY\"}"),
            "zotero_pdf pdf grouped actions attachment fulltext annotation",
        ),
    );
    t.push(
        primitive(
            "better_bibtex",
            PrimitiveKind::Tool,
            PrimitiveDomain::Items,
            Vec::new(),
            "Better BibTeX export and citation key operations",
            Some("{\"action\":\"export\",\"item_key\":\"ITEMKEY\"}"),
            "better_bibtex bibtex export citation key operations",
        ),
    );
    t.push(
        primitive(
            "better_notes",
            PrimitiveKind::Tool,
            PrimitiveDomain::Notes,
            Vec::new(),
            "Better Notes template and synchronization operations",
            Some("{\"action\":\"list_templates\"}"),
            "better_notes notes template synchronization operations",
        ),
    );
    t.push(
        primitive(
            "zotero://items/{item_key}",
            PrimitiveKind::Resource,
            PrimitiveDomain::Items,
            Vec::new(),
            "Read one Zotero item by key",
            Some("zotero://items/ITEMKEY"),
            "zotero://items/{item_key} items read one zotero item by key",
        ),
    );
    t.push(
        primitive(
            "zotero://collections/{collection_key}/items",
            PrimitiveKind::Resource,
            PrimitiveDomain::Collections,
            Vec::new(),
            "Read collection items",
            Some("zotero://collections/COLKEY/items"),
            "zotero://collections/{collection_key}/items collections read collection items",
        ),
    );
    t.push(
        primitive(
            "zotero_search",
            PrimitiveKind::Tool,
            PrimitiveDomain::Search,
            Vec::new(),
            "Grouped search actions: items, tag, citation_key, advanced, duplicates, coverage",
            Some("{\"action\":\"items\",\"query\":\"rust\",\"limit\":10}"),
            "zotero_search search grouped search actions items tag citation_key advanced duplicates coverage",
        ),
    );
    t.push(
        primitive(
            "zotero_items",
            PrimitiveKind::Tool,
            PrimitiveDomain::Items,
            Vec::new(),
            "Grouped item read actions: recent, get, metadata, children, fulltext",
            Some("{\"action\":\"get\",\"item_key\":\"ITEMKEY\"}"),
            "zotero_items items grouped item read actions recent get metadata children fulltext",
        ),
    );
    t.push(
        primitive(
            "zotero_notes",
            PrimitiveKind::Tool,
            PrimitiveDomain::Notes,
            Vec::new(),
            "Grouped note read actions: list, synthesize",
            Some("{\"action\":\"list\",\"item_key\":\"ITEMKEY\"}"),
            "zotero_notes notes grouped note read actions list synthesize",
        ),
    );
    t.push(
        primitive(
            "zotero_items_write",
            PrimitiveKind::Tool,
            PrimitiveDomain::Items,
            one_gate(EnvGate::WriteEnabled),
            "Grouped item write actions: update, delete, trash, restore, add_by_identifier, attach_file, import_pdf",
            Some("{\"action\":\"trash\",\"item_key\":\"ITEMKEY\"}"),
            "zotero_items_write items grouped item write actions update delete trash restore add_by_identifier attach_file import_pdf zotero_write_enabled",
        ),
    );
    t.push(
        primitive(
            "zotero_notes_write",
            PrimitiveKind::Tool,
            PrimitiveDomain::Notes,
            one_gate(EnvGate::WriteEnabled),
            "Grouped note write actions: create, annotation",
            Some("{\"action\":\"create\",\"parent_key\":\"ITEMKEY\",\"markdown\":\"# Note\"}"),
            "zotero_notes_write notes grouped note write actions create annotation zotero_write_enabled",
        ),
    );
    t.push(
        primitive(
            "zotero_sqlite_search",
            PrimitiveKind::Tool,
            PrimitiveDomain::Sqlite,
            one_gate(EnvGate::SqliteAccess),
            "Grouped local SQLite search actions: fulltext, notes_annotations",
            Some("{\"action\":\"fulltext\",\"query\":\"borrow checker\"}"),
            "zotero_sqlite_search sqlite grouped local sqlite search actions fulltext notes_annotations zotero_sqlite_access",
        ),
    );
    t.push(
        primitive(
            "zotero_semantic_search",
            PrimitiveKind::Tool,
            PrimitiveDomain::Semantic,
            one_gate(EnvGate::SemanticSearchEnabled),
            "Grouped semantic search actions: search, index, status",
            Some("{\"action\":\"search\",\"query\":\"attention mechanisms\"}"),
            "zotero_semantic_search semantic vector embedding grouped actions search index status zotero_semantic_search_enabled",
        ),
    );
    t.push(
        primitive(
            "zotero_literature_review",
            PrimitiveKind::Prompt,
            PrimitiveDomain::Prompts,
            Vec::new(),
            "Generate a literature review prompt for a collection",
            Some("{\"collection_key\":\"COLKEY\"}"),
            "zotero_literature_review prompts generate a literature review prompt for a collection",
        ),
    );
    assert(t@.map_values(|p: PrimitiveInfo| row_of(p)) =~= catalog_spec());
    t
}

/// The index of the first tool named `name`.
pub open spec fn first_tool(rows: Seq<PrimitiveInfo>, name: Seq<char>) -> Option<int>
    decreases rows.len(),
{
    if rows.len() == 0 {
        None
    } else if rows[0].kind == PrimitiveKind::Tool && rows[0].name@ == name {
        Some(0)
    } else {
        match first_tool(rows.drop_first(), name) {
            Some(i) => Some(i + 1),
            None => None,
        }
    }
}

proof fn lemma_first_tool_bounds(rows: Seq<PrimitiveInfo>, name: Seq<char>)
    ensures
        first_tool(rows, name) matches Some(i) ==> 0 <= i < rows.len() && rows[i].kind == PrimitiveKind::Tool
            && rows[i].name@ == name,
    decreases rows.len(),
{
    if rows.len() > 0 {
        lemma_first_tool_bounds(rows.drop_first(), name);
    }
}

/// The gates of the tool named `name`, if the catalog has such a tool.
pub fn tool_gates<'a>(table: &'a [PrimitiveInfo], name: &str) -> (r: Option<&'a [EnvGate]>)
    ensures
        match first_tool(table@, name@) {
            Some(i) => r matches Some(g) && g@ == table@[i].gates@,
            None => r is None,
        },
{
    let mut i: usize = 0;
    assert(table@.skip(0) =~= table@);
    while i < table.len()
        invariant
            i <= table@.len(),
            first_tool(table@, name@) == match first_tool(table@.skip(i as int), name@) {
                Some(k) => Some(k + i),
                None => None,
            },
        decreases table@.len() - i,
    {
        assert(table@.skip(i as int).drop_first() =~= table@.skip(i + 1));
        if table[i].kind == PrimitiveKind::Tool && str_eq(table[i].name.as_str(), name) {
            return Some(table[i].gates.as_slice());
        }
        i = i + 1;
    }
    None
}

/// The tool named `name` needs writes enabled.
pub open spec fn write_tool(table: Seq<PrimitiveInfo>, name: Seq<char>) -> bool {
    first_tool(table, name) matches Some(i) && table[i].gates@.contains(EnvGate::WriteEnabled)
}

/// Whether the tool named `name` changes the library: its gates include
/// writes.
pub fn is_write_tool(table: &[PrimitiveInfo], name: &str) -> (b: bool)
    ensures
        b == write_tool(table@, name@),
{
    proof {
        lemma_first_tool_bounds(table@, name@);
    }
    match tool_gates(table, name) {
        Some(g) => {
            let mut i: usize = 0;
            while i < g.len()
                invariant
                    i <= g@.len(),
                    first_tool(table@, name@) matches Some(k) && g@ == table@[k].gates@,
                    forall|j: int| 0 <= j < i ==> g@[j] != EnvGate::WriteEnabled,
                decreases g@.len() - i,
            {
                if g[i] == EnvGate::WriteEnabled {
                    assert(g@[i as int] == EnvGate::WriteEnabled);
                    assert(g@.contains(EnvGate::WriteEnabled));
                    return true;
                }
                i = i + 1;
            }
            false
        },
        None => false,
    }
}

/// The tool named `name` is listed: the catalog has it and its gates are
/// all on.
pub open spec fn tool_visible(table: Seq<PrimitiveInfo>, gates: GateState, name: Seq<char>) -> bool {
    first_tool(table, name) matches Some(i) && gates.all_on(table[i].gates@)
}

/// Whether the tool named `name` is listed.
pub fn is_tool_visible(table: &[PrimitiveInfo], gates: &GateState, name: &str) -> (b: bool)
    ensures
        b == tool_visible(table@, *gates, name@),
{
    match tool_gates(table, name) {
        Some(g) => gates.allows_all(g),
        None => false,
    }
}

/// What a discovery query asks: words to look for, an area, and whether
/// disabled primitives are listed too.
#[derive(Debug)]
pub struct DiscoverArgs {
    pub query: Option<String>,
    pub domain: Option<PrimitiveDomain>,
    pub include_disabled: Option<bool>,
}

/// A primitive answers a discovery query: it is enabled (or disabled ones
/// are asked for), in the area asked for, and its search words contain the
/// lowercased query.
pub open spec fn discovered(p: PrimitiveInfo, gates: GateState, args: DiscoverArgs) -> bool {
    &&& (args.include_disabled == Some(true) || gates.all_on(p.gates@))
    &&& match args.domain {
        Some(d) => p.domain == d,
        None => true,
    }
    &&& match args.query {
        Some(q) => contains(p.search_text@, unicode_lowercase(q@)),
        None => true,
    }
}

/// The primitives of `table` that answer a discovery query, in order.
pub fn discover(table: Vec<PrimitiveInfo>, gates: &GateState, args: &DiscoverArgs) -> (r: Vec<PrimitiveInfo>)
    ensures
        r@ == table@.filter(|p: PrimitiveInfo| discovered(p, *gates, *args)),
{
    let ghost src = table@;
    let ghost pred = |p: PrimitiveInfo| discovered(p, *gates, *args);
    let needle: Option<Vec<char>> = match &args.query {
        Some(q) => {
            let lc = to_lowercase(q.as_str());
            Some(chars_of(lc.as_str()))
        },
        None => None,
    };
    let all = match args.include_disabled {
        Some(b) => b,
        None => false,
    };
    let n = table.len();
    let mut rest = table;
    let mut out: Vec<PrimitiveInfo> = Vec::new();
    let mut i: usize = 0;
    assert(src.take(0) =~= Seq::<PrimitiveInfo>::empty());
    proof {
        reveal(Seq::filter);
    }
    while i < n
        invariant
            n == src.len(),
            i <= n,
            rest@ == src.skip(i as int),
            all == (args.include_disabled == Some(true)),
            match args.query {
                Some(q) => needle matches Some(nd) && nd@ == unicode_lowercase(q@),
                None => needle is None,
            },
            pred == (|p: PrimitiveInfo| discovered(p, *gates, *args)),
            out@ == src.take(i as int).filter(pred),
        decreases n - i,
    {
        let x = rest.remove(0);
        assert(x == src[i as int]);
        assert(rest@ == src.skip(i + 1));
        proof {
            reveal(Seq::filter);
            assert(src.take(i + 1).drop_last() =~= src.take(i as int));
            assert(src.take(i + 1).last() == x);
        }
        let enabled = all || gates.allows_all(x.gates.as_slice());
        let in_domain = match args.domain {
            Some(d) => x.domain == d,
            None => true,
        };
        let words = match &needle {
            Some(nd) => {
                let hay = chars_of(x.search_text.as_str());
                contains_exec(hay.as_slice(), nd.as_slice())
            },
            None => true,
        };
        if enabled && in_domain && words {
            out.push(x);
        }
        i = i + 1;
    }
    assert(src.take(n as int) =~= src);
    out
}

/// A tool that changes the library is listed only while writes are enabled.
pub proof fn lemma_write_tool_visible_only_with_writes(table: Seq<PrimitiveInfo>, gates: GateState, name: Seq<char>)
    requires
        write_tool(table, name),
        tool_visible(table, gates, name),
    ensures
        gates.write_enabled,
{
    let i = first_tool(table, name)->0;
    let j = choose|j: int| 0 <= j < table[i].gates@.len() && table[i].gates@[j] == EnvGate::WriteEnabled;
    assert(gates.on(table[i].gates@[j]));
}

} // verus!
