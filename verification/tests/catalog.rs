use zotero::catalog::{
    discover, is_tool_visible, is_write_tool, primitive_catalog, tool_gates, DiscoverArgs, EnvGate, GateState,
    PrimitiveDomain, PrimitiveKind,
};

fn gates(write: bool) -> GateState {
    GateState { write_enabled: write, sqlite_access: false, semantic_search: false, connector_compat: false }
}

#[test]
fn serializes_connector_compat_variant_as_env_var_name() {
    assert_eq!(EnvGate::ConnectorCompat.env_var(), "ZOTERO_CONNECTOR_COMPAT");
    assert_eq!(EnvGate::WriteEnabled.env_var(), "ZOTERO_WRITE_ENABLED");
    assert_eq!(EnvGate::SqliteAccess.env_var(), "ZOTERO_SQLITE_ACCESS");
    assert_eq!(EnvGate::SemanticSearchEnabled.env_var(), "ZOTERO_SEMANTIC_SEARCH");
}

#[test]
fn catalog_lists_every_primitive_once() {
    let table = primitive_catalog();
    assert_eq!(table.len(), 20);
    assert_eq!(table[0].name, "search");
    assert_eq!(table[19].name, "zotero_literature_review");
    assert_eq!(table[19].kind, PrimitiveKind::Prompt);
}

#[test]
fn write_tools_are_exactly_the_gated_writers() {
    let table = primitive_catalog();
    assert!(is_write_tool(&table, "zotero_items_write"));
    assert!(is_write_tool(&table, "zotero_notes_write"));
    assert!(!is_write_tool(&table, "zotero_items"));
    assert!(!is_write_tool(&table, "no_such_tool"));
    assert!(!is_write_tool(&table, "zotero://items/{item_key}"));
}

#[test]
fn gated_tools_are_hidden_until_their_gate_is_on() {
    let table = primitive_catalog();
    assert!(is_tool_visible(&table, &gates(false), "zotero_search"));
    assert!(!is_tool_visible(&table, &gates(false), "zotero_items_write"));
    assert!(is_tool_visible(&table, &gates(true), "zotero_items_write"));
    assert!(!is_tool_visible(&table, &gates(true), "search"));
    assert!(!is_tool_visible(&table, &gates(true), "unknown"));
    assert_eq!(tool_gates(&table, "zotero_sqlite_search"), Some(&[EnvGate::SqliteAccess][..]));
}

#[test]
fn discover_omits_write_capabilities_by_default() {
    let found = discover(
        primitive_catalog(),
        &gates(false),
        &DiscoverArgs { query: None, domain: None, include_disabled: None },
    );
    assert!(found.iter().all(|p| p.name != "zotero_items_write" && p.name != "zotero_notes_write"));
    assert!(found.iter().any(|p| p.name == "zotero_discover"));
}

#[test]
fn discover_can_include_disabled_capabilities_and_filter() {
    let found = discover(
        primitive_catalog(),
        &gates(false),
        &DiscoverArgs { query: Some("WRITE".to_owned()), domain: Some(PrimitiveDomain::Notes), include_disabled: Some(true) },
    );
    let names: Vec<&str> = found.iter().map(|p| p.name.as_str()).collect();
    assert_eq!(names, vec!["zotero_notes_write"]);
}

fn all_gates(write: bool, sqlite: bool, semantic: bool, connector: bool) -> GateState {
    GateState { write_enabled: write, sqlite_access: sqlite, semantic_search: semantic, connector_compat: connector }
}

/// The tools of the catalog that the gates let through, sorted by name.
fn visible_tool_names(g: &GateState) -> Vec<String> {
    let table = primitive_catalog();
    let mut names: Vec<String> = table
        .iter()
        .filter(|p| p.kind == PrimitiveKind::Tool && is_tool_visible(&table, g, &p.name))
        .map(|p| p.name.clone())
        .collect();
    names.sort();
    names
}

#[test]
fn visible_tools_lists_base_grouped_tools_only() {
    let names = visible_tool_names(&all_gates(false, false, false, false));
    assert_eq!(names, [
        "better_bibtex",
        "better_notes",
        "zotero_collections",
        "zotero_discover",
        "zotero_items",
        "zotero_notes",
        "zotero_pdf",
        "zotero_relations",
        "zotero_search",
        "zotero_status",
        "zotero_tags",
    ]);
    assert!(!names.contains(&"fetch".to_owned()));
    assert!(!names.contains(&"search".to_owned()));
    assert!(!names.contains(&"zotero_get_item".to_owned()));
    assert!(!names.contains(&"zotero_create_note".to_owned()));
    assert!(!names.contains(&"zotero_fulltext_search".to_owned()));
}

#[test]
fn visible_tools_includes_connector_compat_when_enabled() {
    let names = visible_tool_names(&all_gates(false, false, false, true));
    assert!(names.contains(&"fetch".to_owned()));
    assert!(names.contains(&"search".to_owned()));
}

#[test]
fn sqlite_group_appears_when_enabled() {
    let names = visible_tool_names(&all_gates(false, true, false, false));
    assert!(names.contains(&"zotero_sqlite_search".to_owned()));
    assert!(!names.contains(&"zotero_fulltext_search".to_owned()));
}

#[test]
fn write_groups_appear_when_enabled() {
    let names = visible_tool_names(&all_gates(true, false, false, false));
    assert!(names.contains(&"zotero_notes_write".to_owned()));
    assert!(names.contains(&"zotero_items_write".to_owned()));
    assert!(!names.contains(&"zotero_create_note".to_owned()));
}

#[test]
fn returns_tool_for_visible_name_and_none_for_hidden_or_unknown() {
    let table = primitive_catalog();
    let g = all_gates(false, false, false, false);
    assert!(is_tool_visible(&table, &g, "zotero_items"));
    assert!(!is_tool_visible(&table, &g, "zotero_items_write"));
    assert!(!is_tool_visible(&table, &g, "nonexistent_tool"));
}

#[test]
fn discover_can_include_disabled_capabilities() {
    let found = discover(
        primitive_catalog(),
        &all_gates(false, false, false, false),
        &DiscoverArgs { query: None, domain: None, include_disabled: Some(true) },
    );
    assert!(found.iter().any(|p| p.gates.iter().any(|g| g.env_var() == "ZOTERO_WRITE_ENABLED")));
}
