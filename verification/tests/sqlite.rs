use zotero::paths::Platform;
use zotero::sqlite::{profiles_dirs, read_string_pref, strip_html, tokenize_query, zotero_db_candidates};

#[test]
fn read_string_pref_unescapes_paths_and_quotes() {
    let contents = r#"user_pref("extensions.zotero.dataDir", "/Users/jack/Zotero \"Library\"");"#;

    let value = read_string_pref(contents, "extensions.zotero.dataDir");

    assert_eq!(value.as_deref(), Some("/Users/jack/Zotero \"Library\""));
}

#[test]
fn read_string_pref_takes_the_first_matching_line_and_ignores_others() {
    let contents = "user_pref(\"other\", \"x\");\n  user_pref(\"extensions.zotero.dataDir\", \"/data\");\nuser_pref(\"extensions.zotero.dataDir\", \"/later\");";
    assert_eq!(read_string_pref(contents, "extensions.zotero.dataDir").as_deref(), Some("/data"));
    assert_eq!(read_string_pref(contents, "missing"), None);
}

#[test]
fn strip_html_removes_tags_but_keeps_visible_text() {
    let stripped = strip_html("<p>Hello <strong>visible</strong></p>");

    assert_eq!(stripped, "Hello visible");
}

#[test]
fn tokenize_query_splits_on_punctuation_lowercases_and_dedupes() {
    let tokens = tokenize_query("Borrow, checker. CHECKER");
    assert_eq!(tokens, vec!["borrow", "checker"]);
}

#[test]
fn profile_directories_follow_the_platform() {
    assert_eq!(
        profiles_dirs(Some("C:/AppData"), None, Platform::Other),
        vec!["C:/AppData/Zotero/Zotero/Profiles".to_owned()]
    );
    assert_eq!(
        profiles_dirs(None, Some("/home/u"), Platform::Linux),
        vec!["/home/u/.zotero/zotero".to_owned()]
    );
    assert_eq!(
        profiles_dirs(None, Some("/Users/u"), Platform::MacOs),
        vec!["/Users/u/Library/Application Support/Zotero/Profiles".to_owned()]
    );
    assert!(profiles_dirs(None, None, Platform::Linux).is_empty());
}

#[test]
fn database_candidates_come_in_search_order() {
    let profiles = vec![
        ("/p/one".to_owned(), Some("/data".to_owned())),
        ("/p/two".to_owned(), None),
    ];
    let candidates = zotero_db_candidates(Some("/env/zotero.sqlite"), &profiles, Some("/home/u"));
    assert_eq!(
        candidates,
        vec![
            "/env/zotero.sqlite".to_owned(),
            "/data/zotero.sqlite".to_owned(),
            "/p/one/zotero.sqlite".to_owned(),
            "/p/two/zotero.sqlite".to_owned(),
            "/home/u/Zotero/zotero.sqlite".to_owned(),
        ]
    );
}

use zotero::sqlite::{
    fulltext_hits, fulltext_query, note_annotation_hits, AnnotationRow, FulltextRow, HitKind, NoteRow, SqlParam,
    SNIPPET_CHARS,
};

#[test]
fn fulltext_query_binds_tokens_pattern_and_cap() {
    let q = fulltext_query("Borrow checker", 10);
    let texts: Vec<String> = q
        .params
        .iter()
        .filter_map(|p| match p {
            SqlParam::Text(t) => Some(t.clone()),
            SqlParam::Int(_) => None,
        })
        .collect();
    assert_eq!(&texts[..4], &["borrow", "checker", "borrow", "checker"]);
    assert_eq!(texts[4], "%borrow checker%");
    assert_eq!(texts.len(), 8);
    assert_eq!(q.params.last(), Some(&SqlParam::Int(50)));
    let capped = fulltext_query("x", 1000);
    assert_eq!(capped.params.last(), Some(&SqlParam::Int(2000)));
}

#[test]
fn fulltext_hits_cut_snippets_and_respect_the_limit() {
    let row = |k: &str| FulltextRow {
        key: k.to_owned(),
        item_type: "book".to_owned(),
        title: Some("T".to_owned()),
        doi: None,
        creators: None,
        words: Some("w".repeat(SNIPPET_CHARS + 5)),
    };
    let hits = fulltext_hits(vec![row("A"), row("B"), row("C")], 2);
    assert_eq!(hits.len(), 2);
    assert_eq!(hits[0].key.as_str(), "A");
    assert_eq!(hits[0].snippet.chars().count(), SNIPPET_CHARS);
    assert_eq!(hits[0].creators, "");
}

#[test]
fn note_hits_match_visible_text_and_come_before_annotations() {
    let notes = vec![
        NoteRow { key: "N1".to_owned(), note: Some("<p>Borrow <b>checker</b></p>".to_owned()), parent_key: None, parent_title: None },
        NoteRow { key: "N2".to_owned(), note: Some("<p class=\"checker\">nothing</p>".to_owned()), parent_key: None, parent_title: None },
    ];
    let annotations = vec![AnnotationRow {
        key: "A1".to_owned(),
        text: Some("t".to_owned()),
        comment: None,
        parent_key: Some("P1".to_owned()),
        parent_title: None,
        page_label: Some("3".to_owned()),
        color: None,
    }];
    let hits = note_annotation_hits("CHECKER", notes, annotations, 10);
    assert_eq!(hits.len(), 2);
    assert_eq!(hits[0].kind, HitKind::Note);
    assert_eq!(hits[0].key.as_str(), "N1");
    assert_eq!(hits[1].kind, HitKind::Annotation);
    assert_eq!(hits[1].parent_key.as_ref().map(|k| k.as_str()), Some("P1"));
}

#[test]
fn query_tokens_are_distinct_alphanumeric_words() {
    let tokens = tokenize_query("  Élan--vital; élan, VITAL 42!! 42 ");
    assert_eq!(tokens, vec!["élan", "vital", "42"]);
    for (i, t) in tokens.iter().enumerate() {
        assert!(!t.is_empty() && t.chars().all(char::is_alphanumeric));
        assert!(!tokens[..i].contains(t));
    }
}

#[test]
fn like_wildcards_in_queries_are_escaped() {
    let q = fulltext_query("R_st 100%", 10);
    let texts: Vec<String> = q
        .params
        .iter()
        .filter_map(|p| match p {
            SqlParam::Text(t) => Some(t.clone()),
            SqlParam::Int(_) => None,
        })
        .collect();
    assert_eq!(texts.last().unwrap(), "%r\\_st 100\\%%");
    assert_eq!(q.sql.matches("LIKE ? ESCAPE '\\'").count(), 4);
    let (notes, annotations) = zotero::sqlite::notes_queries("a\\b", 10);
    assert_eq!(notes.params[0], SqlParam::Text("%a\\\\b%".to_owned()));
    assert_eq!(annotations.params[1], SqlParam::Text("%a\\\\b%".to_owned()));
    assert!(notes.sql.contains("LIKE ? ESCAPE '\\'"));
}
