use zotero::better_bibtex::{
    autoexport_params, bibliography_params, citekey_for_item, citekeys_params, export_params, pandoc_filter_params,
    regenerate_keys_params, rpc_http_error, rpc_request_body, rpc_result, scan_aux_params, search_params,
    AutoExportAddRequest, AuxFilePath, BetterBibtexClient, BibliographyContentType, BibliographyFormat, CollectionPath,
    CslStyleId, ExportFilePath, Locale, RpcErrorBody, SearchQuery, TranslatorName,
};
use zotero::errors::ZoteroApiError;
use zotero::json::JsonValue;
use zotero::keys::{CitationKey, ItemKey};

fn s(v: &str) -> JsonValue {
    JsonValue::String(v.to_owned())
}

#[test]
fn serializes_method_and_id() {
    let body = rpc_request_body("item.citationkey", vec![JsonValue::Array(vec![s("KEY1")])]);

    assert_eq!(body.get("method"), Some(&s("item.citationkey")));
    assert_eq!(body.get("id"), Some(&JsonValue::Number("1".to_owned())));
    assert_eq!(body.get("jsonrpc"), Some(&s("2.0")));
    assert_eq!(body.get("params"), Some(&JsonValue::Array(vec![JsonValue::Array(vec![s("KEY1")])])));
}

#[test]
fn deserializes_result_and_error_object() {
    let err = rpc_result(
        "2.0".to_owned(),
        Some(JsonValue::Object(vec![("KEY1".to_owned(), s("citekey1"))])),
        Some(RpcErrorBody { code: -32600, message: "Invalid request".to_owned(), data: Some("\"extra detail\"".to_owned()) }),
    )
    .unwrap_err();
    assert_eq!(err, ZoteroApiError::BetterBibTeX("RPC error -32600: Invalid request (data: \"extra detail\")".to_owned()));
}

#[test]
fn returns_better_bibtex_error_when_http_status_is_non_success() {
    let err = rpc_http_error(404);
    assert!(matches!(&err, ZoteroApiError::BetterBibTeX(msg) if msg.contains("404")));
    assert_eq!(err, ZoteroApiError::BetterBibTeX("HTTP 404 Not Found".to_owned()));
}

#[test]
fn returns_better_bibtex_error_when_response_carries_an_rpc_error() {
    let err = rpc_result(
        "2.0".to_owned(),
        None,
        Some(RpcErrorBody { code: -32600, message: "boom".to_owned(), data: None }),
    )
    .unwrap_err();
    assert!(matches!(&err, ZoteroApiError::BetterBibTeX(msg) if msg.contains("-32600") && msg.contains("boom")));
}

#[test]
fn rpc_result_checks_version_then_error_then_result() {
    assert_eq!(
        rpc_result("1.0".to_owned(), Some(s("x")), None).unwrap_err(),
        ZoteroApiError::BetterBibTeX("Unsupported JSON-RPC version 1.0".to_owned())
    );
    assert_eq!(
        rpc_result("2.0".to_owned(), None, None).unwrap_err(),
        ZoteroApiError::BetterBibTeX("JSON-RPC returned null result".to_owned())
    );
    assert_eq!(rpc_result("2.0".to_owned(), Some(s("ok")), None).unwrap(), s("ok"));
}

#[test]
fn unknown_status_codes_read_as_unknown() {
    assert_eq!(rpc_http_error(599), ZoteroApiError::BetterBibTeX("HTTP 599 <unknown status code>".to_owned()));
}

#[test]
fn personal_library_is_the_double_slash_root() {
    assert_eq!(CollectionPath::personal_library().as_str(), "//");
}

#[test]
fn bibliography_content_type_defaults_to_text() {
    assert_eq!(BibliographyContentType::default(), BibliographyContentType::Text);
    assert_eq!(BibliographyContentType::Html.as_str(), "html");
}

#[test]
fn bibliography_format_writes_only_the_fields_that_are_set() {
    let format = BibliographyFormat {
        content_type: Some(BibliographyContentType::Html),
        id: Some(CslStyleId::from_str("apa")),
        locale: None,
        quick_copy: Some(false),
    };
    assert_eq!(
        format.to_json(),
        JsonValue::Object(vec![
            ("contentType".to_owned(), s("html")),
            ("id".to_owned(), s("apa")),
            ("quickCopy".to_owned(), JsonValue::Bool(false)),
        ])
    );
    assert_eq!(BibliographyFormat::default().to_json(), JsonValue::Object(vec![]));
    let with_locale = BibliographyFormat { locale: Some(Locale::from_str("en-US")), ..BibliographyFormat::default() };
    assert_eq!(with_locale.to_json(), JsonValue::Object(vec![("locale".to_owned(), s("en-US"))]));
}

#[test]
fn method_parameters_are_positional() {
    let keys = vec![CitationKey::from_str("doe2020")];
    assert_eq!(citekeys_params(&[ItemKey::from_str("ABC12345")]), vec![JsonValue::Array(vec![s("ABC12345")])]);
    assert_eq!(
        export_params(&keys, &TranslatorName::from_str("Better BibTeX")),
        vec![JsonValue::Array(vec![s("doe2020")]), s("Better BibTeX")]
    );
    assert_eq!(bibliography_params(&keys, None), vec![JsonValue::Array(vec![s("doe2020")])]);
    assert_eq!(bibliography_params(&keys, Some(&BibliographyFormat::default())).len(), 2);
    assert_eq!(regenerate_keys_params(&keys), vec![JsonValue::Array(vec![s("doe2020")])]);
    assert_eq!(
        scan_aux_params(&CollectionPath::from_str("//"), &AuxFilePath::from_str("/tex/main.aux")),
        vec![s("//"), s("/tex/main.aux")]
    );
    assert_eq!(search_params(&SearchQuery::from_str("rust")), vec![s("rust")]);
    assert_eq!(pandoc_filter_params(&keys, true), vec![JsonValue::Array(vec![s("doe2020")]), JsonValue::Bool(true)]);
}

#[test]
fn autoexport_writes_empty_options_when_only_replace_is_set() {
    let base = AutoExportAddRequest {
        collection: CollectionPath::personal_library(),
        translator: TranslatorName::from_str("Better BibTeX"),
        path: ExportFilePath::from_str("/out/lib.bib"),
        display_options: None,
        replace: None,
    };
    assert_eq!(autoexport_params(&base), vec![s("//"), s("Better BibTeX"), s("/out/lib.bib")]);

    let replace_only = AutoExportAddRequest { replace: Some(true), ..base.clone() };
    assert_eq!(
        autoexport_params(&replace_only),
        vec![s("//"), s("Better BibTeX"), s("/out/lib.bib"), JsonValue::Object(vec![]), JsonValue::Bool(true)]
    );

    let with_options =
        AutoExportAddRequest { display_options: Some(vec![("useJournalAbbreviation".to_owned(), true)]), ..base };
    assert_eq!(
        autoexport_params(&with_options),
        vec![
            s("//"),
            s("Better BibTeX"),
            s("/out/lib.bib"),
            JsonValue::Object(vec![("useJournalAbbreviation".to_owned(), JsonValue::Bool(true))]),
        ]
    );
}

#[test]
fn client_defaults_to_the_local_plugin() {
    assert_eq!(BetterBibtexClient::default().base_url(), "http://127.0.0.1:23119/better-bibtex");
    assert_eq!(BetterBibtexClient::new(String::new()).base_url(), "http://127.0.0.1:23119/better-bibtex");
    assert_eq!(BetterBibtexClient::new("http://h/bbt//".to_owned()).rpc_url(), "http://h/bbt/json-rpc");
}

#[test]
fn citation_key_lookup_reports_items_without_one() {
    let map = vec![
        (ItemKey::from_str("AAAAAAAA"), Some(CitationKey::from_str("doe2020"))),
        (ItemKey::from_str("BBBBBBBB"), None),
    ];
    assert_eq!(citekey_for_item(&map, &ItemKey::from_str("AAAAAAAA")).unwrap().as_str(), "doe2020");
    assert_eq!(
        citekey_for_item(&map, &ItemKey::from_str("BBBBBBBB")).unwrap_err(),
        ZoteroApiError::BetterBibTeX("no citation key for item BBBBBBBB".to_owned())
    );
    assert!(citekey_for_item(&map, &ItemKey::from_str("CCCCCCCC")).is_err());
}
