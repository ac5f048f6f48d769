use zotero::better_notes::NoteExportFormat;
use zotero::metadata::IdentifierKind;
use zotero::search::{JoinMode, SearchField, SearchOperator, SortField, SortOrder};
use zotero::tool_args::{
    coverage_window, search_window, IdentifierKindArg, JoinModeArg, MetadataFormat, NoteExportFormatArg,
    SearchFieldArg, SearchOperatorArg, SortDirectionArg, SortFieldArg,
};

fn field_to_arg(field: SearchField) -> SearchFieldArg {
    match field {
        SearchField::Title => SearchFieldArg::Title,
        SearchField::Creator => SearchFieldArg::Creator,
        SearchField::Date => SearchFieldArg::Date,
        SearchField::Year => SearchFieldArg::Year,
        SearchField::ItemType => SearchFieldArg::ItemType,
        SearchField::Tag => SearchFieldArg::Tag,
        SearchField::Extra => SearchFieldArg::Extra,
        SearchField::Doi => SearchFieldArg::Doi,
        SearchField::Other(s) => SearchFieldArg::Other(s),
    }
}

fn operator_to_arg(op: SearchOperator) -> SearchOperatorArg {
    match op {
        SearchOperator::Contains => SearchOperatorArg::Contains,
        SearchOperator::Is => SearchOperatorArg::Is,
        SearchOperator::StartsWith => SearchOperatorArg::StartsWith,
        SearchOperator::EndsWith => SearchOperatorArg::EndsWith,
        SearchOperator::IsNot => SearchOperatorArg::IsNot,
        SearchOperator::DoesNotContain => SearchOperatorArg::DoesNotContain,
        SearchOperator::IsGreaterThan => SearchOperatorArg::IsGreaterThan,
        SearchOperator::IsLessThan => SearchOperatorArg::IsLessThan,
        SearchOperator::IsBefore => SearchOperatorArg::IsBefore,
        SearchOperator::IsAfter => SearchOperatorArg::IsAfter,
        SearchOperator::Other(s) => SearchOperatorArg::Other(s),
    }
}

fn join_to_arg(mode: JoinMode) -> JoinModeArg {
    match mode {
        JoinMode::All => JoinModeArg::All,
        JoinMode::Any => JoinModeArg::Any,
    }
}

fn sort_field_to_arg(field: SortField) -> SortFieldArg {
    match field {
        SortField::DateAdded => SortFieldArg::DateAdded,
        SortField::DateModified => SortFieldArg::DateModified,
        SortField::Title => SortFieldArg::Title,
        SortField::Date => SortFieldArg::Date,
        SortField::Creator => SortFieldArg::Creator,
    }
}

fn sort_direction_to_arg(dir: SortOrder) -> SortDirectionArg {
    match dir {
        SortOrder::Asc => SortDirectionArg::Asc,
        SortOrder::Desc => SortDirectionArg::Desc,
    }
}

fn note_format_to_arg(format: NoteExportFormat) -> NoteExportFormatArg {
    match format {
        NoteExportFormat::Markdown => NoteExportFormatArg::Markdown,
        NoteExportFormat::Html => NoteExportFormatArg::Html,
    }
}

fn identifier_kind_to_arg(kind: IdentifierKind) -> IdentifierKindArg {
    match kind {
        IdentifierKind::Doi => IdentifierKindArg::Doi,
        IdentifierKind::Arxiv => IdentifierKindArg::Arxiv,
        IdentifierKind::Isbn => IdentifierKindArg::Isbn,
    }
}

#[test]
fn search_field_arg_covers_every_search_field_variant() {
    let _ = field_to_arg;
}

#[test]
fn search_operator_arg_covers_every_search_operator_variant() {
    let _ = operator_to_arg;
}

#[test]
fn join_mode_arg_covers_every_join_mode_variant() {
    let _ = join_to_arg;
}

#[test]
fn sort_field_arg_covers_every_sort_field_variant() {
    let _ = sort_field_to_arg;
}

#[test]
fn sort_direction_arg_covers_every_sort_direction_variant() {
    let _ = sort_direction_to_arg;
}

#[test]
fn note_export_format_arg_covers_every_variant() {
    let _ = note_format_to_arg;
}

#[test]
fn identifier_kind_arg_covers_every_variant() {
    let _ = identifier_kind_to_arg;
}

#[test]
fn argument_forms_convert_back_to_the_same_variant() {
    for field in [
        SearchField::Title,
        SearchField::Creator,
        SearchField::Date,
        SearchField::Year,
        SearchField::ItemType,
        SearchField::Tag,
        SearchField::Extra,
        SearchField::Doi,
        SearchField::Other("publisher".to_owned()),
    ] {
        assert_eq!(SearchField::from(field_to_arg(field.clone())), field);
    }
    for op in [
        SearchOperator::Contains,
        SearchOperator::Is,
        SearchOperator::StartsWith,
        SearchOperator::EndsWith,
        SearchOperator::IsNot,
        SearchOperator::DoesNotContain,
        SearchOperator::IsGreaterThan,
        SearchOperator::IsLessThan,
        SearchOperator::IsBefore,
        SearchOperator::IsAfter,
        SearchOperator::Other("near".to_owned()),
    ] {
        assert_eq!(SearchOperator::from(operator_to_arg(op.clone())), op);
    }
    for mode in [JoinMode::All, JoinMode::Any] {
        assert_eq!(JoinMode::from(join_to_arg(mode)), mode);
    }
    for field in [SortField::DateAdded, SortField::DateModified, SortField::Title, SortField::Date, SortField::Creator] {
        assert_eq!(SortField::from(sort_field_to_arg(field)), field);
    }
    for dir in [SortOrder::Asc, SortOrder::Desc] {
        assert_eq!(SortOrder::from(sort_direction_to_arg(dir)), dir);
    }
    for format in [NoteExportFormat::Markdown, NoteExportFormat::Html] {
        assert_eq!(NoteExportFormat::from(note_format_to_arg(format)), format);
    }
    for kind in [IdentifierKind::Doi, IdentifierKind::Arxiv, IdentifierKind::Isbn] {
        assert_eq!(IdentifierKind::from(identifier_kind_to_arg(kind)), kind);
    }
}

#[test]
fn metadata_format_defaults_to_json() {
    assert_eq!(MetadataFormat::default(), MetadataFormat::Json);
}

#[test]
fn search_window_defaults_to_first_twenty() {
    assert_eq!(search_window(None, None), (0, 20));
    assert_eq!(search_window(Some(40), Some(5)), (40, 5));
}

#[test]
fn coverage_window_defaults_to_one_hundred_and_caps_at_five_hundred() {
    assert_eq!(coverage_window(None, None), (0, 100));
    assert_eq!(coverage_window(Some(10), Some(250)), (10, 250));
    assert_eq!(coverage_window(None, Some(5000)), (0, 500));
}
