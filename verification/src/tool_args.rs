//! The argument forms of the enumerations that the server's tools take,
//! one variant for each of the library's, and their conversions.
use vstd::prelude::*;
use crate::better_notes::NoteExportFormat;
use crate::metadata::IdentifierKind;
use crate::search::{JoinMode, SearchCondition, SearchField, SearchOperator, SortField, SortOrder};

verus! {

/// A searchable field, as a tool argument.
#[derive(Clone, Debug, PartialEq, Eq)]
pub enum SearchFieldArg {
    Title,
    Creator,
    Date,
    Year,
    ItemType,
    Tag,
    Extra,
    Doi,
    Other(String),
}

impl From<SearchFieldArg> for SearchField {
    fn from(value: SearchFieldArg) -> (r: Self) {
        match value {
            SearchFieldArg::Title => SearchField::Title,
            SearchFieldArg::Creator => SearchField::Creator,
            SearchFieldArg::Date => SearchField::Date,
            SearchFieldArg::Year => SearchField::Year,
            SearchFieldArg::ItemType => SearchField::ItemType,
            SearchFieldArg::Tag => SearchField::Tag,
            SearchFieldArg::Extra => SearchField::Extra,
            SearchFieldArg::Doi => SearchField::Doi,
            SearchFieldArg::Other(s) => SearchField::Other(s),
        }
    }
}

impl vstd::std_specs::convert::FromSpecImpl<SearchFieldArg> for SearchField {
    open spec fn obeys_from_spec() -> bool {
        true
    }

    open spec fn from_spec(value: SearchFieldArg) -> Self {
        match value {
            SearchFieldArg::Title => SearchField::Title,
            SearchFieldArg::Creator => SearchField::Creator,
            SearchFieldArg::Date => SearchField::Date,
            SearchFieldArg::Year => SearchField::Year,
            SearchFieldArg::ItemType => SearchField::ItemType,
            SearchFieldArg::Tag => SearchField::Tag,
            SearchFieldArg::Extra => SearchField::Extra,
            SearchFieldArg::Doi => SearchField::Doi,
            SearchFieldArg::Other(s) => SearchField::Other(s),
        }
    }
}

/// A comparison, as a tool argument.
#[derive(Clone, Debug, PartialEq, Eq)]
pub enum SearchOperatorArg {
    Contains,
    Is,
    StartsWith,
    EndsWith,
    IsNot,
    DoesNotContain,
    IsGreaterThan,
    IsLessThan,
    IsBefore,
    IsAfter,
    Other(String),
}

impl From<SearchOperatorArg> for SearchOperator {
    fn from(value: SearchOperatorArg) -> (r: Self) {
        match value {
            SearchOperatorArg::Contains => SearchOperator::Contains,
            SearchOperatorArg::Is => SearchOperator::Is,
            SearchOperatorArg::StartsWith => SearchOperator::StartsWith,
            SearchOperatorArg::EndsWith => SearchOperator::EndsWith,
            SearchOperatorArg::IsNot => SearchOperator::IsNot,
            SearchOperatorArg::DoesNotContain => SearchOperator::DoesNotContain,
            SearchOperatorArg::IsGreaterThan => SearchOperator::IsGreaterThan,
            SearchOperatorArg::IsLessThan => SearchOperator::IsLessThan,
            SearchOperatorArg::IsBefore => SearchOperator::IsBefore,
            SearchOperatorArg::IsAfter => SearchOperator::IsAfter,
            SearchOperatorArg::Other(s) => SearchOperator::Other(s),
        }
    }
}

impl vstd::std_specs::convert::FromSpecImpl<SearchOperatorArg> for SearchOperator {
    open spec fn obeys_from_spec() -> bool {
        true
    }

    open spec fn from_spec(value: SearchOperatorArg) -> Self {
        match value {
            SearchOperatorArg::Contains => SearchOperator::Contains,
            SearchOperatorArg::Is => SearchOperator::Is,
            SearchOperatorArg::StartsWith => SearchOperator::StartsWith,
            SearchOperatorArg::EndsWith => SearchOperator::EndsWith,
            SearchOperatorArg::IsNot => SearchOperator::IsNot,
            SearchOperatorArg::DoesNotContain => SearchOperator::DoesNotContain,
            SearchOperatorArg::IsGreaterThan => SearchOperator::IsGreaterThan,
            SearchOperatorArg::IsLessThan => SearchOperator::IsLessThan,
            SearchOperatorArg::IsBefore => SearchOperator::IsBefore,
            SearchOperatorArg::IsAfter => SearchOperator::IsAfter,
            SearchOperatorArg::Other(s) => SearchOperator::Other(s),
        }
    }
}

impl Default for SearchOperatorArg {
    fn default() -> (r: Self)
        ensures
            r is Contains,
    {
        SearchOperatorArg::Contains
    }
}

/// How conditions combine, as a tool argument.
#[derive(Clone, Copy, Debug, PartialEq, Eq)]
pub enum JoinModeArg {
    All,
    Any,
}

impl From<JoinModeArg> for JoinMode {
    fn from(value: JoinModeArg) -> (r: Self) {
        match value {
            JoinModeArg::All => JoinMode::All,
            JoinModeArg::Any => JoinMode::Any,
        }
    }
}

impl vstd::std_specs::convert::FromSpecImpl<JoinModeArg> for JoinMode {
    open spec fn obeys_from_spec() -> bool {
        true
    }

    open spec fn from_spec(value: JoinModeArg) -> Self {
        match value {
            JoinModeArg::All => JoinMode::All,
            JoinModeArg::Any => JoinMode::Any,
        }
    }
}

impl Default for JoinModeArg {
    fn default() -> (r: Self)
        ensures
            r is All,
    {
        JoinModeArg::All
    }
}

/// A sort field, as a tool argument.
#[derive(Clone, Copy, Debug, PartialEq, Eq)]
pub enum SortFieldArg {
    DateAdded,
    DateModified,
    Title,
    Date,
    Creator,
}

impl From<SortFieldArg> for SortField {
    fn from(value: SortFieldArg) -> (r: Self) {
        match value {
            SortFieldArg::DateAdded => SortField::DateAdded,
            SortFieldArg::DateModified => SortField::DateModified,
            SortFieldArg::Title => SortField::Title,
            SortFieldArg::Date => SortField::Date,
            SortFieldArg::Creator => SortField::Creator,
        }
    }
}

impl vstd::std_specs::convert::FromSpecImpl<SortFieldArg> for SortField {
    open spec fn obeys_from_spec() -> bool {
        true
    }

    open spec fn from_spec(value: SortFieldArg) -> Self {
        match value {
            SortFieldArg::DateAdded => SortField::DateAdded,
            SortFieldArg::DateModified => SortField::DateModified,
            SortFieldArg::Title => SortField::Title,
            SortFieldArg::Date => SortField::Date,
            SortFieldArg::Creator => SortField::Creator,
        }
    }
}

/// A sort direction, as a tool argument.
#[derive(Clone, Copy, Debug, PartialEq, Eq)]
pub enum SortDirectionArg {
    Asc,
    Desc,
}

impl From<SortDirectionArg> for SortOrder {
    fn from(value: SortDirectionArg) -> (r: Self) {
        match value {
            SortDirectionArg::Asc => SortOrder::Asc,
            SortDirectionArg::Desc => SortOrder::Desc,
        }
    }
}

impl vstd::std_specs::convert::FromSpecImpl<SortDirectionArg> for SortOrder {
    open spec fn obeys_from_spec() -> bool {
        true
    }

    open spec fn from_spec(value: SortDirectionArg) -> Self {
        match value {
            SortDirectionArg::Asc => SortOrder::Asc,
            SortDirectionArg::Desc => SortOrder::Desc,
        }
    }
}

impl Default for SortDirectionArg {
    fn default() -> (r: Self)
        ensures
            r is Asc,
    {
        SortDirectionArg::Asc
    }
}

/// A search condition, as a tool argument.
#[derive(Clone, Debug)]
pub struct SearchConditionArg {
    pub field: SearchFieldArg,
    pub operator: SearchOperatorArg,
    pub value: String,
}

impl From<SearchConditionArg> for SearchCondition {
    fn from(value: SearchConditionArg) -> (r: Self) {
        SearchCondition {
            field: SearchField::from(value.field),
            operator: SearchOperator::from(value.operator),
            value: value.value,
        }
    }
}

impl vstd::std_specs::convert::FromSpecImpl<SearchConditionArg> for SearchCondition {
    open spec fn obeys_from_spec() -> bool {
        true
    }

    open spec fn from_spec(value: SearchConditionArg) -> Self {
        SearchCondition {
            field: <SearchField as vstd::std_specs::convert::FromSpec<SearchFieldArg>>::from_spec(value.field),
            operator: <SearchOperator as vstd::std_specs::convert::FromSpec<SearchOperatorArg>>::from_spec(value.operator),
            value: value.value,
        }
    }
}

/// An export format of Better Notes, as a tool argument.
#[derive(Copy, Clone, Debug, PartialEq, Eq)]
pub enum NoteExportFormatArg {
    Markdown,
    Html,
}

impl From<NoteExportFormatArg> for NoteExportFormat {
    fn from(value: NoteExportFormatArg) -> (r: Self) {
        match value {
            NoteExportFormatArg::Markdown => NoteExportFormat::Markdown,
            NoteExportFormatArg::Html => NoteExportFormat::Html,
        }
    }
}

impl vstd::std_specs::convert::FromSpecImpl<NoteExportFormatArg> for NoteExportFormat {
    open spec fn obeys_from_spec() -> bool {
        true
    }

    open spec fn from_spec(value: NoteExportFormatArg) -> Self {
        match value {
            NoteExportFormatArg::Markdown => NoteExportFormat::Markdown,
            NoteExportFormatArg::Html => NoteExportFormat::Html,
        }
    }
}

/// A kind of identifier, as a tool argument.
#[derive(Copy, Clone, Debug, PartialEq, Eq)]
pub enum IdentifierKindArg {
    Doi,
    Arxiv,
    Isbn,
}

impl From<IdentifierKindArg> for IdentifierKind {
    fn from(value: IdentifierKindArg) -> (r: Self) {
        match value {
            IdentifierKindArg::Doi => IdentifierKind::Doi,
            IdentifierKindArg::Arxiv => IdentifierKind::Arxiv,
            IdentifierKindArg::Isbn => IdentifierKind::Isbn,
        }
    }
}

impl vstd::std_specs::convert::FromSpecImpl<IdentifierKindArg> for IdentifierKind {
    open spec fn obeys_from_spec() -> bool {
        true
    }

    open spec fn from_spec(value: IdentifierKindArg) -> Self {
        match value {
            IdentifierKindArg::Doi => IdentifierKind::Doi,
            IdentifierKindArg::Arxiv => IdentifierKind::Arxiv,
            IdentifierKindArg::Isbn => IdentifierKind::Isbn,
        }
    }
}

/// The form in which item metadata is returned.
#[derive(Copy, Clone, Debug, PartialEq, Eq)]
pub enum MetadataFormat {
    /// The item as Zotero's JSON.
    Json,
    /// The item as exported by Better BibTeX.
    Bibtex,
}

impl Default for MetadataFormat {
    fn default() -> (r: Self)
        ensures
            r == MetadataFormat::Json,
    {
        MetadataFormat::Json
    }
}

/// The offset and size of a page of search results that a tool asks for:
/// from the start and 20 items where nothing is given.
pub fn search_window(start: Option<usize>, limit: Option<usize>) -> (r: (usize, usize))
    ensures
        r.0 == match start {
            Some(s) => s,
            None => 0,
        },
        r.1 == match limit {
            Some(l) => l,
            None => 20,
        },
{
    let offset = match start {
        Some(s) => s,
        None => 0,
    };
    let size = match limit {
        Some(l) => l,
        None => 20,
    };
    (offset, size)
}

/// The offset and size of the items a coverage report analyses: from the
/// start and 100 items where nothing is given, and never more than 500.
pub fn coverage_window(start: Option<usize>, limit: Option<usize>) -> (r: (usize, usize))
    ensures
        r.0 == match start {
            Some(s) => s,
            None => 0,
        },
        r.1 == match limit {
            Some(l) => if l < 500 {
                l
            } else {
                500
            },
            None => 100,
        },
{
    let offset = match start {
        Some(s) => s,
        None => 0,
    };
    let size = match limit {
        Some(l) => if l < 500 {
            l
        } else {
            500
        },
        None => 100,
    };
    (offset, size)
}

} // verus!
