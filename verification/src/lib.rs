//! Verified core of a Zotero library toolkit: the data model of Zotero items,
//! the rules that search, group, export and index them, and the policies that
//! guard file access, all specified and proved with Verus.
pub mod text;
pub mod keys;
pub mod json;
pub mod types;
pub mod objects;
pub mod bibtex;
pub mod errors;
pub mod paths;
pub mod security;
pub mod search;
pub mod client;
pub mod encoding;
pub mod analysis;
pub mod tool_args;
pub mod chunking;
pub mod relations;
pub mod tags;
pub mod notes;
pub mod sqlite;
pub mod items;
pub mod metadata;
pub mod status;
pub mod better_bibtex;
pub mod better_notes;
pub mod collections;
pub mod library;
pub mod semantic;
pub mod pdf_paths;
pub mod catalog;
