//! Strongly typed identifiers for Zotero objects.
//!
//! Item and collection keys are 8-character keys that are structurally alike
//! but kept apart by type; tag names and citation keys wrap plain strings for
//! the same reason. [`LibraryVersion`] is the counter used for optimistic
//! concurrency control.
use vstd::prelude::*;
use core::cmp::Ordering;
use crate::text::{decimal, decimal_string};

verus! {

/// A key that identifies a Zotero item within a library.
#[derive(Clone, Debug, PartialEq, Eq, PartialOrd, Ord, Hash)]
pub struct ItemKey(String);

impl View for ItemKey {
    type V = Seq<char>;

    closed spec fn view(&self) -> Seq<char> {
        self.0@
    }
}

impl ItemKey {
    /// Wraps a string.
    pub fn new(value: String) -> (r: Self)
        ensures
            r@ == value@,
    {
        ItemKey(value)
    }

    /// Wraps a copy of a string slice.
    pub fn from_str(value: &str) -> (r: Self)
        ensures
            r@ == value@,
    {
        ItemKey(value.to_owned())
    }

    /// Borrows the inner string.
    pub fn as_str(&self) -> (r: &str)
        ensures
            r@ == self@,
    {
        self.0.as_str()
    }
}

/// A key that identifies a Zotero collection within a library.
#[derive(Clone, Debug, PartialEq, Eq, PartialOrd, Ord, Hash)]
pub struct CollectionKey(String);

impl View for CollectionKey {
    type V = Seq<char>;

    closed spec fn view(&self) -> Seq<char> {
        self.0@
    }
}

impl CollectionKey {
    /// Wraps a string.
    pub fn new(value: String) -> (r: Self)
        ensures
            r@ == value@,
    {
        CollectionKey(value)
    }

    /// Wraps a copy of a string slice.
    pub fn from_str(value: &str) -> (r: Self)
        ensures
            r@ == value@,
    {
        CollectionKey(value.to_owned())
    }

    /// Borrows the inner string.
    pub fn as_str(&self) -> (r: &str)
        ensures
            r@ == self@,
    {
        self.0.as_str()
    }
}

/// A Zotero tag name.
#[derive(Clone, Debug, PartialEq, Eq, PartialOrd, Ord, Hash)]
pub struct TagName(String);

impl View for TagName {
    type V = Seq<char>;

    closed spec fn view(&self) -> Seq<char> {
        self.0@
    }
}

impl TagName {
    /// Wraps a string.
    pub fn new(value: String) -> (r: Self)
        ensures
            r@ == value@,
    {
        TagName(value)
    }

    /// Wraps a copy of a string slice.
    pub fn from_str(value: &str) -> (r: Self)
        ensures
            r@ == value@,
    {
        TagName(value.to_owned())
    }

    /// Borrows the inner string.
    pub fn as_str(&self) -> (r: &str)
        ensures
            r@ == self@,
    {
        self.0.as_str()
    }
}

/// A citation key such as `smith2020deep`.
#[derive(Clone, Debug, PartialEq, Eq, PartialOrd, Ord, Hash)]
pub struct CitationKey(String);

impl View for CitationKey {
    type V = Seq<char>;

    closed spec fn view(&self) -> Seq<char> {
        self.0@
    }
}

impl CitationKey {
    /// Wraps a string.
    pub fn new(value: String) -> (r: Self)
        ensures
            r@ == value@,
    {
        CitationKey(value)
    }

    /// Wraps a copy of a string slice.
    pub fn from_str(value: &str) -> (r: Self)
        ensures
            r@ == value@,
    {
        CitationKey(value.to_owned())
    }

    /// Borrows the inner string.
    pub fn as_str(&self) -> (r: &str)
        ensures
            r@ == self@,
    {
        self.0.as_str()
    }
}

/// A monotonically increasing library version counter, sent in the
/// `If-Unmodified-Since-Version` header of writes.
#[derive(Copy, Clone, Debug, Default, PartialEq, Eq, Ord, Hash)]
pub struct LibraryVersion(u64);

impl View for LibraryVersion {
    type V = u64;

    closed spec fn view(&self) -> u64 {
        self.0
    }
}

impl LibraryVersion {
    /// Wraps a raw version counter.
    pub fn new(value: u64) -> (r: Self)
        ensures
            r@ == value,
    {
        LibraryVersion(value)
    }

    /// The raw version counter.
    pub fn as_u64(&self) -> (r: u64)
        ensures
            r == self@,
    {
        self.0
    }

    /// The decimal text of the counter, as the
    /// `If-Unmodified-Since-Version` header carries it.
    pub fn to_string(&self) -> (r: String)
        ensures
            r@ == decimal(self@ as nat),
    {
        decimal_string(self.0)
    }
}

impl core::ops::Deref for LibraryVersion {
    type Target = u64;

    /// The raw version counter.
    fn deref(&self) -> (r: &u64)
        ensures
            *r == self@,
    {
        &self.0
    }
}

impl From<u64> for LibraryVersion {
    /// Wraps a raw version counter.
    fn from(value: u64) -> (r: Self)
        ensures
            r@ == value,
    {
        LibraryVersion(value)
    }
}

impl vstd::std_specs::convert::FromSpecImpl<u64> for LibraryVersion {
    open spec fn obeys_from_spec() -> bool {
        true
    }

    closed spec fn from_spec(value: u64) -> Self {
        LibraryVersion(value)
    }
}

impl From<LibraryVersion> for u64 {
    /// The raw version counter.
    fn from(value: LibraryVersion) -> (r: u64) {
        value.0
    }
}

impl vstd::std_specs::convert::FromSpecImpl<LibraryVersion> for u64 {
    open spec fn obeys_from_spec() -> bool {
        true
    }

    open spec fn from_spec(value: LibraryVersion) -> u64 {
        value@
    }
}

impl PartialOrd for LibraryVersion {
    /// Versions are ordered as their counters.
    fn partial_cmp(&self, other: &Self) -> (r: Option<Ordering>) {
        if self.0 < other.0 {
            Some(Ordering::Less)
        } else if self.0 == other.0 {
            Some(Ordering::Equal)
        } else {
            Some(Ordering::Greater)
        }
    }
}

impl vstd::std_specs::cmp::PartialOrdSpecImpl for LibraryVersion {
    open spec fn obeys_partial_cmp_spec() -> bool {
        true
    }

    open spec fn partial_cmp_spec(&self, other: &Self) -> Option<Ordering> {
        if self@ < other@ {
            Some(Ordering::Less)
        } else if self@ == other@ {
            Some(Ordering::Equal)
        } else {
            Some(Ordering::Greater)
        }
    }
}

} // verus!
