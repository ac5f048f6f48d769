//! Structured search: conditions over item fields, their client-side
//! evaluation, pagination of matches and result ordering.
use vstd::prelude::*;
use crate::client::{
    add_pagination, add_pagination_spec, fresh_request, pairs_view, target_prefix_spec, trim_end_slashes,
    trim_slashes, ApiRequest, HttpMethod, ZoteroClient, ZoteroResponse,
};
use crate::encoding::{encode_component, url_encode};
use crate::objects::{opt_view, ZoteroCreator, ZoteroItem, ZoteroItemData};
use crate::text::{
    decimal, decimal_string, join, join_strings,
    chars_of, contains, contains_exec, ends_with, ends_with_exec, parse_unsigned,
    parse_unsigned_exec, push_char, push_str, starts_with, starts_with_exec, str_eq, string_of,
    to_lowercase, unicode_lowercase, views,
};
use crate::types::ItemType;
use std::cmp::Ordering;

verus! {

/// Quick search modes of the Local API.
#[derive(Debug, Clone, Copy, PartialEq, Eq)]
pub enum QuickSearchMode {
    /// Title, creator and year fields.
    TitleCreatorYear,
    /// All fields, full text included.
    Everything,
}

/// Sort direction of a Local API query.
#[derive(Debug, Clone, Copy, PartialEq, Eq)]
pub enum SortDirection {
    Asc,
    Desc,
}

/// Item field that a structured search condition looks at.
#[derive(Clone, Debug, Eq, PartialEq)]
pub enum SearchField {
    Title,
    Creator,
    Date,
    Year,
    ItemType,
    Tag,
    Extra,
    Doi,
    /// Any other field name.
    Other(String),
}

/// Comparison of a structured search condition.
#[derive(Clone, Debug, Eq, PartialEq)]
pub enum SearchOperator {
    Contains,
    Is,
    StartsWith,
    EndsWith,
    IsNot,
    DoesNotContain,
    IsGreaterThan,
    IsLessThan,
    IsBefore,
    IsAfter,
    /// Any other operator name; compares as `Contains`.
    Other(String),
}

/// A structured search condition on one item field.
#[derive(Clone, Debug)]
pub struct SearchCondition {
    pub field: SearchField,
    pub operator: SearchOperator,
    pub value: String,
}

/// How the conditions of a structured search combine.
#[derive(Copy, Clone, Debug, Eq, PartialEq)]
pub enum JoinMode {
    /// Every condition must hold.
    All,
    /// At least one condition must hold.
    Any,
}

/// Item field that orders search results.
#[derive(Copy, Clone, Debug, Eq, PartialEq)]
pub enum SortField {
    DateAdded,
    DateModified,
    Title,
    Date,
    Creator,
}

/// Direction in which search results are ordered.
#[derive(Copy, Clone, Debug, Eq, PartialEq)]
pub enum SortOrder {
    Asc,
    Desc,
}

impl Default for SearchOperator {
    fn default() -> (r: Self)
        ensures
            r is Contains,
    {
        SearchOperator::Contains
    }
}

impl Default for JoinMode {
    fn default() -> (r: Self)
        ensures
            r is All,
    {
        JoinMode::All
    }
}

impl Default for SortOrder {
    fn default() -> (r: Self)
        ensures
            r is Asc,
    {
        SortOrder::Asc
    }
}

// ---------------------------------------------------------------------------
// Dates

/// The non-empty `-`-separated pieces of `cur + s`, where `cur` is a piece
/// begun before `s`.
pub open spec fn dash_pieces(s: Seq<char>, cur: Seq<char>) -> Seq<Seq<char>>
    decreases s.len(),
{
    if s.len() == 0 {
        if cur.len() > 0 {
            seq![cur]
        } else {
            Seq::empty()
        }
    } else if s[0] == '-' {
        (if cur.len() > 0 {
            seq![cur]
        } else {
            Seq::empty()
        }) + dash_pieces(s.drop_first(), Seq::empty())
    } else {
        dash_pieces(s.drop_first(), cur.push(s[0]))
    }
}

/// The `i`-th numeric component of a date: the `i`-th non-empty piece
/// between dashes read as a `u32`, or 0 where there is none or it does not
/// read as one.
pub open spec fn date_part(s: Seq<char>, i: int) -> nat {
    let pieces = dash_pieces(s, Seq::empty());
    if 0 <= i < pieces.len() {
        match parse_unsigned(pieces[i], u32::MAX as nat) {
            Some(n) => n,
            None => 0,
        }
    } else {
        0
    }
}

/// The year, month and day components by which dates are compared.
pub open spec fn date_key_spec(s: Seq<char>) -> (nat, nat, nat) {
    (date_part(s, 0), date_part(s, 1), date_part(s, 2))
}

/// `a` comes before `b` in lexicographic order.
pub open spec fn key_less(a: (nat, nat, nat), b: (nat, nat, nat)) -> bool {
    ||| a.0 < b.0
    ||| (a.0 == b.0 && a.1 < b.1)
    ||| (a.0 == b.0 && a.1 == b.1 && a.2 < b.2)
}

/// The non-empty pieces of `s` between dashes.
fn dash_pieces_exec(s: &str) -> (r: Vec<String>)
    ensures
        views(r@) == dash_pieces(s@, Seq::empty()),
{
    let cs = chars_of(s);
    let mut out: Vec<String> = Vec::new();
    let mut cur: Vec<char> = Vec::new();
    let mut i: usize = 0;
    assert(cs@.skip(0) == cs@);
    assert(views(out@) =~= Seq::<Seq<char>>::empty());
    while i < cs.len()
        invariant
            i <= cs@.len(),
            cs@ == s@,
            views(out@) + dash_pieces(cs@.skip(i as int), cur@) == dash_pieces(s@, Seq::empty()),
        decreases cs@.len() - i,
    {
        let ghost rest = cs@.skip(i as int);
        assert(rest[0] == cs@[i as int]);
        assert(rest.drop_first() == cs@.skip(i + 1));
        let ghost before = views(out@);
        if cs[i] == '-' {
            if cur.len() > 0 {
                let piece = string_of(cur.as_slice());
                out.push(piece);
                assert(views(out@) == before.push(cur@));
                assert(before + (seq![cur@] + dash_pieces(cs@.skip(i + 1), Seq::empty()))
                    == before.push(cur@) + dash_pieces(cs@.skip(i + 1), Seq::empty()));
            } else {
                assert(Seq::<Seq<char>>::empty() + dash_pieces(cs@.skip(i + 1), Seq::empty())
                    == dash_pieces(cs@.skip(i + 1), Seq::empty()));
            }
            cur = Vec::new();
            assert(cur@ == Seq::<char>::empty());
        } else {
            cur.push(cs[i]);
        }
        i = i + 1;
    }
    assert(cs@.skip(i as int).len() == 0);
    if cur.len() > 0 {
        let ghost before = views(out@);
        out.push(string_of(cur.as_slice()));
        assert(views(out@) == before.push(cur@));
        assert(before + seq![cur@] == before.push(cur@));
    } else {
        assert(views(out@) + Seq::<Seq<char>>::empty() == views(out@));
    }
    out
}

/// The `i`-th numeric date component of `pieces`.
fn date_part_exec(pieces: &Vec<String>, i: usize) -> (n: u32)
    ensures
        n as nat == (if i < pieces@.len() {
            match parse_unsigned(views(pieces@)[i as int], u32::MAX as nat) {
                Some(v) => v,
                None => 0,
            }
        } else {
            0
        }),
{
    if i < pieces.len() {
        match parse_unsigned_exec(pieces[i].as_str(), 0xffff_ffff) {
            Some(v) => v as u32,
            None => 0,
        }
    } else {
        0
    }
}

/// The year, month and day components of a date: the first three non-empty
/// pieces between dashes, each read as a `u32`, 0 where missing or unreadable.
pub fn date_key(s: &str) -> (r: (u32, u32, u32))
    ensures
        (r.0 as nat, r.1 as nat, r.2 as nat) == date_key_spec(s@),
{
    let pieces = dash_pieces_exec(s);
    (date_part_exec(&pieces, 0), date_part_exec(&pieces, 1), date_part_exec(&pieces, 2))
}

/// Compares two dates (or years) by their numeric components.
pub fn compare_dates(a: &str, b: &str) -> (r: Ordering)
    ensures
        (r == Ordering::Less) == key_less(date_key_spec(a@), date_key_spec(b@)),
        (r == Ordering::Greater) == key_less(date_key_spec(b@), date_key_spec(a@)),
{
    let ka = date_key(a);
    let kb = date_key(b);
    if ka.0 < kb.0 || (ka.0 == kb.0 && ka.1 < kb.1) || (ka.0 == kb.0 && ka.1 == kb.1 && ka.2 < kb.2) {
        Ordering::Less
    } else if ka.0 == kb.0 && ka.1 == kb.1 && ka.2 == kb.2 {
        Ordering::Equal
    } else {
        Ordering::Greater
    }
}

/// Position of the first `-` of `s`, or its length without one.
pub open spec fn first_dash(s: Seq<char>) -> nat
    decreases s.len(),
{
    if s.len() == 0 || s[0] == '-' {
        0
    } else {
        1 + first_dash(s.drop_first())
    }
}

/// The year of a date: everything before its first `-`.
pub open spec fn year_part(s: Seq<char>) -> Seq<char> {
    s.take(first_dash(s) as int)
}

proof fn lemma_first_dash(s: Seq<char>, i: int)
    requires
        0 <= i <= s.len(),
        forall|j: int| 0 <= j < i ==> s[j] != '-',
        i == s.len() || s[i] == '-',
    ensures
        first_dash(s) == i,
    decreases s.len(),
{
    if s.len() > 0 && s[0] != '-' {
        assert forall|j: int| 0 <= j < i - 1 implies s.drop_first()[j] != '-' by {
            assert(s.drop_first()[j] == s[j + 1]);
        }
        lemma_first_dash(s.drop_first(), i - 1);
    }
}

/// The year of a date: everything before its first `-`.
pub fn year_of(s: &str) -> (r: String)
    ensures
        r@ == year_part(s@),
{
    let cs = chars_of(s);
    let mut i: usize = 0;
    while i < cs.len() && cs[i] != '-'
        invariant
            i <= cs@.len(),
            forall|j: int| 0 <= j < i ==> cs@[j] != '-',
        decreases cs@.len() - i,
    {
        i = i + 1;
    }
    proof {
        lemma_first_dash(cs@, i as int);
    }
    string_of(&cs.as_slice()[0..i])
}

// ---------------------------------------------------------------------------
// Conditions

/// `s` satisfies `op` against `value`. Text comparisons are made between
/// lowercase forms; the ordering operators compare dates.
pub open spec fn str_matches(op: SearchOperator, value: Seq<char>, s: Seq<char>) -> bool {
    let l = unicode_lowercase(s);
    let v = unicode_lowercase(value);
    match op {
        SearchOperator::Is => l == v,
        SearchOperator::IsNot => l != v,
        SearchOperator::StartsWith => starts_with(l, v),
        SearchOperator::EndsWith => ends_with(l, v),
        SearchOperator::DoesNotContain => !contains(l, v),
        SearchOperator::Contains | SearchOperator::Other(_) => contains(l, v),
        SearchOperator::IsGreaterThan | SearchOperator::IsAfter => key_less(
            date_key_spec(value),
            date_key_spec(s),
        ),
        SearchOperator::IsLessThan | SearchOperator::IsBefore => key_less(
            date_key_spec(s),
            date_key_spec(value),
        ),
    }
}

/// Text comparisons ignore case: with `l` and `w` the lowercase forms of the
/// text and of the value, `Is` holds when they are equal and `IsNot` when
/// they differ, `StartsWith` when `w` is a prefix of `l`, `EndsWith` when
/// `w` is a suffix of `l`, `Contains` when `w` stands somewhere in `l`, and
/// `DoesNotContain` when it stands nowhere in it.
pub proof fn lemma_text_operators(value: Seq<char>, s: Seq<char>)
    ensures
        ({
            let l = unicode_lowercase(s);
            let w = unicode_lowercase(value);
            &&& str_matches(SearchOperator::Is, value, s) <==> l == w
            &&& str_matches(SearchOperator::IsNot, value, s) <==> l != w
            &&& str_matches(SearchOperator::StartsWith, value, s) <==> (w.len() <= l.len()
                && l.subrange(0, w.len() as int) == w)
            &&& str_matches(SearchOperator::EndsWith, value, s) <==> (w.len() <= l.len()
                && l.subrange(l.len() - w.len(), l.len() as int) == w)
            &&& str_matches(SearchOperator::Contains, value, s) <==> (exists|i: int|
                0 <= i && i + w.len() <= l.len() && #[trigger] l.subrange(i, i + w.len()) == w)
            &&& str_matches(SearchOperator::DoesNotContain, value, s) <==> !(exists|i: int|
                0 <= i && i + w.len() <= l.len() && #[trigger] l.subrange(i, i + w.len()) == w)
        }),
{
    let l = unicode_lowercase(s);
    let w = unicode_lowercase(value);
    if contains(l, w) {
        let i = choose|i: int| crate::text::occurs_at(l, w, i);
        assert(0 <= i && i + w.len() <= l.len() && l.subrange(i, i + w.len()) == w);
    }
    if exists|i: int| 0 <= i && i + w.len() <= l.len() && #[trigger] l.subrange(i, i + w.len()) == w {
        let i = choose|i: int| 0 <= i && i + w.len() <= l.len() && #[trigger] l.subrange(i, i + w.len()) == w;
        assert(crate::text::occurs_at(l, w, i));
    }
}

/// Date comparisons: `IsGreaterThan` is `IsAfter` and `IsLessThan` is
/// `IsBefore`; a text is after a value exactly when the value is before the
/// text; no text is both before and after a value, nor after itself; and
/// being after is transitive.
pub proof fn lemma_date_operators(a: Seq<char>, b: Seq<char>, c: Seq<char>)
    ensures
        str_matches(SearchOperator::IsGreaterThan, a, b) == str_matches(SearchOperator::IsAfter, a, b),
        str_matches(SearchOperator::IsLessThan, a, b) == str_matches(SearchOperator::IsBefore, a, b),
        str_matches(SearchOperator::IsAfter, a, b) == str_matches(SearchOperator::IsBefore, b, a),
        !(str_matches(SearchOperator::IsAfter, a, b) && str_matches(SearchOperator::IsBefore, a, b)),
        !str_matches(SearchOperator::IsAfter, a, a),
        str_matches(SearchOperator::IsAfter, a, b) && str_matches(SearchOperator::IsAfter, b, c)
            ==> str_matches(SearchOperator::IsAfter, a, c),
{
}

/// An optional field is present and satisfies the comparison.
pub open spec fn opt_matches(op: SearchOperator, value: Seq<char>, o: Option<String>) -> bool {
    match o {
        Some(s) => str_matches(op, value, s@),
        None => false,
    }
}

/// A creator's full name, first name, a space, last name, satisfies the
/// comparison.
pub open spec fn full_name_matches(op: SearchOperator, value: Seq<char>, c: ZoteroCreator) -> bool {
    match (c.first_name, c.last_name) {
        (Some(f), Some(l)) => str_matches(op, value, f@ + " "@ + l@),
        _ => false,
    }
}

/// A creator matches on its single-field name, first name, last name or
/// full name.
pub open spec fn creator_matches(op: SearchOperator, value: Seq<char>, c: ZoteroCreator) -> bool {
    ||| opt_matches(op, value, c.name)
    ||| opt_matches(op, value, c.first_name)
    ||| opt_matches(op, value, c.last_name)
    ||| full_name_matches(op, value, c)
}

/// An item satisfies the condition `field op value`.
pub open spec fn item_matches(field: SearchField, op: SearchOperator, value: Seq<char>, d: ZoteroItemData) -> bool {
    match field {
        SearchField::Title => opt_matches(op, value, d.title),
        SearchField::Creator => exists|i: int|
            0 <= i < d.creators@.len() && creator_matches(op, value, #[trigger] d.creators@[i]),
        SearchField::Date => opt_matches(op, value, d.date),
        SearchField::Year => match d.date {
            Some(s) => str_matches(op, value, year_part(s@)),
            None => false,
        },
        SearchField::ItemType => str_matches(op, value, d.item_type.wire()),
        SearchField::Tag => exists|i: int|
            0 <= i < d.tags@.len() && str_matches(op, value, (#[trigger] d.tags@[i]).tag@),
        SearchField::Extra => opt_matches(op, value, d.extra),
        SearchField::Doi => opt_matches(op, value, d.doi),
        SearchField::Other(name) => if name@ == "title"@ {
            opt_matches(op, value, d.title)
        } else if name@ == "doi"@ {
            opt_matches(op, value, d.doi)
        } else {
            false
        },
    }
}

/// Each field condition reads its own field: `Title` the title, `Doi` the
/// DOI, `Date` the date and `Extra` the extra field, an item without that
/// field matching no condition on it; `Tag` holds when one of the tags
/// matches; `ItemType` compares the type's wire name.
pub proof fn lemma_fields_read(op: SearchOperator, value: Seq<char>, d: ZoteroItemData)
    ensures
        item_matches(SearchField::Title, op, value, d) <==> (d.title matches Some(t) && str_matches(op, value, t@)),
        item_matches(SearchField::Doi, op, value, d) <==> (d.doi matches Some(t) && str_matches(op, value, t@)),
        item_matches(SearchField::Date, op, value, d) <==> (d.date matches Some(t) && str_matches(op, value, t@)),
        item_matches(SearchField::Extra, op, value, d) <==> (d.extra matches Some(t) && str_matches(op, value, t@)),
        item_matches(SearchField::Tag, op, value, d) <==> (exists|i: int|
            0 <= i < d.tags@.len() && str_matches(op, value, (#[trigger] d.tags@[i]).tag@)),
        item_matches(SearchField::ItemType, op, value, d) <==> str_matches(op, value, d.item_type.wire()),
{
}

/// A search condition prepared once for a client-side scan: it keeps the
/// lowercase form of its value.
pub struct PreparedCondition<'a> {
    field: &'a SearchField,
    operator: &'a SearchOperator,
    value: &'a str,
    value_lc: String,
}

impl<'a> PreparedCondition<'a> {
    #[verifier::type_invariant]
    spec fn lowercase_kept(self) -> bool {
        self.value_lc@ == unicode_lowercase(self.value@)
    }

    /// The field that the condition looks at.
    pub closed spec fn field_spec(self) -> SearchField {
        *self.field
    }

    /// The comparison of the condition.
    pub closed spec fn operator_spec(self) -> SearchOperator {
        *self.operator
    }

    /// The value that the condition compares with.
    pub closed spec fn value_spec(self) -> Seq<char> {
        self.value@
    }

    /// Prepares a condition.
    pub fn from_condition(cond: &'a SearchCondition) -> (r: Self)
        ensures
            r.field_spec() == cond.field,
            r.operator_spec() == cond.operator,
            r.value_spec() == cond.value@,
    {
        PreparedCondition {
            field: &cond.field,
            operator: &cond.operator,
            value: cond.value.as_str(),
            value_lc: to_lowercase(cond.value.as_str()),
        }
    }

    /// Whether the string `s` satisfies the condition's comparison.
    pub fn matches_str(&self, s: &str) -> (b: bool)
        ensures
            b == str_matches(self.operator_spec(), self.value_spec(), s@),
    {
        proof {
            use_type_invariant(self);
        }
        match self.operator {
            SearchOperator::IsGreaterThan | SearchOperator::IsAfter => {
                return match compare_dates(s, self.value) {
                    Ordering::Greater => true,
                    _ => false,
                };
            },
            SearchOperator::IsLessThan | SearchOperator::IsBefore => {
                return match compare_dates(s, self.value) {
                    Ordering::Less => true,
                    _ => false,
                };
            },
            _ => {},
        }
        let l = to_lowercase(s);
        let lc = chars_of(l.as_str());
        let vc = chars_of(self.value_lc.as_str());
        match self.operator {
            SearchOperator::Is => str_eq(l.as_str(), self.value_lc.as_str()),
            SearchOperator::IsNot => !str_eq(l.as_str(), self.value_lc.as_str()),
            SearchOperator::StartsWith => starts_with_exec(lc.as_slice(), vc.as_slice()),
            SearchOperator::EndsWith => ends_with_exec(lc.as_slice(), vc.as_slice()),
            SearchOperator::DoesNotContain => !contains_exec(lc.as_slice(), vc.as_slice()),
            _ => contains_exec(lc.as_slice(), vc.as_slice()),
        }
    }

    fn matches_opt(&self, o: &Option<String>) -> (b: bool)
        ensures
            b == opt_matches(self.operator_spec(), self.value_spec(), *o),
    {
        match o {
            Some(s) => self.matches_str(s.as_str()),
            None => false,
        }
    }

    /// Whether an item satisfies the condition.
    pub fn matches_item(&self, item: &ZoteroItem) -> (b: bool)
        ensures
            b == item_matches(self.field_spec(), self.operator_spec(), self.value_spec(), item.data),
    {
        let d = &item.data;
        match self.field {
            SearchField::Title => self.matches_opt(&d.title),
            SearchField::Creator => {
                let mut i: usize = 0;
                while i < d.creators.len()
                    invariant
                        i <= d.creators@.len(),
                        self.field_spec() is Creator,
                        *d == item.data,
                        forall|j: int|
                            0 <= j < i ==> !creator_matches(
                                self.operator_spec(),
                                self.value_spec(),
                                #[trigger] d.creators@[j],
                            ),
                    decreases d.creators@.len() - i,
                {
                    let c = &d.creators[i];
                    if self.matches_opt(&c.name) || self.matches_opt(&c.first_name)
                        || self.matches_opt(&c.last_name) || matches_creator_full_name(c, self) {
                        assert(creator_matches(self.operator_spec(), self.value_spec(), d.creators@[i as int]));
                        return true;
                    }
                    i = i + 1;
                }
                false
            },
            SearchField::Date => self.matches_opt(&d.date),
            SearchField::Year => match &d.date {
                Some(s) => {
                    let y = year_of(s.as_str());
                    self.matches_str(y.as_str())
                },
                None => false,
            },
            SearchField::ItemType => self.matches_str(d.item_type.as_str()),
            SearchField::Tag => {
                let mut i: usize = 0;
                while i < d.tags.len()
                    invariant
                        i <= d.tags@.len(),
                        self.field_spec() is Tag,
                        *d == item.data,
                        forall|j: int|
                            0 <= j < i ==> !str_matches(
                                self.operator_spec(),
                                self.value_spec(),
                                (#[trigger] d.tags@[j]).tag@,
                            ),
                    decreases d.tags@.len() - i,
                {
                    if self.matches_str(d.tags[i].tag.as_str()) {
                        assert(str_matches(self.operator_spec(), self.value_spec(), d.tags@[i as int].tag@));
                        return true;
                    }
                    i = i + 1;
                }
                false
            },
            SearchField::Extra => self.matches_opt(&d.extra),
            SearchField::Doi => self.matches_opt(&d.doi),
            SearchField::Other(name) => {
                if str_eq(name.as_str(), "title") {
                    self.matches_opt(&d.title)
                } else if str_eq(name.as_str(), "doi") {
                    self.matches_opt(&d.doi)
                } else {
                    false
                }
            },
        }
    }
}

/// Whether the creator's full name, first name, a space and last name,
/// satisfies the condition; false unless both names are present.
pub fn matches_creator_full_name(creator: &ZoteroCreator, cond: &PreparedCondition) -> (b: bool)
    ensures
        b == full_name_matches(cond.operator_spec(), cond.value_spec(), *creator),
{
    match (&creator.first_name, &creator.last_name) {
        (Some(first), Some(last)) => {
            let mut full = first.clone();
            push_char(&mut full, ' ');
            push_str(&mut full, last.as_str());
            assert(full@ == first@ + " "@ + last@) by {
                reveal_strlit(" ");
            }
            cond.matches_str(full.as_str())
        },
        _ => false,
    }
}

/// An item satisfies the conditions under the join mode.
pub open spec fn item_matches_all(conds: Seq<PreparedCondition>, mode: JoinMode, d: ZoteroItemData) -> bool {
    match mode {
        JoinMode::All => forall|i: int|
            0 <= i < conds.len() ==> item_matches(
                (#[trigger] conds[i]).field_spec(),
                conds[i].operator_spec(),
                conds[i].value_spec(),
                d,
            ),
        JoinMode::Any => exists|i: int|
            0 <= i < conds.len() && item_matches(
                (#[trigger] conds[i]).field_spec(),
                conds[i].operator_spec(),
                conds[i].value_spec(),
                d,
            ),
    }
}

/// The join modes: with no conditions every item satisfies `All` and none
/// satisfies `Any`; with one condition both modes mean that condition; and
/// an item that satisfies all of several conditions satisfies one of them.
pub proof fn lemma_join_modes(conds: Seq<PreparedCondition>, d: ZoteroItemData)
    ensures
        conds.len() == 0 ==> item_matches_all(conds, JoinMode::All, d),
        conds.len() == 0 ==> !item_matches_all(conds, JoinMode::Any, d),
        conds.len() == 1 ==> (item_matches_all(conds, JoinMode::All, d) == item_matches(
            conds[0].field_spec(),
            conds[0].operator_spec(),
            conds[0].value_spec(),
            d,
        )),
        conds.len() == 1 ==> (item_matches_all(conds, JoinMode::Any, d) == item_matches(
            conds[0].field_spec(),
            conds[0].operator_spec(),
            conds[0].value_spec(),
            d,
        )),
        conds.len() > 0 && item_matches_all(conds, JoinMode::All, d) ==> item_matches_all(conds, JoinMode::Any, d),
{
    if conds.len() > 0 && item_matches_all(conds, JoinMode::All, d) {
        assert(item_matches(conds[0].field_spec(), conds[0].operator_spec(), conds[0].value_spec(), d));
    }
}

/// Whether an item satisfies all (or any) of the conditions.
pub fn item_matches_conditions(item: &ZoteroItem, conditions: &[PreparedCondition], join_mode: JoinMode) -> (b: bool)
    ensures
        b == item_matches_all(conditions@, join_mode, item.data),
{
    let mut i: usize = 0;
    while i < conditions.len()
        invariant
            i <= conditions@.len(),
            join_mode is All ==> forall|j: int|
                0 <= j < i ==> item_matches(
                    (#[trigger] conditions@[j]).field_spec(),
                    conditions@[j].operator_spec(),
                    conditions@[j].value_spec(),
                    item.data,
                ),
            join_mode is Any ==> forall|j: int|
                0 <= j < i ==> !item_matches(
                    (#[trigger] conditions@[j]).field_spec(),
                    conditions@[j].operator_spec(),
                    conditions@[j].value_spec(),
                    item.data,
                ),
        decreases conditions@.len() - i,
    {
        let m = conditions[i].matches_item(item);
        match join_mode {
            JoinMode::All => {
                if !m {
                    return false;
                }
            },
            JoinMode::Any => {
                if m {
                    return true;
                }
            },
        }
        i = i + 1;
    }
    match join_mode {
        JoinMode::All => true,
        JoinMode::Any => false,
    }
}

// ---------------------------------------------------------------------------
// Pages

/// Pagination metadata of a result page.
#[derive(Clone, Copy, Debug, PartialEq, Eq)]
pub struct PaginationInfo {
    pub limit: usize,
    pub offset: usize,
    pub total: usize,
    pub has_more: bool,
}

/// One page of results with its pagination metadata.
#[derive(Clone, Debug)]
pub struct SearchPage<T> {
    pub items: Vec<T>,
    pub pagination: PaginationInfo,
}

pub open spec fn min_nat(a: int, b: int) -> int {
    if a < b {
        a
    } else {
        b
    }
}

/// The page of `results` that starts at `offset` (clamped to the number of
/// results) and holds at most `limit` of them.
pub open spec fn paginate_spec<T>(results: Seq<T>, offset: usize, limit: usize) -> (Seq<T>, PaginationInfo) {
    let total = results.len() as int;
    let skip = min_nat(offset as int, total);
    (
        results.subrange(skip, min_nat(skip + limit, total)),
        PaginationInfo {
            limit,
            offset: skip as usize,
            total: total as usize,
            has_more: skip + limit < total,
        },
    )
}

/// Slices `results` at `offset` and `limit`.
pub fn paginate<T>(results: Vec<T>, offset: usize, limit: usize) -> (r: SearchPage<T>)
    ensures
        (r.items@, r.pagination) == paginate_spec(results@, offset, limit),
{
    let total = results.len();
    let skip = if offset < total {
        offset
    } else {
        total
    };
    let end = if limit < total - skip {
        skip + limit
    } else {
        total
    };
    let ghost src = results@;
    let mut items: Vec<T> = Vec::new();
    let mut rest = results;
    let mut i: usize = 0;
    while i < skip
        invariant
            i <= skip <= total,
            total == src.len(),
            rest@ == src.skip(i as int),
        decreases skip - i,
    {
        let _ = rest.remove(0);
        i = i + 1;
        assert(rest@ == src.skip(i as int));
    }
    while i < end
        invariant
            skip <= i <= end <= total,
            total == src.len(),
            rest@ == src.skip(i as int),
            items@ == src.subrange(skip as int, i as int),
        decreases end - i,
    {
        let x = rest.remove(0);
        items.push(x);
        i = i + 1;
        assert(rest@ == src.skip(i as int));
        assert(items@ == src.subrange(skip as int, i as int));
    }
    SearchPage {
        items,
        pagination: PaginationInfo {
            limit,
            offset: skip,
            total,
            has_more: skip.saturating_add(limit) < total,
        },
    }
}

/// The state of a [`PageAccumulator`].
pub struct AccumulatorView<T> {
    pub offset: usize,
    pub limit: usize,
    pub total: usize,
    pub items: Seq<T>,
}

/// Collects the requested page of a stream of matches while counting all of
/// them.
pub struct PageAccumulator<T> {
    offset: usize,
    limit: usize,
    total: usize,
    items: Vec<T>,
}

impl<T> View for PageAccumulator<T> {
    type V = AccumulatorView<T>;

    closed spec fn view(&self) -> AccumulatorView<T> {
        AccumulatorView { offset: self.offset, limit: self.limit, total: self.total, items: self.items@ }
    }
}

/// The accumulator after one more match: it is kept once `offset` matches
/// have gone by and while the page has room; the count saturates.
pub open spec fn acc_push<T>(a: AccumulatorView<T>, item: T) -> AccumulatorView<T> {
    AccumulatorView {
        items: if a.total >= a.offset && a.items.len() < a.limit {
            a.items.push(item)
        } else {
            a.items
        },
        total: if a.total < usize::MAX {
            (a.total + 1) as usize
        } else {
            a.total
        },
        ..a
    }
}

/// The page that an accumulator hands out.
pub open spec fn acc_page<T>(a: AccumulatorView<T>) -> (Seq<T>, PaginationInfo) {
    let offset = min_nat(a.offset as int, a.total as int);
    (
        a.items,
        PaginationInfo {
            limit: a.limit,
            offset: offset as usize,
            total: a.total,
            has_more: offset + a.items.len() < a.total,
        },
    )
}

/// The accumulator that starts a scan.
pub open spec fn acc_start<T>(offset: usize, limit: usize) -> AccumulatorView<T> {
    AccumulatorView { offset, limit, total: 0, items: Seq::empty() }
}

/// The accumulator after the matches `m`, one after the other.
pub open spec fn acc_fold<T>(a: AccumulatorView<T>, m: Seq<T>) -> AccumulatorView<T>
    decreases m.len(),
{
    if m.len() == 0 {
        a
    } else {
        acc_push(acc_fold(a, m.drop_last()), m.last())
    }
}

impl<T> PageAccumulator<T> {
    /// An accumulator for the page at `offset` of at most `limit` matches.
    pub fn new(offset: usize, limit: usize) -> (r: Self)
        ensures
            r@ == acc_start::<T>(offset, limit),
    {
        PageAccumulator { offset, limit, total: 0, items: Vec::new() }
    }

    /// Counts one more match, keeping it when it falls on the page.
    pub fn push_match(&mut self, item: T)
        ensures
            final(self)@ == acc_push(old(self)@, item),
    {
        if self.total >= self.offset && self.items.len() < self.limit {
            self.items.push(item);
        }
        self.total = self.total.saturating_add(1);
    }

    /// The page collected so far.
    pub fn into_page(self) -> (r: SearchPage<T>)
        ensures
            (r.items@, r.pagination) == acc_page(self@),
    {
        let offset = if self.offset < self.total {
            self.offset
        } else {
            self.total
        };
        let returned = self.items.len();
        SearchPage {
            items: self.items,
            pagination: PaginationInfo {
                limit: self.limit,
                offset,
                total: self.total,
                has_more: offset.saturating_add(returned) < self.total,
            },
        }
    }
}

proof fn lemma_acc_fold_state<T>(offset: usize, limit: usize, m: Seq<T>)
    requires
        m.len() <= usize::MAX,
    ensures
        acc_fold(acc_start::<T>(offset, limit), m) == (AccumulatorView {
            offset,
            limit,
            total: m.len() as usize,
            items: m.subrange(
                min_nat(offset as int, m.len() as int),
                min_nat(offset + limit, m.len() as int),
            ),
        }),
    decreases m.len(),
{
    if m.len() == 0 {
        assert(m.subrange(0, 0) =~= Seq::<T>::empty());
    } else {
        let n = m.len() - 1;
        let p = m.drop_last();
        lemma_acc_fold_state(offset, limit, p);
        let s = min_nat(offset as int, n);
        let e = min_nat(offset + limit, n);
        assert(p.subrange(s, e) == m.subrange(s, e));
        if n >= offset && e - s < limit {
            assert(m.subrange(s, e).push(m.last()) =~= m.subrange(s, e + 1));
        } else if n < offset {
            assert(m.subrange(s, e) =~= m.subrange(
                min_nat(offset as int, m.len() as int),
                min_nat(offset + limit, m.len() as int),
            ));
        }
    }
}

/// Feeding the matches of a scan one by one to an accumulator gives the same
/// page as paginating the full list of matches: `PageAccumulator::new`, then
/// `push_match` for each match, then `into_page` hands out what `paginate`
/// gives for all the matches (`acc_start`, `acc_push` and `acc_page` are
/// their contracts).
pub proof fn lemma_accumulated_page_is_paginated<T>(matches: Seq<T>, offset: usize, limit: usize)
    requires
        matches.len() <= usize::MAX,
    ensures
        acc_page(acc_fold(acc_start::<T>(offset, limit), matches)) == paginate_spec(
            matches,
            offset,
            limit,
        ),
{
    lemma_acc_fold_state(offset, limit, matches);
}

/// The page of a server-side search: the server's total when it sent one,
/// else the offset plus what came back, in which case a full page means
/// there may be more.
pub open spec fn finished_page(returned: nat, server_total: Option<usize>, offset: usize, limit: usize) -> PaginationInfo {
    match server_total {
        Some(t) => PaginationInfo { limit, offset, total: t, has_more: offset + returned < t },
        None => PaginationInfo {
            limit,
            offset,
            total: if offset + returned <= usize::MAX {
                (offset + returned) as usize
            } else {
                usize::MAX
            },
            has_more: returned == limit,
        },
    }
}

/// Wraps the items of a server-side search in a page.
pub fn finish_page(items: Vec<ZoteroItem>, server_total: Option<usize>, offset: usize, limit: usize) -> (r: SearchPage<ZoteroItem>)
    ensures
        r.items@ == items@,
        r.pagination == finished_page(items@.len(), server_total, offset, limit),
{
    let returned = items.len();
    let total = match server_total {
        Some(t) => t,
        None => offset.saturating_add(returned),
    };
    let has_more = match server_total {
        Some(exact) => offset.saturating_add(returned) < exact,
        None => returned == limit,
    };
    SearchPage { items, pagination: PaginationInfo { limit, offset, total, has_more } }
}

/// The pagination of a coverage page: with a server total the offset is
/// clamped to it, without one the total is the offset plus what came back.
pub open spec fn coverage_pagination_spec(offset: usize, limit: usize, returned: usize, server_total: Option<usize>) -> PaginationInfo {
    match server_total {
        Some(t) => {
            let o = min_nat(offset as int, t as int);
            PaginationInfo { limit, offset: o as usize, total: t, has_more: o + returned < t }
        },
        None => PaginationInfo {
            limit,
            offset,
            total: if offset + returned <= usize::MAX {
                (offset + returned) as usize
            } else {
                usize::MAX
            },
            has_more: returned == limit,
        },
    }
}

/// The pagination of a page of coverage results.
pub fn coverage_pagination(offset: usize, limit: usize, returned: usize, server_total: Option<usize>) -> (r: PaginationInfo)
    ensures
        r == coverage_pagination_spec(offset, limit, returned, server_total),
{
    match server_total {
        Some(t) => {
            let o = if offset < t {
                offset
            } else {
                t
            };
            PaginationInfo { limit, offset: o, total: t, has_more: o.saturating_add(returned) < t }
        },
        None => PaginationInfo {
            limit,
            offset,
            total: offset.saturating_add(returned),
            has_more: returned == limit,
        },
    }
}

// ---------------------------------------------------------------------------
// Ordering

/// `a` sorts before `b` in the order of `String`: lexicographic by
/// character, a proper prefix first.
pub open spec fn text_lt(a: Seq<char>, b: Seq<char>) -> bool
    decreases a.len(),
{
    if a.len() == 0 {
        b.len() > 0
    } else if b.len() == 0 {
        false
    } else if a[0] != b[0] {
        a[0] < b[0]
    } else {
        text_lt(a.drop_first(), b.drop_first())
    }
}

/// Text order is asymmetric.
pub proof fn lemma_text_lt_asym(a: Seq<char>, b: Seq<char>)
    ensures
        text_lt(a, b) ==> !text_lt(b, a),
    decreases a.len(),
{
    if a.len() > 0 && b.len() > 0 && a[0] == b[0] {
        lemma_text_lt_asym(a.drop_first(), b.drop_first());
    }
}

/// Two different texts are ordered one way or the other.
pub proof fn lemma_text_lt_total(a: Seq<char>, b: Seq<char>)
    ensures
        a != b ==> text_lt(a, b) || text_lt(b, a),
    decreases a.len(),
{
    if a.len() == 0 && b.len() == 0 {
        assert(a =~= b);
    } else if a.len() > 0 && b.len() > 0 && a[0] == b[0] {
        lemma_text_lt_total(a.drop_first(), b.drop_first());
        if a.drop_first() == b.drop_first() {
            assert(a =~= seq![a[0]] + a.drop_first());
            assert(b =~= seq![b[0]] + b.drop_first());
        }
    }
}

/// Text order is transitive.
pub proof fn lemma_text_lt_trans(a: Seq<char>, b: Seq<char>, c: Seq<char>)
    requires
        text_lt(a, b),
        text_lt(b, c),
    ensures
        text_lt(a, c),
    decreases a.len(),
{
    if a.len() > 0 && a[0] == b[0] && b[0] == c[0] {
        lemma_text_lt_trans(a.drop_first(), b.drop_first(), c.drop_first());
    }
}

/// Whether `a` sorts before `b` in the order of `String`.
pub fn text_lt_exec(a: &[char], b: &[char]) -> (r: bool)
    ensures
        r == text_lt(a@, b@),
{
    let mut i: usize = 0;
    assert(a@.skip(0) == a@ && b@.skip(0) == b@);
    while i < a.len() && i < b.len() && a[i] == b[i]
        invariant
            i <= a@.len(),
            i <= b@.len(),
            text_lt(a@, b@) == text_lt(a@.skip(i as int), b@.skip(i as int)),
        decreases a@.len() - i,
    {
        assert(a@.skip(i as int).drop_first() == a@.skip(i + 1));
        assert(b@.skip(i as int).drop_first() == b@.skip(i + 1));
        i = i + 1;
    }
    if i == a.len() {
        i < b.len()
    } else if i == b.len() {
        false
    } else {
        a[i] < b[i]
    }
}

/// `x` goes strictly before `y` in direction `dir`.
pub open spec fn precedes(dir: SortOrder, x: Seq<char>, y: Seq<char>) -> bool {
    match dir {
        SortOrder::Asc => text_lt(x, y),
        SortOrder::Desc => text_lt(y, x),
    }
}

/// Whether `x` goes strictly before `y` in direction `dir`.
fn precedes_exec(dir: SortOrder, x: &[char], y: &[char]) -> (r: bool)
    ensures
        r == precedes(dir, x@, y@),
{
    match dir {
        SortOrder::Asc => text_lt_exec(x, y),
        SortOrder::Desc => text_lt_exec(y, x),
    }
}

proof fn lemma_precedes_props(dir: SortOrder, x: Seq<char>, y: Seq<char>, z: Seq<char>)
    ensures
        precedes(dir, x, y) ==> !precedes(dir, y, x),
        precedes(dir, x, y) ==> x != y,
        !precedes(dir, x, y) && !precedes(dir, y, z) ==> !precedes(dir, x, z),
{
    lemma_text_lt_asym(x, y);
    lemma_text_lt_asym(y, x);
    lemma_text_lt_total(x, y);
    lemma_text_lt_total(y, z);
    if text_lt(z, x) && text_lt(x, y) {
        lemma_text_lt_trans(z, x, y);
    }
    if text_lt(y, z) && text_lt(z, x) {
        lemma_text_lt_trans(y, z, x);
    }
    if text_lt(x, z) && text_lt(z, y) {
        lemma_text_lt_trans(x, z, y);
    }
    if text_lt(z, y) && text_lt(y, x) {
        lemma_text_lt_trans(z, y, x);
    }
    if text_lt(x, y) && text_lt(y, z) {
        lemma_text_lt_trans(x, y, z);
    }
    if text_lt(y, x) && text_lt(x, z) {
        lemma_text_lt_trans(y, x, z);
    }
}

/// The key that orders an item by `field`: the field's text, or the empty
/// text where it is missing; for creators, the first creator's single-field
/// name or else first and last name around a space.
pub open spec fn sort_key_spec(d: ZoteroItemData, field: SortField) -> Seq<char> {
    match field {
        SortField::Title => crate::objects::opt_or_empty(d.title),
        SortField::Date => crate::objects::opt_or_empty(d.date),
        SortField::DateAdded => crate::objects::opt_or_empty(d.date_added),
        SortField::DateModified => crate::objects::opt_or_empty(d.date_modified),
        SortField::Creator => if d.creators@.len() == 0 {
            Seq::empty()
        } else {
            let c = d.creators@[0];
            match c.name {
                Some(n) => n@,
                None => crate::objects::opt_or_empty(c.first_name) + " "@
                    + crate::objects::opt_or_empty(c.last_name),
            }
        },
    }
}

fn text_or_empty(o: &Option<String>) -> (r: String)
    ensures
        r@ == crate::objects::opt_or_empty(*o),
{
    match o {
        Some(s) => s.clone(),
        None => String::new(),
    }
}

/// The key that orders `item` by `field`.
pub fn sort_key(item: &ZoteroItem, field: SortField) -> (r: String)
    ensures
        r@ == sort_key_spec(item.data, field),
{
    let d = &item.data;
    match field {
        SortField::Title => text_or_empty(&d.title),
        SortField::Date => text_or_empty(&d.date),
        SortField::DateAdded => text_or_empty(&d.date_added),
        SortField::DateModified => text_or_empty(&d.date_modified),
        SortField::Creator => {
            if d.creators.len() == 0 {
                return String::new();
            }
            let c = &d.creators[0];
            match &c.name {
                Some(n) => n.clone(),
                None => {
                    let mut k = text_or_empty(&c.first_name);
                    push_str(&mut k, " ");
                    let last = text_or_empty(&c.last_name);
                    push_str(&mut k, last.as_str());
                    k
                },
            }
        },
    }
}

/// `output` is `input` sorted by key in direction `dir`, items with equal
/// keys keeping their order: `p` maps each output position to the input
/// position it came from.
pub open spec fn stable_sorted(input: Seq<ZoteroItem>, output: Seq<ZoteroItem>, p: Seq<int>, field: SortField, dir: SortOrder) -> bool {
    &&& output.len() == input.len()
    &&& p.len() == input.len()
    &&& forall|k: int| 0 <= k < p.len() ==> 0 <= #[trigger] p[k] < input.len() && output[k] == input[p[k]]
    &&& forall|a: int, b: int| 0 <= a < b < p.len() ==> p[a] != p[b]
    &&& forall|a: int, b: int|
        0 <= a < b < output.len() ==> !precedes(
            dir,
            sort_key_spec(output[b].data, field),
            sort_key_spec(output[a].data, field),
        )
    &&& forall|a: int, b: int|
        0 <= a < b < output.len() && sort_key_spec(output[a].data, field) == sort_key_spec(
            output[b].data,
            field,
        ) ==> p[a] < p[b]
}

/// Sorts items by the key of `field` in `direction`; items with equal keys
/// keep their relative order.
pub fn sort_items(items: Vec<ZoteroItem>, field: SortField, direction: SortOrder) -> (r: Vec<ZoteroItem>)
    ensures
        exists|p: Seq<int>| stable_sorted(items@, r@, p, field, direction),
{
    let ghost src = items@;
    let mut rest = items;
    let mut out: Vec<ZoteroItem> = Vec::new();
    let mut keys: Vec<Vec<char>> = Vec::new();
    let ghost mut perm: Seq<int> = Seq::empty();
    let mut i: usize = 0;
    let n = rest.len();
    while i < n
        invariant
            n == src.len(),
            i <= n,
            rest@ == src.skip(i as int),
            out@.len() == i,
            keys@.len() == i,
            perm.len() == i,
            forall|k: int| 0 <= k < i ==> (#[trigger] keys@[k])@ == sort_key_spec(out@[k].data, field),
            forall|k: int| 0 <= k < i ==> 0 <= #[trigger] perm[k] < i && out@[k] == src[perm[k]],
            forall|a: int, b: int| 0 <= a < b < i ==> perm[a] != perm[b],
            forall|a: int, b: int|
                0 <= a < b < i ==> !precedes(
                    direction,
                    sort_key_spec(out@[b].data, field),
                    sort_key_spec(out@[a].data, field),
                ),
            forall|a: int, b: int|
                0 <= a < b < i && sort_key_spec(out@[a].data, field) == sort_key_spec(
                    out@[b].data,
                    field,
                ) ==> perm[a] < perm[b],
        decreases n - i,
    {
        let x = rest.remove(0);
        assert(x == src[i as int]);
        assert(rest@ == src.skip(i + 1));
        let ks = sort_key(&x, field);
        let k = chars_of(ks.as_str());
        let ghost kx = k@;
        let mut j: usize = out.len();
        while j > 0 && precedes_exec(direction, k.as_slice(), keys[j - 1].as_slice())
            invariant
                j <= i,
                out@.len() == i,
                keys@.len() == i,
                k@ == kx,
                forall|m: int| 0 <= m < i ==> (#[trigger] keys@[m])@ == sort_key_spec(out@[m].data, field),
                forall|m: int| j <= m < i ==> precedes(direction, kx, #[trigger] keys@[m]@),
            decreases j,
        {
            j = j - 1;
        }
        proof {
            if j > 0 {
                assert(!precedes(direction, kx, keys@[j - 1]@));
                assert forall|a: int| 0 <= a < j implies !precedes(
                    direction,
                    kx,
                    sort_key_spec(out@[a].data, field),
                ) by {
                    if a < j - 1 {
                        lemma_precedes_props(
                            direction,
                            kx,
                            sort_key_spec(out@[j - 1].data, field),
                            sort_key_spec(out@[a].data, field),
                        );
                    }
                }
            }
        }
        let ghost old_out = out@;
        let ghost old_perm = perm;
        let ghost old_keys = keys@;
        out.insert(j, x);
        keys.insert(j, k);
        proof {
            perm = perm.insert(j as int, i as int);
            assert forall|m: int| 0 <= m < i + 1 implies (#[trigger] keys@[m])@ == sort_key_spec(
                out@[m].data,
                field,
            ) by {
                if m < j {
                    assert(keys@[m] == old_keys[m] && out@[m] == old_out[m]);
                } else if m > j {
                    assert(keys@[m] == old_keys[m - 1] && out@[m] == old_out[m - 1]);
                }
            }
            assert forall|m: int| 0 <= m < i + 1 implies 0 <= #[trigger] perm[m] < i + 1 && out@[m]
                == src[perm[m]] by {
                if m < j {
                    assert(perm[m] == old_perm[m] && out@[m] == old_out[m]);
                } else if m > j {
                    assert(perm[m] == old_perm[m - 1] && out@[m] == old_out[m - 1]);
                }
            }
            assert forall|a: int, b: int| 0 <= a < b < i + 1 implies perm[a] != perm[b] by {
                if a < j && b < j {
                    assert(perm[a] == old_perm[a] && perm[b] == old_perm[b]);
                } else if a < j && b > j {
                    assert(perm[a] == old_perm[a] && perm[b] == old_perm[b - 1]);
                } else if a > j {
                    assert(perm[a] == old_perm[a - 1] && perm[b] == old_perm[b - 1]);
                } else if a == j {
                    assert(perm[b] == old_perm[b - 1]);
                } else {
                    assert(perm[a] == old_perm[a]);
                }
            }
            assert forall|a: int, b: int| 0 <= a < b < i + 1 implies !precedes(
                direction,
                sort_key_spec(out@[b].data, field),
                sort_key_spec(out@[a].data, field),
            ) by {
                if a < j && b < j {
                    assert(out@[a] == old_out[a] && out@[b] == old_out[b]);
                } else if a < j && b > j {
                    assert(out@[a] == old_out[a] && out@[b] == old_out[b - 1]);
                } else if a > j {
                    assert(out@[a] == old_out[a - 1] && out@[b] == old_out[b - 1]);
                } else if a == j {
                    assert(out@[b] == old_out[b - 1]);
                    assert(old_keys[b - 1]@ == sort_key_spec(old_out[b - 1].data, field));
                    assert(precedes(direction, kx, old_keys[b - 1]@));
                    lemma_precedes_props(direction, kx, old_keys[b - 1]@, kx);
                } else {
                    assert(out@[a] == old_out[a]);
                }
            }
            assert forall|a: int, b: int|
                0 <= a < b < i + 1 && sort_key_spec(out@[a].data, field) == sort_key_spec(
                    out@[b].data,
                    field,
                ) implies perm[a] < perm[b] by {
                if a < j && b < j {
                    assert(perm[a] == old_perm[a] && perm[b] == old_perm[b]);
                    assert(out@[a] == old_out[a] && out@[b] == old_out[b]);
                } else if a < j && b > j {
                    assert(perm[a] == old_perm[a] && perm[b] == old_perm[b - 1]);
                    assert(out@[a] == old_out[a] && out@[b] == old_out[b - 1]);
                } else if a > j {
                    assert(perm[a] == old_perm[a - 1] && perm[b] == old_perm[b - 1]);
                    assert(out@[a] == old_out[a - 1] && out@[b] == old_out[b - 1]);
                } else if a == j {
                    assert(out@[b] == old_out[b - 1]);
                    assert(old_keys[b - 1]@ == sort_key_spec(old_out[b - 1].data, field));
                    lemma_precedes_props(direction, kx, old_keys[b - 1]@, kx);
                } else {
                    assert(perm[a] == old_perm[a]);
                }
            }
        }
        i = i + 1;
    }
    assert(stable_sorted(src, out@, perm, field, direction));
    out
}

// ---------------------------------------------------------------------------
// Local API queries

/// Parameters of a query of the `/items` endpoint.
#[derive(Debug, Clone)]
pub struct ItemQueryParams {
    /// Quick search text (`q`).
    pub q: Option<String>,
    /// Quick search mode (`qmode`).
    pub qmode: Option<QuickSearchMode>,
    /// Item type filter (`itemType`).
    pub item_type: Option<ItemType>,
    /// Tag filter (`tag`).
    pub tag: Option<String>,
    /// Sort field (`sort`).
    pub sort: Option<String>,
    /// Sort direction (`direction`).
    pub direction: Option<SortDirection>,
    /// Page size (`limit`).
    pub limit: Option<usize>,
    /// Index of the first result (`start`).
    pub start: Option<usize>,
    /// Whether trashed items are included (`includeTrashed`).
    pub include_trashed: Option<bool>,
}

impl Default for ItemQueryParams {
    fn default() -> (r: Self)
        ensures
            r.q is None && r.qmode is None && r.item_type is None && r.tag is None,
            r.sort is None && r.direction is None && r.limit is None && r.start is None,
            r.include_trashed is None,
    {
        ItemQueryParams {
            q: None,
            qmode: None,
            item_type: None,
            tag: None,
            sort: None,
            direction: None,
            limit: None,
            start: None,
            include_trashed: None,
        }
    }
}

/// The parameter `(key, v)` appended when `v` is present.
pub open spec fn push_opt(q: Seq<(Seq<char>, Seq<char>)>, key: Seq<char>, v: Option<Seq<char>>) -> Seq<(Seq<char>, Seq<char>)> {
    match v {
        Some(x) => q.push((key, x)),
        None => q,
    }
}

/// The wire name of a quick search mode.
pub open spec fn qmode_name(m: QuickSearchMode) -> Seq<char> {
    match m {
        QuickSearchMode::TitleCreatorYear => "titleCreatorYear"@,
        QuickSearchMode::Everything => "everything"@,
    }
}

/// The wire name of a sort direction.
pub open spec fn direction_name(d: SortDirection) -> Seq<char> {
    match d {
        SortDirection::Asc => "asc"@,
        SortDirection::Desc => "desc"@,
    }
}

/// The query parameters of `p`, in the order `q`, `qmode`, `itemType`,
/// `tag`, `sort`, `direction`, `start`, `limit`, `includeTrashed`; the last
/// only when trashed items are asked for.
pub open spec fn query_pairs_spec(p: ItemQueryParams) -> Seq<(Seq<char>, Seq<char>)> {
    let a = push_opt(Seq::empty(), "q"@, opt_view(p.q));
    let b = push_opt(a, "qmode"@, match p.qmode { Some(m) => Some(qmode_name(m)), None => None });
    let c = push_opt(b, "itemType"@, match p.item_type { Some(t) => Some(t.wire()), None => None });
    let d = push_opt(c, "tag"@, opt_view(p.tag));
    let e = push_opt(d, "sort"@, opt_view(p.sort));
    let f = push_opt(e, "direction"@, match p.direction { Some(x) => Some(direction_name(x)), None => None });
    let g = push_opt(f, "start"@, match p.start { Some(n) => Some(decimal(n as nat)), None => None });
    let h = push_opt(g, "limit"@, match p.limit { Some(n) => Some(decimal(n as nat)), None => None });
    if p.include_trashed == Some(true) {
        h.push(("includeTrashed"@, "1"@))
    } else {
        h
    }
}

/// The pagination of a page of query results: offset and limit as asked
/// (the limit defaulting to what came back), total from the server when it
/// sent one.
pub open spec fn query_page_spec(start: Option<usize>, limit: Option<usize>, returned: nat, total_results: Option<usize>) -> PaginationInfo {
    let offset: usize = match start { Some(s) => s, None => 0 };
    let lim: usize = match limit { Some(l) => l, None => returned as usize };
    let total: usize = match total_results { Some(t) => t, None => returned as usize };
    PaginationInfo { limit: lim, offset, total, has_more: offset + lim < total }
}

fn opt_str(o: &Option<String>) -> (r: Option<&str>)
    ensures
        match *o {
            Some(s) => r matches Some(t) && t@ == s@,
            None => r is None,
        },
{
    match o {
        Some(s) => Some(s.as_str()),
        None => None,
    }
}

fn opt_decimal(o: Option<usize>) -> (r: Option<String>)
    ensures
        match o {
            Some(n) => r matches Some(t) && t@ == decimal(n as nat),
            None => r is None,
        },
{
    match o {
        Some(n) => Some(decimal_string(n as u64)),
        None => None,
    }
}

impl ZoteroClient {
    /// The request of a query of the `/items` endpoint.
    pub fn query_items_request(&self, params: &ItemQueryParams) -> (r: ApiRequest)
        ensures
            r.method == HttpMethod::Get && r.path@ == "/items"@ && r.target_scoped,
            r.unmodified_since_version is None && r.json_body is None,
            pairs_view(r.query@) == query_pairs_spec(*params),
    {
        let req = self.get("/items");
        assert(pairs_view(req.query@) =~= Seq::empty());
        let req = req.query_opt("q", opt_str(&params.q));
        let qmode: Option<&str> = match params.qmode {
            Some(QuickSearchMode::TitleCreatorYear) => Some("titleCreatorYear"),
            Some(QuickSearchMode::Everything) => Some("everything"),
            None => None,
        };
        let req = req.query_opt("qmode", qmode);
        let item_type: Option<&str> = match &params.item_type {
            Some(t) => Some(t.as_str()),
            None => None,
        };
        let req = req.query_opt("itemType", item_type);
        let req = req.query_opt("tag", opt_str(&params.tag));
        let req = req.query_opt("sort", opt_str(&params.sort));
        let dir: Option<&str> = match params.direction {
            Some(SortDirection::Asc) => Some("asc"),
            Some(SortDirection::Desc) => Some("desc"),
            None => None,
        };
        let req = req.query_opt("direction", dir);
        let start = opt_decimal(params.start);
        let req = req.query_opt("start", opt_str(&start));
        let limit = opt_decimal(params.limit);
        let req = req.query_opt("limit", opt_str(&limit));
        match params.include_trashed {
            Some(true) => req.query("includeTrashed", "1"),
            _ => req,
        }
    }

    /// The request of a quick search of the library, or of one collection,
    /// leaving notes out.
    pub fn search_items_request(&self, query: &str, collection_key: Option<&str>, offset: usize, limit: usize) -> (r: ApiRequest)
        ensures
            r.method == HttpMethod::Get && r.target_scoped,
            r.unmodified_since_version is None && r.json_body is None,
            r.path@ == match collection_key {
                Some(k) => "/collections/"@ + k@ + "/items"@,
                None => "/items"@,
            },
            pairs_view(r.query@) == seq![
                ("q"@, query@),
                ("start"@, decimal(offset as nat)),
                ("limit"@, decimal(limit as nat)),
                ("itemType"@, "-note"@),
            ],
    {
        let path = match collection_key {
            Some(k) => {
                let mut p = "/collections/".to_owned();
                push_str(&mut p, k);
                push_str(&mut p, "/items");
                p
            },
            None => "/items".to_owned(),
        };
        let req = self.get(path.as_str());
        assert(pairs_view(req.query@) =~= Seq::empty());
        let start = decimal_string(offset as u64);
        let lim = decimal_string(limit as u64);
        let req = req.query("q", query).query("start", start.as_str()).query("limit", lim.as_str()).query(
            "itemType",
            "-note",
        );
        assert(pairs_view(req.query@) =~= seq![
            ("q"@, query@),
            ("start"@, decimal(offset as nat)),
            ("limit"@, decimal(limit as nat)),
            ("itemType"@, "-note"@),
        ]);
        req
    }

    /// The request of the items that carry a tag, leaving notes out.
    pub fn search_by_tag_request(&self, tag: &str, limit: usize) -> (r: ApiRequest)
        ensures
            r.method == HttpMethod::Get && r.path@ == "/items"@ && r.target_scoped,
            r.unmodified_since_version is None && r.json_body is None,
            pairs_view(r.query@) == seq![
                ("tag"@, tag@),
                ("limit"@, decimal(limit as nat)),
                ("itemType"@, "-note"@),
            ],
    {
        let req = self.get("/items");
        assert(pairs_view(req.query@) =~= Seq::empty());
        let lim = decimal_string(limit as u64);
        let req = req.query("tag", tag).query("limit", lim.as_str()).query("itemType", "-note");
        assert(pairs_view(req.query@) =~= seq![
            ("tag"@, tag@),
            ("limit"@, decimal(limit as nat)),
            ("itemType"@, "-note"@),
        ]);
        req
    }
}

/// The page of a query of the `/items` endpoint.
pub fn query_items_page(params: &ItemQueryParams, res: ZoteroResponse<Vec<ZoteroItem>>) -> (r: SearchPage<ZoteroItem>)
    ensures
        r.items@ == res.data@,
        r.pagination == query_page_spec(params.start, params.limit, res.data@.len(), res.total_results),
{
    let returned = res.data.len();
    let offset = match params.start {
        Some(s) => s,
        None => 0,
    };
    let limit = match params.limit {
        Some(l) => l,
        None => returned,
    };
    let total = match res.total_results {
        Some(t) => t,
        None => returned,
    };
    let has_more = offset.saturating_add(limit) < total;
    SearchPage { items: res.data, pagination: PaginationInfo { limit, offset, total, has_more } }
}

/// The page of a quick search at `offset` of at most `limit` items.
pub fn search_items_page(res: ZoteroResponse<Vec<ZoteroItem>>, offset: usize, limit: usize) -> (r: SearchPage<ZoteroItem>)
    ensures
        r.items@ == res.data@,
        r.pagination == query_page_spec(Some(offset), Some(limit), res.data@.len(), res.total_results),
{
    let returned = res.data.len();
    let total = match res.total_results {
        Some(t) => t,
        None => returned,
    };
    let has_more = offset.saturating_add(limit) < total;
    SearchPage { items: res.data, pagination: PaginationInfo { limit, offset, total, has_more } }
}

/// `d` carries the citation key whose lowercase form is `key_lc`: its own
/// citation key field when it has one, else its extra field mentions it.
pub open spec fn has_citation_key(d: ZoteroItemData, key_lc: Seq<char>) -> bool {
    match d.citation_key {
        Some(native) => unicode_lowercase(native@) == key_lc,
        None => match d.extra {
            Some(extra) => contains(unicode_lowercase(extra@), key_lc),
            None => false,
        },
    }
}

/// Whether the item carries the citation key whose lowercase form is
/// `key_lc`.
pub fn item_has_citation_key(item: &ZoteroItem, key_lc: &str) -> (b: bool)
    ensures
        b == has_citation_key(item.data, key_lc@),
{
    match &item.data.citation_key {
        Some(native) => {
            let l = to_lowercase(native.as_str());
            str_eq(l.as_str(), key_lc)
        },
        None => match &item.data.extra {
            Some(extra) => {
                let l = to_lowercase(extra.as_str());
                contains_exec(chars_of(l.as_str()).as_slice(), chars_of(key_lc).as_slice())
            },
            None => false,
        },
    }
}

/// The first of `items` that carries the citation key `citekey`, compared
/// in lowercase.
pub fn find_by_citation_key(items: Vec<ZoteroItem>, citekey: &str) -> (r: Option<ZoteroItem>)
    ensures
        match r {
            Some(it) => exists|i: int|
                #![trigger items@[i]]
                0 <= i < items@.len() && items@[i] == it && has_citation_key(
                    items@[i].data,
                    unicode_lowercase(citekey@),
                ) && forall|j: int|
                    0 <= j < i ==> !has_citation_key(
                        #[trigger] items@[j].data,
                        unicode_lowercase(citekey@),
                    ),
            None => forall|i: int|
                0 <= i < items@.len() ==> !has_citation_key(
                    #[trigger] items@[i].data,
                    unicode_lowercase(citekey@),
                ),
        },
{
    let key_lc = to_lowercase(citekey);
    match first_citation_match(&items, key_lc.as_str()) {
        Some(i) => {
            let mut items = items;
            Some(items.remove(i))
        },
        None => None,
    }
}

fn first_citation_match(items: &Vec<ZoteroItem>, key_lc: &str) -> (r: Option<usize>)
    ensures
        match r {
            Some(i) => i < items@.len() && has_citation_key(items@[i as int].data, key_lc@) && forall|j: int|
                0 <= j < i ==> !has_citation_key(#[trigger] items@[j].data, key_lc@),
            None => forall|i: int| 0 <= i < items@.len() ==> !has_citation_key(#[trigger] items@[i].data, key_lc@),
        },
{
    let mut i: usize = 0;
    while i < items.len()
        invariant
            i <= items@.len(),
            forall|j: int| 0 <= j < i ==> !has_citation_key(#[trigger] items@[j].data, key_lc@),
        decreases items@.len() - i,
    {
        if item_has_citation_key(&items[i], key_lc) {
            return Some(i);
        }
        i = i + 1;
    }
    None
}

// ---------------------------------------------------------------------------
// Server-side search

/// What a list of conditions asks of the server's quick search: the search
/// text with its mode, an item type and a tag.
pub struct PushdownPlan {
    pub q: Option<(Seq<char>, Seq<char>)>,
    pub item_type: Option<Seq<char>>,
    pub tag: Option<Seq<char>>,
}

/// The plan after one more condition, if the server can still take it:
/// `contains`, `is` and `startsWith` on creator, year or date become the
/// search text (one at most); `is` on item type and tag become filters (one
/// of each at most); nothing else can be pushed.
pub open spec fn plan_step(p: PushdownPlan, c: SearchCondition) -> Option<PushdownPlan> {
    let pushable = c.operator is Contains || c.operator is Is || c.operator is StartsWith;
    if !pushable {
        None
    } else {
        match c.field {
            SearchField::Creator | SearchField::Year | SearchField::Date => if p.q is Some {
                None
            } else {
                Some(
                    PushdownPlan {
                        q: Some(
                            (
                                c.value@,
                                if c.field is Creator {
                                    "creator"@
                                } else {
                                    "year"@
                                },
                            ),
                        ),
                        ..p
                    },
                )
            },
            SearchField::ItemType => if c.operator is Is && p.item_type is None {
                Some(PushdownPlan { item_type: Some(c.value@), ..p })
            } else {
                None
            },
            SearchField::Tag => if c.operator is Is && p.tag is None {
                Some(PushdownPlan { tag: Some(c.value@), ..p })
            } else {
                None
            },
            _ => None,
        }
    }
}

/// The plan of a list of conditions, if the server can take all of them.
pub open spec fn plan_of(conds: Seq<SearchCondition>) -> Option<PushdownPlan>
    decreases conds.len(),
{
    if conds.len() == 0 {
        Some(PushdownPlan { q: None, item_type: None, tag: None })
    } else {
        match plan_of(conds.drop_last()) {
            Some(p) => plan_step(p, conds.last()),
            None => None,
        }
    }
}

/// The query parameters of a plan; notes, attachments and annotations are
/// always filtered out.
pub open spec fn plan_params(p: PushdownPlan) -> Seq<Seq<char>> {
    (match p.q {
        Some((q, mode)) => seq!["q="@ + url_encode(q), "qmode="@ + mode],
        None => Seq::empty(),
    }) + seq![
        match p.item_type {
            Some(t) => "itemType="@ + t + ",-note,-attachment,-annotation"@,
            None => "itemType=-note,-attachment,-annotation"@,
        },
    ] + (match p.tag {
        Some(t) => seq!["tag="@ + url_encode(t)],
        None => Seq::empty(),
    })
}

/// The URL of a server-side search for `conds`, if there are conditions and
/// the server can take them all.
pub open spec fn pushdown_url_spec(base: Seq<char>, target: crate::client::LibraryTarget, conds: Seq<SearchCondition>) -> Option<Seq<char>> {
    if conds.len() == 0 {
        None
    } else {
        match plan_of(conds) {
            Some(p) => Some(
                trim_slashes(base) + target_prefix_spec(target) + "/items"@ + "?"@ + join(
                    plan_params(p),
                    "&"@,
                ),
            ),
            None => None,
        }
    }
}

impl ZoteroClient {
    /// The URL of a server-side search for the conditions, or `None` when
    /// they must be evaluated by scanning the library.
    pub fn pushdown_url(&self, conditions: &[SearchCondition]) -> (r: Option<String>)
        ensures
            match pushdown_url_spec(self@.base_url, self@.target, conditions@) {
                Some(u) => r matches Some(s) && s@ == u,
                None => r is None,
            },
    {
        if conditions.len() == 0 {
            return None;
        }
        let mut q: Option<&str> = None;
        let mut qmode: &str = "titleCreatorYear";
        let mut item_type: Option<&str> = None;
        let mut tag: Option<&str> = None;
        let mut i: usize = 0;
        assert(conditions@.take(0) =~= Seq::<SearchCondition>::empty());
        while i < conditions.len()
            invariant
                i <= conditions@.len(),
                plan_of(conditions@.take(i as int)) == Some(
                    PushdownPlan {
                        q: match q {
                            Some(v) => Some((v@, qmode@)),
                            None => None,
                        },
                        item_type: match item_type {
                            Some(v) => Some(v@),
                            None => None,
                        },
                        tag: match tag {
                            Some(v) => Some(v@),
                            None => None,
                        },
                    },
                ),
            decreases conditions@.len() - i,
        {
            let c = &conditions[i];
            assert(conditions@.take(i + 1).drop_last() =~= conditions@.take(i as int));
            assert(conditions@.take(i + 1).last() == conditions@[i as int]);
            let pushable = match c.operator {
                SearchOperator::Contains | SearchOperator::Is | SearchOperator::StartsWith => true,
                _ => false,
            };
            let is_op = match c.operator {
                SearchOperator::Is => true,
                _ => false,
            };
            if !pushable {
                proof {
                    lemma_plan_none_extends(conditions@, i as int + 1);
                }
                return None;
            }
            match c.field {
                SearchField::Creator | SearchField::Year | SearchField::Date => {
                    if q.is_some() {
                        proof {
                            lemma_plan_none_extends(conditions@, i as int + 1);
                        }
                        return None;
                    }
                    q = Some(c.value.as_str());
                    qmode = match c.field {
                        SearchField::Creator => "creator",
                        _ => "year",
                    };
                },
                SearchField::ItemType => {
                    if !is_op || item_type.is_some() {
                        proof {
                            lemma_plan_none_extends(conditions@, i as int + 1);
                        }
                        return None;
                    }
                    item_type = Some(c.value.as_str());
                },
                SearchField::Tag => {
                    if !is_op || tag.is_some() {
                        proof {
                            lemma_plan_none_extends(conditions@, i as int + 1);
                        }
                        return None;
                    }
                    tag = Some(c.value.as_str());
                },
                _ => {
                    proof {
                        lemma_plan_none_extends(conditions@, i as int + 1);
                    }
                    return None;
                },
            }
            i = i + 1;
        }
        assert(conditions@.take(conditions@.len() as int) =~= conditions@);
        let mut url = trim_end_slashes(self.base_url());
        let prefix = self.target_prefix();
        push_str(&mut url, prefix.as_str());
        push_str(&mut url, "/items");
        let mut params: Vec<String> = Vec::new();
        if let Some(qv) = q {
            let mut a = "q=".to_owned();
            let enc = encode_component(qv);
            push_str(&mut a, enc.as_str());
            let mut b = "qmode=".to_owned();
            push_str(&mut b, qmode);
            params.push(a);
            params.push(b);
        }
        match item_type {
            Some(t) => {
                let mut a = "itemType=".to_owned();
                push_str(&mut a, t);
                push_str(&mut a, ",-note,-attachment,-annotation");
                params.push(a);
            },
            None => {
                params.push("itemType=-note,-attachment,-annotation".to_owned());
            },
        }
        if let Some(t) = tag {
            let mut a = "tag=".to_owned();
            let enc = encode_component(t);
            push_str(&mut a, enc.as_str());
            params.push(a);
        }
        let ghost plan = plan_of(conditions@)->0;
        assert(views(params@) =~= plan_params(plan));
        push_str(&mut url, "?");
        let joined = join_strings(params.as_slice(), "&");
        push_str(&mut url, joined.as_str());
        Some(url)
    }
}

proof fn lemma_plan_none_extends(conds: Seq<SearchCondition>, k: int)
    requires
        0 < k <= conds.len(),
        plan_of(conds.take(k)) is None,
    ensures
        plan_of(conds) is None,
    decreases conds.len() - k,
{
    if k < conds.len() {
        assert(conds.take(k + 1).drop_last() =~= conds.take(k));
        lemma_plan_none_extends(conds, k + 1);
    } else {
        assert(conds.take(k) =~= conds);
    }
}

// ---------------------------------------------------------------------------
// Structured search

/// An item satisfies the conditions under the join mode.
pub open spec fn conditions_match(conds: Seq<SearchCondition>, mode: JoinMode, d: ZoteroItemData) -> bool {
    match mode {
        JoinMode::All => forall|i: int|
            0 <= i < conds.len() ==> item_matches(
                (#[trigger] conds[i]).field,
                conds[i].operator,
                conds[i].value@,
                d,
            ),
        JoinMode::Any => exists|i: int|
            0 <= i < conds.len() && item_matches(
                (#[trigger] conds[i]).field,
                conds[i].operator,
                conds[i].value@,
                d,
            ),
    }
}

/// The items that a structured search returns: searchable ones (not
/// attachments, notes or annotations) that satisfy the conditions.
pub open spec fn search_hit(conds: Seq<SearchCondition>, mode: JoinMode) -> spec_fn(ZoteroItem) -> bool {
    |it: ZoteroItem| it.data.item_type.indexable() && conditions_match(conds, mode, it.data)
}

/// The page that a structured search returns from a scan of `items`: the
/// hits in library order, or stably sorted when a sort field is given.
pub open spec fn scan_page(items: Seq<ZoteroItem>, conds: Seq<SearchCondition>, mode: JoinMode, sort: Option<SortField>, dir: SortOrder, offset: usize, limit: usize, page: (Seq<ZoteroItem>, PaginationInfo)) -> bool {
    let hits = items.filter(search_hit(conds, mode));
    match sort {
        None => page == paginate_spec(hits, offset, limit),
        Some(f) => exists|sorted: Seq<ZoteroItem>, p: Seq<int>|
            stable_sorted(hits, sorted, p, f, dir) && page == paginate_spec(sorted, offset, limit),
    }
}

fn prepare_conditions(conditions: &[SearchCondition]) -> (r: Vec<PreparedCondition>)
    ensures
        r@.len() == conditions@.len(),
        forall|k: int|
            0 <= k < r@.len() ==> (#[trigger] r@[k]).field_spec() == conditions@[k].field
                && r@[k].operator_spec() == conditions@[k].operator && r@[k].value_spec()
                == conditions@[k].value@,
{
    let mut out: Vec<PreparedCondition> = Vec::new();
    let mut i: usize = 0;
    while i < conditions.len()
        invariant
            i <= conditions@.len(),
            out@.len() == i,
            forall|k: int|
                0 <= k < i ==> (#[trigger] out@[k]).field_spec() == conditions@[k].field
                    && out@[k].operator_spec() == conditions@[k].operator && out@[k].value_spec()
                    == conditions@[k].value@,
        decreases conditions@.len() - i,
    {
        out.push(PreparedCondition::from_condition(&conditions[i]));
        i = i + 1;
    }
    out
}

proof fn lemma_prepared_match(prep: Seq<PreparedCondition>, conds: Seq<SearchCondition>, mode: JoinMode, d: ZoteroItemData)
    requires
        prep.len() == conds.len(),
        forall|k: int|
            0 <= k < prep.len() ==> (#[trigger] prep[k]).field_spec() == conds[k].field
                && prep[k].operator_spec() == conds[k].operator && prep[k].value_spec()
                == conds[k].value@,
    ensures
        item_matches_all(prep, mode, d) == conditions_match(conds, mode, d),
{
    match mode {
        JoinMode::All => {
            if item_matches_all(prep, mode, d) {
                assert forall|i: int| 0 <= i < conds.len() implies item_matches(
                    (#[trigger] conds[i]).field,
                    conds[i].operator,
                    conds[i].value@,
                    d,
                ) by {
                    assert(item_matches(prep[i].field_spec(), prep[i].operator_spec(), prep[i].value_spec(), d));
                }
            }
            if conditions_match(conds, mode, d) {
                assert forall|i: int| 0 <= i < prep.len() implies item_matches(
                    (#[trigger] prep[i]).field_spec(),
                    prep[i].operator_spec(),
                    prep[i].value_spec(),
                    d,
                ) by {
                    assert(item_matches(conds[i].field, conds[i].operator, conds[i].value@, d));
                }
            }
        },
        JoinMode::Any => {
            if item_matches_all(prep, mode, d) {
                let i = choose|i: int|
                    0 <= i < prep.len() && item_matches(
                        (#[trigger] prep[i]).field_spec(),
                        prep[i].operator_spec(),
                        prep[i].value_spec(),
                        d,
                    );
                assert(item_matches(conds[i].field, conds[i].operator, conds[i].value@, d));
            }
            if conditions_match(conds, mode, d) {
                let i = choose|i: int|
                    0 <= i < conds.len() && item_matches(
                        (#[trigger] conds[i]).field,
                        conds[i].operator,
                        conds[i].value@,
                        d,
                    );
                assert(item_matches(prep[i].field_spec(), prep[i].operator_spec(), prep[i].value_spec(), d));
            }
        },
    }
}

/// Runs a structured search over `items`, the scanned library: the
/// searchable items that satisfy the conditions, sorted when a sort field
/// is given, and the page at `offset` of at most `limit` of them.
pub fn advanced_search_scan(
    items: Vec<ZoteroItem>,
    conditions: &[SearchCondition],
    join_mode: JoinMode,
    sort: Option<SortField>,
    sort_direction: SortOrder,
    offset: usize,
    limit: usize,
) -> (r: SearchPage<ZoteroItem>)
    ensures
        scan_page(items@, conditions@, join_mode, sort, sort_direction, offset, limit, (r.items@, r.pagination)),
{
    let prepared = prepare_conditions(conditions);
    let ghost src = items@;
    let ghost pred = search_hit(conditions@, join_mode);
    let n = items.len();
    let mut rest = items;
    let mut hits: Vec<ZoteroItem> = Vec::new();
    let mut acc: PageAccumulator<ZoteroItem> = PageAccumulator::new(offset, limit);
    let mut i: usize = 0;
    assert(src.take(0) =~= Seq::<ZoteroItem>::empty());
    proof {
        reveal(Seq::filter);
    }
    while i < n
        invariant
            n == src.len(),
            i <= n,
            rest@ == src.skip(i as int),
            pred == search_hit(conditions@, join_mode),
            prepared@.len() == conditions@.len(),
            forall|k: int|
                0 <= k < prepared@.len() ==> (#[trigger] prepared@[k]).field_spec() == conditions@[k].field
                    && prepared@[k].operator_spec() == conditions@[k].operator
                    && prepared@[k].value_spec() == conditions@[k].value@,
            sort is Some ==> hits@ == src.take(i as int).filter(pred),
            sort is None ==> acc@ == acc_fold(acc_start::<ZoteroItem>(offset, limit), src.take(i as int).filter(pred)),
        decreases n - i,
    {
        let x = rest.remove(0);
        assert(x == src[i as int]);
        assert(rest@ == src.skip(i + 1));
        let hit = x.data.item_type.is_indexable() && item_matches_conditions(&x, prepared.as_slice(), join_mode);
        proof {
            lemma_prepared_match(prepared@, conditions@, join_mode, x.data);
            assert(hit == pred(x));
            assert(src.take(i + 1).drop_last() =~= src.take(i as int));
            assert(src.take(i + 1).last() == x);
            reveal(Seq::filter);
        }
        if hit {
            match sort {
                Some(_) => {
                    hits.push(x);
                },
                None => {
                    let ghost f0 = src.take(i as int).filter(pred);
                    acc.push_match(x);
                    proof {
                        assert(src.take(i + 1).filter(pred) == f0.push(x));
                        assert(f0.push(x).drop_last() =~= f0);
                    }
                },
            }
        } else {
            proof {
                assert(src.take(i + 1).filter(pred) == src.take(i as int).filter(pred));
            }
        }
        i = i + 1;
    }
    assert(src.take(n as int) =~= src);
    match sort {
        Some(f) => {
            let sorted = sort_items(hits, f, sort_direction);
            paginate(sorted, offset, limit)
        },
        None => {
            proof {
                let m = src.filter(pred);
                src.lemma_filter_len(pred);
                lemma_accumulated_page_is_paginated(m, offset, limit);
            }
            acc.into_page()
        },
    }
}

/// The URL of a structured search that the server can run: only for
/// conditions that must all hold, without a sort field, and when every
/// condition can be pushed; the page's `start` and `limit` are appended.
pub open spec fn advanced_search_url_spec(c: crate::client::ClientView, conds: Seq<SearchCondition>, mode: JoinMode, sort: Option<SortField>, offset: usize, limit: usize) -> Option<Seq<char>> {
    if mode is All && sort is None {
        match pushdown_url_spec(c.base_url, c.target, conds) {
            Some(u) => Some(u + "&start="@ + decimal(offset as nat) + "&limit="@ + decimal(limit as nat)),
            None => None,
        }
    } else {
        None
    }
}

impl ZoteroClient {
    /// The URL of the server-side form of a structured search, when it has
    /// one; otherwise the library is scanned with [`advanced_search_scan`].
    pub fn advanced_search_url(
        &self,
        conditions: &[SearchCondition],
        join_mode: JoinMode,
        sort: Option<SortField>,
        offset: usize,
        limit: usize,
    ) -> (r: Option<String>)
        ensures
            match advanced_search_url_spec(self@, conditions@, join_mode, sort, offset, limit) {
                Some(u) => r matches Some(s) && s@ == u,
                None => r is None,
            },
    {
        match (join_mode, sort) {
            (JoinMode::All, None) => match self.pushdown_url(conditions) {
                Some(url) => {
                    let mut full = url;
                    push_str(&mut full, "&start=");
                    crate::text::push_decimal(&mut full, offset as u64);
                    push_str(&mut full, "&limit=");
                    crate::text::push_decimal(&mut full, limit as u64);
                    Some(full)
                },
                None => None,
            },
            _ => None,
        }
    }
}

} // verus!
