//! BibTeX and BibLaTeX export of Zotero items.
use vstd::prelude::*;
use crate::keys::ItemKey;
use crate::objects::{opt_or_empty, ZoteroCreator, ZoteroItem, ZoteroItemData};
use crate::text::{contains, ascii_lower, ascii_lower_exec, chars_eq, chars_of, is_ascii_digit, join, join_strings, push_char, push_str, string_of, trim, trim_exec, views};
use crate::types::ItemType;

verus! {

/// The entry type that an item type exports as.
pub open spec fn entry_type(t: ItemType, biblatex: bool) -> Seq<char> {
    match t {
        ItemType::JournalArticle => "article"@,
        ItemType::Book => "book"@,
        ItemType::BookSection => "incollection"@,
        ItemType::ConferencePaper => "inproceedings"@,
        ItemType::Report => "techreport"@,
        ItemType::Thesis => "phdthesis"@,
        ItemType::Webpage | ItemType::BlogPost | ItemType::ForumPost => if biblatex {
            "online"@
        } else {
            "misc"@
        },
        ItemType::Preprint => if biblatex {
            "online"@
        } else {
            "unpublished"@
        },
        _ => "misc"@,
    }
}

/// Maps an item type to its BibTeX or BibLaTeX entry type.
pub fn bibtex_entry_type(item_type: &ItemType, is_biblatex: bool) -> (r: &'static str)
    ensures
        r@ == entry_type(*item_type, is_biblatex),
{
    match item_type {
        ItemType::JournalArticle => "article",
        ItemType::Book => "book",
        ItemType::BookSection => "incollection",
        ItemType::ConferencePaper => "inproceedings",
        ItemType::Report => "techreport",
        ItemType::Thesis => "phdthesis",
        ItemType::Webpage | ItemType::BlogPost | ItemType::ForumPost => if is_biblatex {
            "online"
        } else {
            "misc"
        },
        ItemType::Preprint => if is_biblatex {
            "online"
        } else {
            "unpublished"
        },
        _ => "misc",
    }
}

/// The escaped form of one character: TeX special characters get a
/// backslash or a named macro, every other character stands for itself.
pub open spec fn escape_char(c: char) -> Seq<char> {
    if c == '&' {
        "\\&"@
    } else if c == '%' {
        "\\%"@
    } else if c == '$' {
        "\\$"@
    } else if c == '#' {
        "\\#"@
    } else if c == '_' {
        "\\_"@
    } else if c == '{' {
        "\\{"@
    } else if c == '}' {
        "\\}"@
    } else if c == '~' {
        "\\textasciitilde{}"@
    } else if c == '^' {
        "\\textasciicircum{}"@
    } else if c == '\\' {
        "\\backslash{}"@
    } else {
        seq![c]
    }
}

/// `s` with every character escaped.
pub open spec fn escape(s: Seq<char>) -> Seq<char>
    decreases s.len(),
{
    if s.len() == 0 {
        Seq::empty()
    } else {
        escape(s.drop_last()) + escape_char(s.last())
    }
}

/// Escaping text in pieces gives what escaping it whole gives.
pub proof fn lemma_escape_concat(a: Seq<char>, b: Seq<char>)
    ensures
        escape(a + b) == escape(a) + escape(b),
    decreases b.len(),
{
    if b.len() == 0 {
        assert(a + b =~= a);
        assert(escape(a) + escape(b) =~= escape(a));
    } else {
        lemma_escape_concat(a, b.drop_last());
        assert((a + b).drop_last() =~= a + b.drop_last());
        assert((a + b).last() == b.last());
        assert(escape(a + b) =~= escape(a) + escape(b));
    }
}

/// Escapes TeX special characters.
pub fn escape_bibtex(text: &str) -> (r: String)
    ensures
        r@ == escape(text@),
{
    let cs = chars_of(text);
    let mut out = String::new();
    let mut i: usize = 0;
    while i < cs.len()
        invariant
            i <= cs@.len(),
            cs@ == text@,
            out@ == escape(cs@.take(i as int)),
        decreases cs@.len() - i,
    {
        let c = cs[i];
        proof {
            assert(cs@.take(i + 1).drop_last() == cs@.take(i as int));
        }
        if c == '&' {
            push_str(&mut out, "\\&");
        } else if c == '%' {
            push_str(&mut out, "\\%");
        } else if c == '$' {
            push_str(&mut out, "\\$");
        } else if c == '#' {
            push_str(&mut out, "\\#");
        } else if c == '_' {
            push_str(&mut out, "\\_");
        } else if c == '{' {
            push_str(&mut out, "\\{");
        } else if c == '}' {
            push_str(&mut out, "\\}");
        } else if c == '~' {
            push_str(&mut out, "\\textasciitilde{}");
        } else if c == '^' {
            push_str(&mut out, "\\textasciicircum{}");
        } else if c == '\\' {
            push_str(&mut out, "\\backslash{}");
        } else {
            push_char(&mut out, c);
        }
        i = i + 1;
    }
    assert(cs@.take(cs@.len() as int) == cs@);
    out
}

/// The name under which a creator is listed, if it has one: the single-field
/// name, else `last, first`, else whichever of the two is non-empty.
pub open spec fn creator_display(c: ZoteroCreator) -> Option<Seq<char>> {
    match c.name {
        Some(n) => Some(n@),
        None => {
            let last = opt_or_empty(c.last_name);
            let first = opt_or_empty(c.first_name);
            if last.len() > 0 && first.len() > 0 {
                Some(last + ", "@ + first)
            } else if last.len() > 0 {
                Some(last)
            } else if first.len() > 0 {
                Some(first)
            } else {
                None
            }
        },
    }
}

/// The listed names of `cs`, in order, skipping creators without a name.
pub open spec fn creator_names(cs: Seq<ZoteroCreator>) -> Seq<Seq<char>>
    decreases cs.len(),
{
    if cs.len() == 0 {
        Seq::empty()
    } else {
        match creator_display(cs.last()) {
            Some(n) => creator_names(cs.drop_last()).push(n),
            None => creator_names(cs.drop_last()),
        }
    }
}

/// The creators of an item as BibTeX lists them: names joined by ` and `.
pub open spec fn creators_line(cs: Seq<ZoteroCreator>) -> Seq<char> {
    join(creator_names(cs), " and "@)
}

fn creator_name(creator: &ZoteroCreator) -> (r: Option<String>)
    ensures
        match creator_display(*creator) {
            Some(n) => r matches Some(s) && s@ == n,
            None => r is None,
        },
{
    if let Some(name) = &creator.name {
        return Some(name.clone());
    }
    let last: &str = match &creator.last_name {
        Some(l) => l.as_str(),
        None => "",
    };
    let first: &str = match &creator.first_name {
        Some(f) => f.as_str(),
        None => "",
    };
    proof {
        reveal_strlit("");
    }
    let last_empty = last.is_empty();
    let first_empty = first.is_empty();
    if !last_empty && !first_empty {
        let mut s = last.to_owned();
        push_str(&mut s, ", ");
        push_str(&mut s, first);
        Some(s)
    } else if !last_empty {
        Some(last.to_owned())
    } else if !first_empty {
        Some(first.to_owned())
    } else {
        None
    }
}

/// Lists creators as `last, first` names joined by ` and `.
pub fn format_creators(creators: &[ZoteroCreator]) -> (r: String)
    ensures
        r@ == creators_line(creators@),
{
    let mut names: Vec<String> = Vec::new();
    let mut i: usize = 0;
    while i < creators.len()
        invariant
            i <= creators@.len(),
            views(names@) == creator_names(creators@.take(i as int)),
        decreases creators@.len() - i,
    {
        proof {
            assert(creators@.take(i + 1).drop_last() == creators@.take(i as int));
        }
        match creator_name(&creators[i]) {
            Some(n) => {
                names.push(n);
                proof {
                    assert(views(names@) == views(names@.drop_last()).push(names@.last()@));
                }
            },
            None => {},
        }
        i = i + 1;
    }
    assert(creators@.take(creators@.len() as int) == creators@);
    join_strings(names.as_slice(), " and ")
}

/// One `name = {value},` line of an entry.
pub open spec fn field_line(name: Seq<char>, value: Seq<char>) -> Seq<char> {
    "  "@ + name + " = {"@ + value + "},\n"@
}

/// The line for an optional field, escaped, or nothing when it is absent.
pub open spec fn opt_line(name: Seq<char>, o: Option<String>) -> Seq<char> {
    match o {
        Some(v) => field_line(name, escape(v@)),
        None => Seq::empty(),
    }
}

fn push_field(entry: &mut String, name: &str, value: &str)
    ensures
        final(entry)@ == old(entry)@ + field_line(name@, value@),
{
    let ghost start = entry@;
    push_str(entry, "  ");
    push_str(entry, name);
    push_str(entry, " = {");
    push_str(entry, value);
    push_str(entry, "},\n");
    assert(entry@ == start + field_line(name@, value@));
}

fn push_opt_field(entry: &mut String, name: &str, o: &Option<String>)
    ensures
        final(entry)@ == old(entry)@ + opt_line(name@, *o),
{
    match o {
        Some(v) => {
            let e = escape_bibtex(v.as_str());
            push_field(entry, name, e.as_str());
        },
        None => {
            assert(entry@ + Seq::<char>::empty() == entry@);
        },
    }
}

/// The author line of an entry, or nothing when no creator has a name.
pub open spec fn author_line(cs: Seq<ZoteroCreator>) -> Seq<char> {
    if creators_line(cs).len() > 0 {
        field_line("author"@, escape(creators_line(cs)))
    } else {
        Seq::empty()
    }
}

/// The venue lines of an entry, which depend on the item type.
pub open spec fn venue_lines(d: ZoteroItemData, biblatex: bool) -> Seq<char> {
    match d.item_type {
        ItemType::JournalArticle => opt_line("journal"@, d.publication_title),
        ItemType::BookSection | ItemType::ConferencePaper => opt_line(
            "booktitle"@,
            d.publication_title,
        ) + opt_line("publisher"@, d.publisher),
        ItemType::Book => opt_line("publisher"@, d.publisher),
        ItemType::Report => opt_line("institution"@, d.institution),
        ItemType::Webpage | ItemType::BlogPost | ItemType::ForumPost | ItemType::Preprint => {
            if biblatex {
                opt_line("organization"@, d.publication_title)
            } else {
                opt_line("howpublished"@, d.publication_title)
            }
        },
        _ => opt_line("journal"@, d.publication_title),
    }
}

/// A date starts with a four-digit year.
pub open spec fn has_year_prefix(date: Seq<char>) -> bool {
    date.len() >= 4 && forall|i: int| 0 <= i < 4 ==> is_ascii_digit(#[trigger] date[i])
}

/// The year line: the leading four-digit year when the date has one, else
/// the whole date escaped; nothing without a date.
pub open spec fn year_line(date: Option<String>) -> Seq<char> {
    match date {
        Some(d) => if has_year_prefix(d@) {
            field_line("year"@, d@.take(4))
        } else {
            field_line("year"@, escape(d@))
        },
        None => Seq::empty(),
    }
}

/// The citation key used for an entry: `citekey` unless it is blank, then the
/// item's own citation key, then the item key.
pub open spec fn entry_key(d: ZoteroItemData, citekey: Seq<char>) -> Seq<char> {
    if trim(citekey).len() == 0 {
        match d.citation_key {
            Some(k) => k@,
            None => d.key@,
        }
    } else {
        citekey
    }
}

/// The style name selects BibLaTeX, in any ASCII case.
pub open spec fn is_biblatex_style(style: Seq<char>) -> bool {
    ascii_lower(style) == "biblatex"@
}

/// The full entry for an item.
pub open spec fn bibtex_entry(item: ZoteroItem, citekey: Seq<char>, style: Seq<char>) -> Seq<char> {
    let d = item.data;
    let biblatex = is_biblatex_style(style);
    "@"@ + entry_type(d.item_type, biblatex) + "{"@ + entry_key(d, citekey) + ",\n"@ + opt_line(
        "title"@,
        d.title,
    ) + author_line(d.creators@) + venue_lines(d, biblatex) + year_line(d.date) + opt_line(
        "volume"@,
        d.volume,
    ) + opt_line("number"@, d.issue) + opt_line("pages"@, d.pages) + opt_line("doi"@, d.doi)
        + opt_line("url"@, d.url) + opt_line("isbn"@, d.isbn) + "}"@
}

fn push_venue_lines(entry: &mut String, d: &ZoteroItemData, is_biblatex: bool)
    ensures
        final(entry)@ == old(entry)@ + venue_lines(*d, is_biblatex),
{
    let ghost start = entry@;
    match d.item_type {
        ItemType::JournalArticle => push_opt_field(entry, "journal", &d.publication_title),
        ItemType::BookSection | ItemType::ConferencePaper => {
            push_opt_field(entry, "booktitle", &d.publication_title);
            push_opt_field(entry, "publisher", &d.publisher);
            assert(entry@ == start + venue_lines(*d, is_biblatex));
        },
        ItemType::Book => push_opt_field(entry, "publisher", &d.publisher),
        ItemType::Report => push_opt_field(entry, "institution", &d.institution),
        ItemType::Webpage | ItemType::BlogPost | ItemType::ForumPost | ItemType::Preprint => {
            if is_biblatex {
                push_opt_field(entry, "organization", &d.publication_title);
            } else {
                push_opt_field(entry, "howpublished", &d.publication_title);
            }
        },
        _ => push_opt_field(entry, "journal", &d.publication_title),
    }
}

fn push_year_line(entry: &mut String, date: &Option<String>)
    ensures
        final(entry)@ == old(entry)@ + year_line(*date),
{
    match date {
        Some(d) => {
            let cs = chars_of(d.as_str());
            let has_year = cs.len() >= 4 && '0' <= cs[0] && cs[0] <= '9' && '0' <= cs[1] && cs[1]
                <= '9' && '0' <= cs[2] && cs[2] <= '9' && '0' <= cs[3] && cs[3] <= '9';
            proof {
                if has_year {
                    assert forall|i: int| 0 <= i < 4 implies is_ascii_digit(#[trigger] d@[i]) by {
                        if i == 0 {
                        } else if i == 1 {
                        } else if i == 2 {
                        } else {
                        }
                    }
                } else if d@.len() >= 4 {
                    if cs@[0] < '0' || cs@[0] > '9' {
                        assert(!is_ascii_digit(d@[0]));
                    } else if cs@[1] < '0' || cs@[1] > '9' {
                        assert(!is_ascii_digit(d@[1]));
                    } else if cs@[2] < '0' || cs@[2] > '9' {
                        assert(!is_ascii_digit(d@[2]));
                    } else {
                        assert(!is_ascii_digit(d@[3]));
                    }
                }
            }
            if has_year {
                let year = string_of(&cs.as_slice()[0..4]);
                assert(cs@.subrange(0, 4) == d@.take(4));
                push_field(entry, "year", year.as_str());
            } else {
                let e = escape_bibtex(d.as_str());
                push_field(entry, "year", e.as_str());
            }
        },
        None => {
            assert(entry@ + Seq::<char>::empty() == entry@);
        },
    }
}

fn entry_key_of<'a>(d: &'a ZoteroItemData, citekey: &'a str) -> (r: &'a str)
    ensures
        r@ == entry_key(*d, citekey@),
{
    let trimmed = trim_exec(chars_of(citekey).as_slice());
    if trimmed.len() == 0 {
        match &d.citation_key {
            Some(k) => k.as_str(),
            None => d.key.as_str(),
        }
    } else {
        citekey
    }
}

/// Serializes one item as a BibTeX or BibLaTeX entry; `style` selects
/// BibLaTeX when it reads `biblatex` in any ASCII case.
pub fn item_to_bibtex(item: &ZoteroItem, citekey: &str, style: &str) -> (r: String)
    ensures
        r@ == bibtex_entry(*item, citekey@, style@),
{
    let lowered = ascii_lower_exec(chars_of(style).as_slice());
    let biblatex_name = chars_of("biblatex");
    let is_biblatex = chars_eq(lowered.as_slice(), biblatex_name.as_slice());
    let d = &item.data;
    let entry_type = bibtex_entry_type(&d.item_type, is_biblatex);
    let key = entry_key_of(d, citekey);

    let mut entry = String::new();
    push_str(&mut entry, "@");
    assert(entry@ == "@"@);
    push_str(&mut entry, entry_type);
    push_str(&mut entry, "{");
    push_str(&mut entry, key);
    push_str(&mut entry, ",\n");
    push_opt_field(&mut entry, "title", &d.title);

    let authors = format_creators(d.creators.as_slice());
    if authors.as_str().is_empty() {
        assert(entry@ + Seq::<char>::empty() == entry@);
    } else {
        let e = escape_bibtex(authors.as_str());
        push_field(&mut entry, "author", e.as_str());
    }

    push_venue_lines(&mut entry, d, is_biblatex);
    push_year_line(&mut entry, &d.date);
    push_opt_field(&mut entry, "volume", &d.volume);
    push_opt_field(&mut entry, "number", &d.issue);
    push_opt_field(&mut entry, "pages", &d.pages);
    push_opt_field(&mut entry, "doi", &d.doi);
    push_opt_field(&mut entry, "url", &d.url);
    push_opt_field(&mut entry, "isbn", &d.isbn);
    push_str(&mut entry, "}");
    entry
}

/// The entry types are the standard BibTeX ones: a journal article is an
/// `article`, a book a `book`, a book section an `incollection`, a
/// conference paper an `inproceedings`, a report a `techreport` and a thesis
/// a `phdthesis`, in either style; web pages, blog and forum posts are
/// `online` in BibLaTeX and `misc` in BibTeX; a preprint is `online` in
/// BibLaTeX and `unpublished` in BibTeX.
pub proof fn lemma_standard_entry_types(biblatex: bool)
    ensures
        entry_type(ItemType::JournalArticle, biblatex) == "article"@,
        entry_type(ItemType::Book, biblatex) == "book"@,
        entry_type(ItemType::BookSection, biblatex) == "incollection"@,
        entry_type(ItemType::ConferencePaper, biblatex) == "inproceedings"@,
        entry_type(ItemType::Report, biblatex) == "techreport"@,
        entry_type(ItemType::Thesis, biblatex) == "phdthesis"@,
        entry_type(ItemType::Webpage, biblatex) == (if biblatex { "online"@ } else { "misc"@ }),
        entry_type(ItemType::BlogPost, biblatex) == (if biblatex { "online"@ } else { "misc"@ }),
        entry_type(ItemType::ForumPost, biblatex) == (if biblatex { "online"@ } else { "misc"@ }),
        entry_type(ItemType::Preprint, biblatex) == (if biblatex { "online"@ } else { "unpublished"@ }),
{
}

/// Every exported entry opens with `@`, its standard entry type and `{`:
/// a conference paper opens with `@inproceedings{` in both styles, a
/// journal article with `@article{`, a book with `@book{`, a thesis with
/// `@phdthesis{`, and a web page with `@online{` in BibLaTeX and `@misc{`
/// in BibTeX.
pub proof fn lemma_entry_opens_with_type(item: ZoteroItem, citekey: Seq<char>, style: Seq<char>)
    ensures
        ("@"@ + entry_type(item.data.item_type, is_biblatex_style(style)) + "{"@).is_prefix_of(
            bibtex_entry(item, citekey, style),
        ),
        item.data.item_type is ConferencePaper ==> ("@"@ + "inproceedings"@ + "{"@).is_prefix_of(
            bibtex_entry(item, citekey, style),
        ),
        item.data.item_type is JournalArticle ==> ("@"@ + "article"@ + "{"@).is_prefix_of(
            bibtex_entry(item, citekey, style),
        ),
        item.data.item_type is Book ==> ("@"@ + "book"@ + "{"@).is_prefix_of(
            bibtex_entry(item, citekey, style),
        ),
        item.data.item_type is Thesis ==> ("@"@ + "phdthesis"@ + "{"@).is_prefix_of(
            bibtex_entry(item, citekey, style),
        ),
        item.data.item_type is Webpage ==> ("@"@ + (if is_biblatex_style(style) {
            "online"@
        } else {
            "misc"@
        }) + "{"@).is_prefix_of(bibtex_entry(item, citekey, style)),
{
    let head = "@"@ + entry_type(item.data.item_type, is_biblatex_style(style)) + "{"@;
    let e = bibtex_entry(item, citekey, style);
    assert(e.subrange(0, head.len() as int) =~= head);
}

/// An entry names the citation key that was given, unless it is blank, on
/// its first line, which ends with a comma; the title, when the item has
/// one, comes next as `  title = {..},` with its TeX characters escaped; and
/// the entry ends with the closing brace.
pub proof fn lemma_entry_key_and_title(item: ZoteroItem, citekey: Seq<char>, style: Seq<char>)
    ensures
        ({
            let head = "@"@ + entry_type(item.data.item_type, is_biblatex_style(style)) + "{"@;
            let e = bibtex_entry(item, citekey, style);
            &&& trim(citekey).len() > 0 ==> (head + citekey + ",\n"@).is_prefix_of(e)
            &&& trim(citekey).len() > 0 ==> (item.data.title matches Some(t) ==> (head + citekey + ",\n"@
                + "  title = {"@ + escape(t@) + "},\n"@).is_prefix_of(e))
            &&& e.len() > 0 && e.last() == '}'
        }),
{
    let d = item.data;
    let b = is_biblatex_style(style);
    let head = "@"@ + entry_type(d.item_type, b) + "{"@;
    let first = head + entry_key(d, citekey) + ",\n"@;
    let tl = opt_line("title"@, d.title);
    let x1 = first + tl + author_line(d.creators@);
    let x2 = x1 + venue_lines(d, b) + year_line(d.date) + opt_line("volume"@, d.volume);
    let x3 = x2 + opt_line("number"@, d.issue) + opt_line("pages"@, d.pages) + opt_line("doi"@, d.doi);
    let x4 = x3 + opt_line("url"@, d.url) + opt_line("isbn"@, d.isbn);
    let e = bibtex_entry(item, citekey, style);
    assert(e == x4 + "}"@);
    lemma_prefix_of_sum(first + tl, author_line(d.creators@));
    lemma_prefix_of_sum(x1, venue_lines(d, b) + year_line(d.date) + opt_line("volume"@, d.volume));
    assert(x2 == x1 + (venue_lines(d, b) + year_line(d.date) + opt_line("volume"@, d.volume)));
    lemma_prefix_of_sum(x2, opt_line("number"@, d.issue) + opt_line("pages"@, d.pages) + opt_line("doi"@, d.doi));
    assert(x3 == x2 + (opt_line("number"@, d.issue) + opt_line("pages"@, d.pages) + opt_line("doi"@, d.doi)));
    lemma_prefix_of_sum(x3, opt_line("url"@, d.url) + opt_line("isbn"@, d.isbn));
    assert(x4 == x3 + (opt_line("url"@, d.url) + opt_line("isbn"@, d.isbn)));
    lemma_prefix_of_sum(x4, "}"@);
    lemma_prefix_of_sum(first, tl);
    assert((first + tl).is_prefix_of(e));
    assert(first.is_prefix_of(e));
    if let Some(t) = d.title {
        lemma_title_line(escape(t@));
    }
    reveal_strlit("}");
    assert(e.last() == "}"@[0]);
}

/// The fields of an item are written as lines of its entry: the title, the
/// DOI and the volume when present; the four-digit year that opens the date;
/// the venue as `journal` for a journal article, `booktitle` and
/// `publisher` for a conference paper or a book section, `publisher` for a
/// book and `institution` for a report; each value with its TeX characters
/// escaped.
pub proof fn lemma_entry_field_lines(item: ZoteroItem, citekey: Seq<char>, style: Seq<char>)
    ensures
        ({
            let d = item.data;
            let e = bibtex_entry(item, citekey, style);
            &&& d.title matches Some(t) ==> contains(e, field_line("title"@, escape(t@)))
            &&& d.doi matches Some(x) ==> contains(e, field_line("doi"@, escape(x@)))
            &&& d.volume matches Some(x) ==> contains(e, field_line("volume"@, escape(x@)))
            &&& d.date matches Some(x) ==> (has_year_prefix(x@) ==> contains(e, field_line("year"@, x@.take(4))))
            &&& d.item_type is JournalArticle ==> (d.publication_title matches Some(j) ==> contains(
                e,
                field_line("journal"@, escape(j@)),
            ))
            &&& (d.item_type is ConferencePaper || d.item_type is BookSection) ==> (
            d.publication_title matches Some(j) ==> contains(e, field_line("booktitle"@, escape(j@))))
            &&& (d.item_type is ConferencePaper || d.item_type is BookSection) ==> (d.publisher matches Some(
                x,
            ) ==> contains(e, field_line("publisher"@, escape(x@))))
            &&& d.item_type is Book ==> (d.publisher matches Some(x) ==> contains(
                e,
                field_line("publisher"@, escape(x@)),
            ))
            &&& d.item_type is Report ==> (d.institution matches Some(x) ==> contains(
                e,
                field_line("institution"@, escape(x@)),
            ))
        }),
{
    let d = item.data;
    let b = is_biblatex_style(style);
    let e = bibtex_entry(item, citekey, style);
    let p0 = "@"@ + entry_type(d.item_type, b) + "{"@ + entry_key(d, citekey) + ",\n"@;
    let p1 = p0 + opt_line("title"@, d.title);
    let p2 = p1 + author_line(d.creators@);
    let p3 = p2 + venue_lines(d, b);
    let p4 = p3 + year_line(d.date);
    let p5 = p4 + opt_line("volume"@, d.volume);
    let p6 = p5 + opt_line("number"@, d.issue);
    let p7 = p6 + opt_line("pages"@, d.pages);
    let p8 = p7 + opt_line("doi"@, d.doi);
    let p9 = p8 + opt_line("url"@, d.url);
    let p10 = p9 + opt_line("isbn"@, d.isbn);
    assert(e == p10 + "}"@);
    lemma_prefix_of_sum(p10, "}"@);
    lemma_prefix_of_sum(p9, opt_line("isbn"@, d.isbn));
    lemma_prefix_trans(p9, p10, e);
    lemma_prefix_of_sum(p8, opt_line("url"@, d.url));
    lemma_prefix_trans(p8, p9, e);
    lemma_prefix_of_sum(p7, opt_line("doi"@, d.doi));
    lemma_prefix_trans(p7, p8, e);
    lemma_prefix_of_sum(p6, opt_line("pages"@, d.pages));
    lemma_prefix_trans(p6, p7, e);
    lemma_prefix_of_sum(p5, opt_line("number"@, d.issue));
    lemma_prefix_trans(p5, p6, e);
    lemma_prefix_of_sum(p4, opt_line("volume"@, d.volume));
    lemma_prefix_trans(p4, p5, e);
    lemma_prefix_of_sum(p3, year_line(d.date));
    lemma_prefix_trans(p3, p4, e);
    lemma_prefix_of_sum(p2, venue_lines(d, b));
    lemma_prefix_trans(p2, p3, e);
    lemma_prefix_of_sum(p1, author_line(d.creators@));
    lemma_prefix_trans(p1, p2, e);
    lemma_tail_occurs(p0, opt_line("title"@, d.title), e);
    lemma_tail_occurs(p7, opt_line("doi"@, d.doi), e);
    lemma_tail_occurs(p4, opt_line("volume"@, d.volume), e);
    lemma_tail_occurs(p3, year_line(d.date), e);
    match d.item_type {
        ItemType::BookSection | ItemType::ConferencePaper => {
            let bt = opt_line("booktitle"@, d.publication_title);
            let pb = opt_line("publisher"@, d.publisher);
            assert(p3 == p2 + bt + pb);
            lemma_prefix_of_sum(p2 + bt, pb);
            lemma_prefix_trans(p2 + bt, p3, e);
            lemma_tail_occurs(p2, bt, e);
            lemma_tail_occurs(p2 + bt, pb, e);
        },
        _ => {
            lemma_tail_occurs(p2, venue_lines(d, b), e);
        },
    }
}

/// Prefixes of prefixes are prefixes.
proof fn lemma_prefix_trans(a: Seq<char>, b: Seq<char>, c: Seq<char>)
    requires
        a.is_prefix_of(b),
        b.is_prefix_of(c),
    ensures
        a.is_prefix_of(c),
{
    assert(c.subrange(0, a.len() as int) =~= b.subrange(0, a.len() as int));
}

/// What ends a prefix of `e` occurs in `e`.
proof fn lemma_tail_occurs(a: Seq<char>, m: Seq<char>, e: Seq<char>)
    requires
        (a + m).is_prefix_of(e),
    ensures
        contains(e, m),
{
    assert(e.subrange(a.len() as int, (a.len() + m.len()) as int) =~= (a + m).subrange(a.len() as int, (a.len() + m.len()) as int));
    assert((a + m).subrange(a.len() as int, (a.len() + m.len()) as int) =~= m);
    assert(crate::text::occurs_at(e, m, a.len() as int));
}

/// `a` is a prefix of `a + b`.
proof fn lemma_prefix_of_sum(a: Seq<char>, b: Seq<char>)
    ensures
        a.is_prefix_of(a + b),
{
    assert((a + b).subrange(0, a.len() as int) =~= a);
}

/// The title line spelled out.
proof fn lemma_title_line(v: Seq<char>)
    ensures
        field_line("title"@, v) == "  title = {"@ + v + "},\n"@,
{
    reveal_strlit("  title = {");
    reveal_strlit("  ");
    reveal_strlit("title");
    reveal_strlit(" = {");
    assert("  title = {"@ =~= "  "@ + "title"@ + " = {"@);
    assert(field_line("title"@, v) =~= "  title = {"@ + v + "},\n"@);
}

/// The entries of several items, each under its own citation key, separated
/// by a blank line.
pub open spec fn bibtex_entries(items: Seq<ZoteroItem>, style: Seq<char>) -> Seq<char> {
    join(items.map_values(|it: ZoteroItem| bibtex_entry(it, ""@, style)), "\n\n"@)
}

/// Serializes several items into one BibTeX document.
pub fn items_to_bibtex(items: &[ZoteroItem], style: &str) -> (r: String)
    ensures
        r@ == bibtex_entries(items@, style@),
{
    let mut entries: Vec<String> = Vec::new();
    let mut i: usize = 0;
    while i < items.len()
        invariant
            i <= items@.len(),
            views(entries@) == items@.take(i as int).map_values(
                |it: ZoteroItem| bibtex_entry(it, ""@, style@),
            ),
        decreases items@.len() - i,
    {
        let e = item_to_bibtex(&items[i], "", style);
        let ghost before = entries@;
        entries.push(e);
        i = i + 1;
        proof {
            let f = |it: ZoteroItem| bibtex_entry(it, ""@, style@);
            assert(items@.take(i as int).map_values(f) =~= items@.take(i - 1).map_values(f).push(
                f(items@[i - 1]),
            ));
            assert(views(entries@) =~= views(before).push(entries@.last()@));
        }
    }
    assert(items@.take(items@.len() as int) == items@);
    join_strings(entries.as_slice(), "\n\n")
}

} // verus!
