//! Notes and annotations: the payloads that create them, and the Markdown
//! synthesis of an item's annotations and notes.
use vstd::prelude::*;
use crate::json::JsonValue;
use crate::keys::ItemKey;
use crate::objects::{opt_or_empty, ZoteroItem, ZoteroItemData};
use crate::text::{decimal, push_decimal, push_str};
use crate::types::{AnnotationType, ItemType};

verus! {

/// A PDF annotation to create.
#[derive(Debug)]
pub struct AnnotationDraft {
    /// The PDF attachment that the annotation belongs to.
    pub parent_attachment_key: ItemKey,
    pub annotation_type: AnnotationType,
    /// The highlighted text.
    pub text: Option<String>,
    pub comment: Option<String>,
    /// CSS color; `#ffd400` when absent.
    pub color: Option<String>,
    pub page_label: Option<String>,
    /// The position, as the JSON text that Zotero stores.
    pub position: String,
}

fn member(key: &str, value: JsonValue) -> (r: (String, JsonValue))
    ensures
        r.0@ == key@,
        r.1 == value,
{
    (key.to_owned(), value)
}

fn opt_string_value(o: Option<String>) -> (r: JsonValue)
    ensures
        match o {
            Some(s) => r == JsonValue::String(s),
            None => r == JsonValue::Null,
        },
{
    match o {
        Some(s) => JsonValue::String(s),
        None => JsonValue::Null,
    }
}

/// The names of the members of a JSON object, in order.
pub open spec fn member_names(ms: Seq<(String, JsonValue)>) -> Seq<Seq<char>> {
    ms.map_values(|m: (String, JsonValue)| m.0@)
}

/// The members of the only object of a one-element array.
pub open spec fn single_object(r: JsonValue) -> Option<Seq<(String, JsonValue)>> {
    match r {
        JsonValue::Array(items) => if items@.len() == 1 {
            match items@[0] {
                JsonValue::Object(ms) => Some(ms@),
                _ => None,
            }
        } else {
            None
        },
        _ => None,
    }
}

/// The members of the object that creates a note: `itemType` `note`,
/// `parentItem` and `note`.
pub open spec fn note_members(parent: Seq<char>, content: Seq<char>, ms: Seq<(String, JsonValue)>) -> bool {
    &&& member_names(ms) == seq!["itemType"@, "parentItem"@, "note"@]
    &&& ms[0].1 is String && ms[0].1->String_0@ == "note"@
    &&& ms[1].1 is String && ms[1].1->String_0@ == parent
    &&& ms[2].1 is String && ms[2].1->String_0@ == content
}

/// The body that creates a note under `parent`: a one-element array with
/// `itemType`, `parentItem` and `note`.
pub fn note_payload(parent: &str, note_content: &str) -> (r: JsonValue)
    ensures
        single_object(r) is Some,
        note_members(parent@, note_content@, single_object(r)->0),
{
    let mut ms: Vec<(String, JsonValue)> = Vec::new();
    ms.push(member("itemType", JsonValue::String(ItemType::Note.as_str().to_owned())));
    ms.push(member("parentItem", JsonValue::String(parent.to_owned())));
    ms.push(member("note", JsonValue::String(note_content.to_owned())));
    assert(member_names(ms@) =~= seq!["itemType"@, "parentItem"@, "note"@]);
    let mut items: Vec<JsonValue> = Vec::new();
    items.push(JsonValue::Object(ms));
    JsonValue::Array(items)
}

/// The members of the object that creates an annotation, in order:
/// `itemType`, `parentItem`, `annotationType`, `annotationText`,
/// `annotationComment` (empty when absent), `annotationColor` (`#ffd400`
/// when absent), `annotationPageLabel`, `annotationPosition`.
pub open spec fn annotation_members(d: AnnotationDraft, ms: Seq<(String, JsonValue)>) -> bool {
    &&& member_names(ms) == seq![
        "itemType"@,
        "parentItem"@,
        "annotationType"@,
        "annotationText"@,
        "annotationComment"@,
        "annotationColor"@,
        "annotationPageLabel"@,
        "annotationPosition"@,
    ]
    &&& ms[0].1 is String && ms[0].1->String_0@ == "annotation"@
    &&& ms[1].1 is String && ms[1].1->String_0@ == d.parent_attachment_key@
    &&& ms[2].1 is String && ms[2].1->String_0@ == d.annotation_type.wire()
    &&& ms[3].1 == match d.text {
        Some(t) => JsonValue::String(t),
        None => JsonValue::Null,
    }
    &&& ms[4].1 is String && ms[4].1->String_0@ == opt_or_empty(d.comment)
    &&& ms[5].1 is String && ms[5].1->String_0@ == match d.color {
        Some(c) => c@,
        None => "#ffd400"@,
    }
    &&& ms[6].1 == match d.page_label {
        Some(p) => JsonValue::String(p),
        None => JsonValue::Null,
    }
    &&& ms[7].1 is String && ms[7].1->String_0@ == d.position@
}

/// The body that creates an annotation: a one-element array holding its
/// object.
pub fn annotation_payload(draft: AnnotationDraft) -> (r: JsonValue)
    ensures
        single_object(r) is Some,
        annotation_members(draft, single_object(r)->0),
{
    let ghost d = draft;
    let mut ms: Vec<(String, JsonValue)> = Vec::new();
    ms.push(member("itemType", JsonValue::String(ItemType::Annotation.as_str().to_owned())));
    ms.push(member("parentItem", JsonValue::String(draft.parent_attachment_key.as_str().to_owned())));
    ms.push(member("annotationType", JsonValue::String(draft.annotation_type.as_str().to_owned())));
    ms.push(member("annotationText", opt_string_value(draft.text)));
    let comment = match draft.comment {
        Some(c) => c,
        None => String::new(),
    };
    ms.push(member("annotationComment", JsonValue::String(comment)));
    let color = match draft.color {
        Some(c) => c,
        None => "#ffd400".to_owned(),
    };
    ms.push(member("annotationColor", JsonValue::String(color)));
    ms.push(member("annotationPageLabel", opt_string_value(draft.page_label)));
    ms.push(member("annotationPosition", JsonValue::String(draft.position)));
    assert(member_names(ms@) =~= seq![
        "itemType"@,
        "parentItem"@,
        "annotationType"@,
        "annotationText"@,
        "annotationComment"@,
        "annotationColor"@,
        "annotationPageLabel"@,
        "annotationPosition"@,
    ]);
    let mut items: Vec<JsonValue> = Vec::new();
    items.push(JsonValue::Object(ms));
    JsonValue::Array(items)
}

// ---------------------------------------------------------------------------
// Markdown synthesis

/// The Markdown of one annotation: its quoted text, with the page when
/// known, its comment, and a blank line.
pub open spec fn annotation_block(d: ZoteroItemData) -> Seq<char> {
    let text = opt_or_empty(d.annotation_text);
    let comment = opt_or_empty(d.annotation_comment);
    let page = opt_or_empty(d.annotation_page_label);
    (if text.len() > 0 {
        if page.len() == 0 {
            "> \""@ + text + "\"\n"@
        } else {
            "> \""@ + text + "\" (p. "@ + page + ")\n"@
        }
    } else {
        Seq::empty()
    }) + (if comment.len() > 0 {
        "Comment: "@ + comment + "\n"@
    } else {
        Seq::empty()
    }) + "\n"@
}

/// The Markdown of the annotations among `cs`, in order.
pub open spec fn annotation_blocks(cs: Seq<ZoteroItem>) -> Seq<char>
    decreases cs.len(),
{
    if cs.len() == 0 {
        Seq::empty()
    } else {
        annotation_blocks(cs.drop_last()) + if cs.last().data.item_type is Annotation {
            annotation_block(cs.last().data)
        } else {
            Seq::empty()
        }
    }
}

/// Some child is an annotation.
pub open spec fn has_kind(cs: Seq<ZoteroItem>, note: bool) -> bool {
    exists|i: int|
        0 <= i < cs.len() && if note {
            (#[trigger] cs[i]).data.item_type is Note
        } else {
            cs[i].data.item_type is Annotation
        }
}

/// The `## PDF Annotations` section of the children, empty without
/// annotations.
pub open spec fn annotations_section(cs: Seq<ZoteroItem>) -> Seq<char> {
    if has_kind(cs, false) {
        "## PDF Annotations\n\n"@ + annotation_blocks(cs)
    } else {
        Seq::empty()
    }
}

fn annotation_block_exec(d: &ZoteroItemData) -> (r: String)
    ensures
        r@ == annotation_block(*d),
{
    let mut s = String::new();
    let text = match &d.annotation_text {
        Some(t) => t.as_str(),
        None => "",
    };
    let comment = match &d.annotation_comment {
        Some(t) => t.as_str(),
        None => "",
    };
    let page = match &d.annotation_page_label {
        Some(t) => t.as_str(),
        None => "",
    };
    proof {
        reveal_strlit("");
    }
    if !text.is_empty() {
        push_str(&mut s, "> \"");
        push_str(&mut s, text);
        if page.is_empty() {
            push_str(&mut s, "\"\n");
        } else {
            push_str(&mut s, "\" (p. ");
            push_str(&mut s, page);
            push_str(&mut s, ")\n");
        }
    }
    let ghost first = s@;
    if !comment.is_empty() {
        push_str(&mut s, "Comment: ");
        push_str(&mut s, comment);
        push_str(&mut s, "\n");
    }
    let ghost second = s@;
    push_str(&mut s, "\n");
    proof {
        let text_v = opt_or_empty(d.annotation_text);
        let comment_v = opt_or_empty(d.annotation_comment);
        let page_v = opt_or_empty(d.annotation_page_label);
        assert(text@ == text_v && comment@ == comment_v && page@ == page_v);
        let a = if text_v.len() > 0 {
            if page_v.len() == 0 {
                "> \""@ + text_v + "\"\n"@
            } else {
                "> \""@ + text_v + "\" (p. "@ + page_v + ")\n"@
            }
        } else {
            Seq::<char>::empty()
        };
        assert(first =~= a);
        let b = if comment_v.len() > 0 {
            "Comment: "@ + comment_v + "\n"@
        } else {
            Seq::<char>::empty()
        };
        assert(second =~= a + b);
    }
    s
}

/// The `## PDF Annotations` section of an item's children: each
/// annotation's quoted text (with its page) and comment.
pub fn format_annotations_section(children: &[ZoteroItem]) -> (r: String)
    ensures
        r@ == annotations_section(children@),
{
    let mut blocks = String::new();
    let mut any = false;
    let mut i: usize = 0;
    assert(children@.take(0) =~= Seq::<ZoteroItem>::empty());
    while i < children.len()
        invariant
            i <= children@.len(),
            blocks@ == annotation_blocks(children@.take(i as int)),
            any == has_kind(children@.take(i as int), false),
        decreases children@.len() - i,
    {
        let c = &children[i];
        assert(children@.take(i + 1).drop_last() =~= children@.take(i as int));
        assert(children@.take(i + 1).last() == children@[i as int]);
        let is_ann = match c.data.item_type {
            ItemType::Annotation => true,
            _ => false,
        };
        if is_ann {
            let b = annotation_block_exec(&c.data);
            push_str(&mut blocks, b.as_str());
            any = true;
            assert(children@.take(i + 1)[i as int].data.item_type is Annotation);
        } else {
            assert(blocks@ + Seq::<char>::empty() =~= blocks@);
        }
        proof {
            if has_kind(children@.take(i as int), false) {
                let k = choose|k: int|
                    0 <= k < i && if false {
                        (#[trigger] children@.take(i as int)[k]).data.item_type is Note
                    } else {
                        children@.take(i as int)[k].data.item_type is Annotation
                    };
                assert(children@.take(i + 1)[k] == children@.take(i as int)[k]);
            }
            if has_kind(children@.take(i + 1), false) && !is_ann {
                let k = choose|k: int|
                    0 <= k < i + 1 && if false {
                        (#[trigger] children@.take(i + 1)[k]).data.item_type is Note
                    } else {
                        children@.take(i + 1)[k].data.item_type is Annotation
                    };
                assert(children@.take(i as int)[k] == children@.take(i + 1)[k]);
            }
        }
        i = i + 1;
    }
    assert(children@.take(children@.len() as int) =~= children@);
    if !any {
        return String::new();
    }
    let mut section = "## PDF Annotations\n\n".to_owned();
    push_str(&mut section, blocks.as_str());
    section
}

/// How many of `cs` are notes.
pub open spec fn count_notes(cs: Seq<ZoteroItem>) -> nat
    decreases cs.len(),
{
    if cs.len() == 0 {
        0
    } else {
        count_notes(cs.drop_last()) + if cs.last().data.item_type is Note {
            1nat
        } else {
            0nat
        }
    }
}

/// The Markdown of the child notes among `cs`: each note with a body under
/// `### Note n`, `n` counting the notes from 1.
pub open spec fn note_blocks(cs: Seq<ZoteroItem>) -> Seq<char>
    decreases cs.len(),
{
    if cs.len() == 0 {
        Seq::empty()
    } else {
        let last = cs.last();
        note_blocks(cs.drop_last()) + if last.data.item_type is Note {
            match last.data.note {
                Some(body) => "### Note "@ + decimal(count_notes(cs.drop_last()) + 1) + "\n\n"@ + body@
                    + "\n\n"@,
                None => Seq::empty(),
            }
        } else {
            Seq::empty()
        }
    }
}

/// The note sections of an item: its own body when it is a note, then its
/// child notes.
pub open spec fn notes_section(item: ZoteroItemData, cs: Seq<ZoteroItem>) -> Seq<char> {
    (if item.item_type is Note {
        match item.note {
            Some(n) => "## Note Content\n\n"@ + n@ + "\n\n"@,
            None => Seq::empty(),
        }
    } else {
        Seq::empty()
    }) + if has_kind(cs, true) {
        "## Child Notes\n\n"@ + note_blocks(cs)
    } else {
        Seq::empty()
    }
}

/// The note sections of an item and its children.
pub fn format_notes_section(item: &ZoteroItem, children: &[ZoteroItem]) -> (r: String)
    ensures
        r@ == notes_section(item.data, children@),
{
    let mut section = String::new();
    let is_note = match item.data.item_type {
        ItemType::Note => true,
        _ => false,
    };
    if is_note {
        if let Some(note) = &item.data.note {
            push_str(&mut section, "## Note Content\n\n");
            push_str(&mut section, note.as_str());
            push_str(&mut section, "\n\n");
        }
    }
    let ghost head = section@;
    let mut blocks = String::new();
    let mut count: usize = 0;
    let mut i: usize = 0;
    assert(children@.take(0) =~= Seq::<ZoteroItem>::empty());
    while i < children.len()
        invariant
            i <= children@.len(),
            blocks@ == note_blocks(children@.take(i as int)),
            count == count_notes(children@.take(i as int)),
            count <= i,
        decreases children@.len() - i,
    {
        let c = &children[i];
        assert(children@.take(i + 1).drop_last() =~= children@.take(i as int));
        assert(children@.take(i + 1).last() == children@[i as int]);
        let note_child = match c.data.item_type {
            ItemType::Note => true,
            _ => false,
        };
        if note_child {
            if let Some(body) = &c.data.note {
                push_str(&mut blocks, "### Note ");
                push_decimal(&mut blocks, (count + 1) as u64);
                push_str(&mut blocks, "\n\n");
                push_str(&mut blocks, body.as_str());
                push_str(&mut blocks, "\n\n");
            } else {
                assert(blocks@ + Seq::<char>::empty() =~= blocks@);
            }
            count = count + 1;
        } else {
            assert(blocks@ + Seq::<char>::empty() =~= blocks@);
        }
        i = i + 1;
    }
    assert(children@.take(children@.len() as int) =~= children@);
    proof {
        lemma_has_note_count(children@);
    }
    if count > 0 {
        push_str(&mut section, "## Child Notes\n\n");
        push_str(&mut section, blocks.as_str());
    }
    proof {
        let h = if item.data.item_type is Note {
            match &item.data.note {
                Some(n) => "## Note Content\n\n"@ + n@ + "\n\n"@,
                None => Seq::<char>::empty(),
            }
        } else {
            Seq::<char>::empty()
        };
        assert(head =~= h);
        if count == 0 {
            assert(section@ =~= h + Seq::<char>::empty());
        } else {
            assert(section@ =~= h + ("## Child Notes\n\n"@ + note_blocks(children@)));
        }
    }
    section
}

proof fn lemma_has_note_count(cs: Seq<ZoteroItem>)
    ensures
        has_kind(cs, true) == (count_notes(cs) > 0),
    decreases cs.len(),
{
    if cs.len() > 0 {
        let p = cs.drop_last();
        lemma_has_note_count(p);
        if has_kind(p, true) {
            let k = choose|k: int|
                0 <= k < p.len() && if true {
                    (#[trigger] p[k]).data.item_type is Note
                } else {
                    p[k].data.item_type is Annotation
                };
            assert(cs[k] == p[k]);
        }
        if has_kind(cs, true) && !(cs.last().data.item_type is Note) {
            let k = choose|k: int|
                0 <= k < cs.len() && if true {
                    (#[trigger] cs[k]).data.item_type is Note
                } else {
                    cs[k].data.item_type is Annotation
                };
            assert(k != cs.len() - 1);
            assert(p[k] == cs[k]);
        }
        if cs.last().data.item_type is Note {
            assert(cs[cs.len() - 1] == cs.last());
        }
    }
}

/// The Markdown digest of an item's annotations and notes: a heading with
/// the item's title (its key when untitled), its DOI and date when known,
/// then the annotation and note sections.
pub open spec fn synthesis(key: Seq<char>, item: ZoteroItemData, cs: Seq<ZoteroItem>) -> Seq<char> {
    "# Annotations & Notes: "@ + (match item.title {
        Some(t) => t@,
        None => key,
    }) + "\n\n"@ + (match item.doi {
        Some(d) => "**DOI:** "@ + d@ + "\n"@,
        None => Seq::empty(),
    }) + (match item.date {
        Some(d) => "**Date:** "@ + d@ + "\n"@,
        None => Seq::empty(),
    }) + "\n"@ + annotations_section(cs) + notes_section(item, cs)
}

/// The Markdown digest of the annotations and notes of the item `key`,
/// given the item and its children.
pub fn synthesize_markdown(key: &str, item: &ZoteroItem, children: &[ZoteroItem]) -> (r: String)
    ensures
        r@ == synthesis(key@, item.data, children@),
{
    let mut md = "# Annotations & Notes: ".to_owned();
    match &item.data.title {
        Some(t) => push_str(&mut md, t.as_str()),
        None => push_str(&mut md, key),
    }
    push_str(&mut md, "\n\n");
    let ghost a = md@;
    if let Some(doi) = &item.data.doi {
        push_str(&mut md, "**DOI:** ");
        push_str(&mut md, doi.as_str());
        push_str(&mut md, "\n");
    }
    let ghost b = md@;
    if let Some(date) = &item.data.date {
        push_str(&mut md, "**Date:** ");
        push_str(&mut md, date.as_str());
        push_str(&mut md, "\n");
    }
    let ghost c = md@;
    push_str(&mut md, "\n");
    let ann = format_annotations_section(children);
    push_str(&mut md, ann.as_str());
    let notes = format_notes_section(item, children);
    push_str(&mut md, notes.as_str());
    proof {
        let doi_part = match &item.data.doi {
            Some(d) => "**DOI:** "@ + d@ + "\n"@,
            None => Seq::<char>::empty(),
        };
        let date_part = match &item.data.date {
            Some(d) => "**Date:** "@ + d@ + "\n"@,
            None => Seq::<char>::empty(),
        };
        assert(b =~= a + doi_part);
        assert(c =~= a + doi_part + date_part);
    }
    md
}

/// The digest opens with a heading that names the item by its title (by its
/// key when untitled) and a blank line; a line `**DOI:** d` follows when the
/// item has the DOI `d`, then a line `**Date:** t` when it has the date `t`,
/// and a blank line ends the header.
pub proof fn lemma_synthesis_header(key: Seq<char>, item: ZoteroItemData, cs: Seq<ZoteroItem>)
    ensures
        ({
            let heading = "# Annotations & Notes: "@ + (match item.title {
                Some(t) => t@,
                None => key,
            }) + "\n\n"@;
            let md = synthesis(key, item, cs);
            &&& heading.is_prefix_of(md)
            &&& item.doi matches Some(d) ==> (heading + "**DOI:** "@ + d@ + "\n"@).is_prefix_of(md)
            &&& item.doi matches Some(d) ==> (item.date matches Some(t) ==> (heading + "**DOI:** "@ + d@
                + "\n"@ + "**Date:** "@ + t@ + "\n"@ + "\n"@).is_prefix_of(md))
            &&& item.doi matches Some(d) ==> (item.date is None ==> (heading + "**DOI:** "@ + d@ + "\n"@
                + "\n"@).is_prefix_of(md))
            &&& item.date matches Some(t) ==> (item.doi is None ==> (heading + "**Date:** "@ + t@ + "\n"@
                + "\n"@).is_prefix_of(md))
            &&& (item.doi is None && item.date is None) ==> (heading + "\n"@).is_prefix_of(md)
        }),
{
    let heading = "# Annotations & Notes: "@ + (match item.title {
        Some(t) => t@,
        None => key,
    }) + "\n\n"@;
    let md = synthesis(key, item, cs);
    let doi_part = match item.doi {
        Some(d) => "**DOI:** "@ + d@ + "\n"@,
        None => Seq::<char>::empty(),
    };
    let date_part = match item.date {
        Some(d) => "**Date:** "@ + d@ + "\n"@,
        None => Seq::<char>::empty(),
    };
    let tail = annotations_section(cs) + notes_section(item, cs);
    assert(md =~= heading + doi_part + date_part + "\n"@ + tail);
    let h = heading + doi_part + date_part + "\n"@;
    assert(md.subrange(0, h.len() as int) =~= h);
    assert(md.subrange(0, heading.len() as int) =~= heading);
    let hd = heading + doi_part;
    assert(md.subrange(0, hd.len() as int) =~= hd);
    assert(h =~= heading + doi_part + date_part + "\n"@);
}

/// An annotation's block quotes its text, followed by its page label in
/// parentheses when it has one, then gives its comment on a line of its
/// own, and ends with a blank line; an annotation without text or comment
/// leaves only the blank line.
pub proof fn lemma_annotation_block_layout(d: ZoteroItemData)
    ensures
        ({
            let text = opt_or_empty(d.annotation_text);
            let comment = opt_or_empty(d.annotation_comment);
            let page = opt_or_empty(d.annotation_page_label);
            let b = annotation_block(d);
            &&& b.len() > 0 && b.last() == '\n'
            &&& text.len() > 0 && page.len() == 0 ==> ("> \""@ + text + "\"\n"@).is_prefix_of(b)
            &&& text.len() > 0 && page.len() > 0 ==> ("> \""@ + text + "\" (p. "@ + page + ")\n"@).is_prefix_of(b)
            &&& text.len() == 0 && comment.len() > 0 ==> b == "Comment: "@ + comment + "\n"@ + "\n"@
            &&& text.len() == 0 && comment.len() == 0 ==> b == "\n"@
        }),
{
    let text = opt_or_empty(d.annotation_text);
    let comment = opt_or_empty(d.annotation_comment);
    let page = opt_or_empty(d.annotation_page_label);
    let q = if text.len() > 0 {
        if page.len() == 0 {
            "> \""@ + text + "\"\n"@
        } else {
            "> \""@ + text + "\" (p. "@ + page + ")\n"@
        }
    } else {
        Seq::<char>::empty()
    };
    let c = if comment.len() > 0 {
        "Comment: "@ + comment + "\n"@
    } else {
        Seq::<char>::empty()
    };
    let b = annotation_block(d);
    assert(b == q + c + "\n"@);
    assert(b.subrange(0, q.len() as int) =~= q);
    reveal_strlit("\n");
    assert(b.last() == "\n"@[0]);
    assert(q.len() == 0 ==> q + c + "\n"@ =~= c + "\n"@);
}

/// A child that is neither an annotation nor a note leaves the digest as it
/// was: only annotations and notes are digested.
pub proof fn lemma_other_children_ignored(key: Seq<char>, item: ZoteroItemData, cs: Seq<ZoteroItem>, c: ZoteroItem)
    requires
        !(c.data.item_type is Annotation),
        !(c.data.item_type is Note),
    ensures
        synthesis(key, item, cs.push(c)) == synthesis(key, item, cs),
{
    let cs2 = cs.push(c);
    assert(cs2.drop_last() =~= cs);
    assert(cs2.last() == c);
    assert(annotation_blocks(cs2) =~= annotation_blocks(cs));
    assert(note_blocks(cs2) =~= note_blocks(cs));
    assert forall|note: bool| has_kind(cs2, note) == has_kind(cs, note) by {
        if has_kind(cs2, note) {
            let i = choose|i: int|
                0 <= i < cs2.len() && if note {
                    (#[trigger] cs2[i]).data.item_type is Note
                } else {
                    cs2[i].data.item_type is Annotation
                };
            assert(i < cs.len());
            assert(cs2[i] == cs[i]);
        }
        if has_kind(cs, note) {
            let i = choose|i: int|
                0 <= i < cs.len() && if note {
                    (#[trigger] cs[i]).data.item_type is Note
                } else {
                    cs[i].data.item_type is Annotation
                };
            assert(cs2[i] == cs[i]);
        }
    }
    assert(annotations_section(cs2) == annotations_section(cs));
    assert(notes_section(item, cs2) == notes_section(item, cs));
}

/// An annotation child adds its block at the end of the annotation
/// section, which opens with the `## PDF Annotations` heading when it is
/// the first annotation.
pub proof fn lemma_annotation_appended(cs: Seq<ZoteroItem>, a: ZoteroItem)
    requires
        a.data.item_type is Annotation,
    ensures
        annotations_section(cs.push(a)) == if has_kind(cs, false) {
            annotations_section(cs) + annotation_block(a.data)
        } else {
            "## PDF Annotations\n\n"@ + annotation_blocks(cs) + annotation_block(a.data)
        },
{
    let cs2 = cs.push(a);
    assert(cs2.drop_last() =~= cs);
    assert(cs2.last() == a);
    assert(cs2[cs.len() as int] == a);
    assert(has_kind(cs2, false));
    if has_kind(cs, false) {
        let i = choose|i: int| 0 <= i < cs.len() && (#[trigger] cs[i]).data.item_type is Annotation;
        assert(cs2[i] == cs[i]);
    }
}

} // verus!
