//! Controlled vocabularies of Zotero: item types, annotation kinds, creator
//! roles, attachment link modes, collection parents and tag origins.
//!
//! Values that this library does not name are kept, with their wire string,
//! in each enum's `Other` variant so that they round-trip unchanged.
use vstd::prelude::*;
use crate::json::JsonValue;
use crate::keys::CollectionKey;
use crate::text::str_eq;

verus! {

/// Zotero item kind carried in the `itemType` field.
#[derive(Debug, Clone, PartialEq, Eq)]
pub enum ItemType {
    /// `annotation`
    Annotation,
    /// `artwork`
    Artwork,
    /// `attachment`
    Attachment,
    /// `audioRecording`
    AudioRecording,
    /// `bill`
    Bill,
    /// `blogPost`
    BlogPost,
    /// `book`
    Book,
    /// `bookSection`
    BookSection,
    /// `case`
    Case,
    /// `computerProgram`
    ComputerProgram,
    /// `conferencePaper`
    ConferencePaper,
    /// `dictionaryEntry`
    DictionaryEntry,
    /// `document`
    Document,
    /// `email`
    Email,
    /// `encyclopediaArticle`
    EncyclopediaArticle,
    /// `film`
    Film,
    /// `forumPost`
    ForumPost,
    /// `hearing`
    Hearing,
    /// `instantMessage`
    InstantMessage,
    /// `interview`
    Interview,
    /// `journalArticle`
    JournalArticle,
    /// `letter`
    Letter,
    /// `magazineArticle`
    MagazineArticle,
    /// `manuscript`
    Manuscript,
    /// `map`
    MapItem,
    /// `newspaperArticle`
    NewspaperArticle,
    /// `note`
    Note,
    /// `patent`
    Patent,
    /// `podcast`
    Podcast,
    /// `preprint`
    Preprint,
    /// `presentation`
    Presentation,
    /// `radioBroadcast`
    RadioBroadcast,
    /// `report`
    Report,
    /// `statute`
    Statute,
    /// `thesis`
    Thesis,
    /// `tvBroadcast`
    TvBroadcast,
    /// `videoRecording`
    VideoRecording,
    /// `webpage`
    Webpage,
    /// Any item type not named above, with its wire string.
    Other(String),
}

impl ItemType {
    /// The wire string of this value.
    pub open spec fn wire(&self) -> Seq<char> {
        match self {
            ItemType::Annotation => "annotation"@,
            ItemType::Artwork => "artwork"@,
            ItemType::Attachment => "attachment"@,
            ItemType::AudioRecording => "audioRecording"@,
            ItemType::Bill => "bill"@,
            ItemType::BlogPost => "blogPost"@,
            ItemType::Book => "book"@,
            ItemType::BookSection => "bookSection"@,
            ItemType::Case => "case"@,
            ItemType::ComputerProgram => "computerProgram"@,
            ItemType::ConferencePaper => "conferencePaper"@,
            ItemType::DictionaryEntry => "dictionaryEntry"@,
            ItemType::Document => "document"@,
            ItemType::Email => "email"@,
            ItemType::EncyclopediaArticle => "encyclopediaArticle"@,
            ItemType::Film => "film"@,
            ItemType::ForumPost => "forumPost"@,
            ItemType::Hearing => "hearing"@,
            ItemType::InstantMessage => "instantMessage"@,
            ItemType::Interview => "interview"@,
            ItemType::JournalArticle => "journalArticle"@,
            ItemType::Letter => "letter"@,
            ItemType::MagazineArticle => "magazineArticle"@,
            ItemType::Manuscript => "manuscript"@,
            ItemType::MapItem => "map"@,
            ItemType::NewspaperArticle => "newspaperArticle"@,
            ItemType::Note => "note"@,
            ItemType::Patent => "patent"@,
            ItemType::Podcast => "podcast"@,
            ItemType::Preprint => "preprint"@,
            ItemType::Presentation => "presentation"@,
            ItemType::RadioBroadcast => "radioBroadcast"@,
            ItemType::Report => "report"@,
            ItemType::Statute => "statute"@,
            ItemType::Thesis => "thesis"@,
            ItemType::TvBroadcast => "tvBroadcast"@,
            ItemType::VideoRecording => "videoRecording"@,
            ItemType::Webpage => "webpage"@,
            ItemType::Other(value) => value@,
        }
    }

    /// The named value whose wire string is `s`, if there is one.
    pub open spec fn named(s: Seq<char>) -> Option<ItemType> {
        if s == "annotation"@ {
            Some(ItemType::Annotation)
        } else if s == "artwork"@ {
            Some(ItemType::Artwork)
        } else if s == "attachment"@ {
            Some(ItemType::Attachment)
        } else if s == "audioRecording"@ {
            Some(ItemType::AudioRecording)
        } else if s == "bill"@ {
            Some(ItemType::Bill)
        } else if s == "blogPost"@ {
            Some(ItemType::BlogPost)
        } else if s == "book"@ {
            Some(ItemType::Book)
        } else if s == "bookSection"@ {
            Some(ItemType::BookSection)
        } else if s == "case"@ {
            Some(ItemType::Case)
        } else if s == "computerProgram"@ {
            Some(ItemType::ComputerProgram)
        } else if s == "conferencePaper"@ {
            Some(ItemType::ConferencePaper)
        } else if s == "dictionaryEntry"@ {
            Some(ItemType::DictionaryEntry)
        } else if s == "document"@ {
            Some(ItemType::Document)
        } else if s == "email"@ {
            Some(ItemType::Email)
        } else if s == "encyclopediaArticle"@ {
            Some(ItemType::EncyclopediaArticle)
        } else if s == "film"@ {
            Some(ItemType::Film)
        } else if s == "forumPost"@ {
            Some(ItemType::ForumPost)
        } else if s == "hearing"@ {
            Some(ItemType::Hearing)
        } else if s == "instantMessage"@ {
            Some(ItemType::InstantMessage)
        } else if s == "interview"@ {
            Some(ItemType::Interview)
        } else if s == "journalArticle"@ {
            Some(ItemType::JournalArticle)
        } else if s == "letter"@ {
            Some(ItemType::Letter)
        } else if s == "magazineArticle"@ {
            Some(ItemType::MagazineArticle)
        } else if s == "manuscript"@ {
            Some(ItemType::Manuscript)
        } else if s == "map"@ {
            Some(ItemType::MapItem)
        } else if s == "newspaperArticle"@ {
            Some(ItemType::NewspaperArticle)
        } else if s == "note"@ {
            Some(ItemType::Note)
        } else if s == "patent"@ {
            Some(ItemType::Patent)
        } else if s == "podcast"@ {
            Some(ItemType::Podcast)
        } else if s == "preprint"@ {
            Some(ItemType::Preprint)
        } else if s == "presentation"@ {
            Some(ItemType::Presentation)
        } else if s == "radioBroadcast"@ {
            Some(ItemType::RadioBroadcast)
        } else if s == "report"@ {
            Some(ItemType::Report)
        } else if s == "statute"@ {
            Some(ItemType::Statute)
        } else if s == "thesis"@ {
            Some(ItemType::Thesis)
        } else if s == "tvBroadcast"@ {
            Some(ItemType::TvBroadcast)
        } else if s == "videoRecording"@ {
            Some(ItemType::VideoRecording)
        } else if s == "webpage"@ {
            Some(ItemType::Webpage)
        } else {
            None
        }
    }

    /// The value that the wire string `s` decodes to: the named value, or
    /// `Other` carrying `s` itself.
    pub open spec fn decodes_to(s: Seq<char>, r: ItemType) -> bool {
        match ItemType::named(s) {
            Some(k) => r == k,
            None => r is Other && r.wire() == s,
        }
    }

    /// Borrows the wire string of this value.
    pub fn as_str(&self) -> (r: &str)
        ensures
            r@ == self.wire(),
    {
        match self {
            ItemType::Annotation => "annotation",
            ItemType::Artwork => "artwork",
            ItemType::Attachment => "attachment",
            ItemType::AudioRecording => "audioRecording",
            ItemType::Bill => "bill",
            ItemType::BlogPost => "blogPost",
            ItemType::Book => "book",
            ItemType::BookSection => "bookSection",
            ItemType::Case => "case",
            ItemType::ComputerProgram => "computerProgram",
            ItemType::ConferencePaper => "conferencePaper",
            ItemType::DictionaryEntry => "dictionaryEntry",
            ItemType::Document => "document",
            ItemType::Email => "email",
            ItemType::EncyclopediaArticle => "encyclopediaArticle",
            ItemType::Film => "film",
            ItemType::ForumPost => "forumPost",
            ItemType::Hearing => "hearing",
            ItemType::InstantMessage => "instantMessage",
            ItemType::Interview => "interview",
            ItemType::JournalArticle => "journalArticle",
            ItemType::Letter => "letter",
            ItemType::MagazineArticle => "magazineArticle",
            ItemType::Manuscript => "manuscript",
            ItemType::MapItem => "map",
            ItemType::NewspaperArticle => "newspaperArticle",
            ItemType::Note => "note",
            ItemType::Patent => "patent",
            ItemType::Podcast => "podcast",
            ItemType::Preprint => "preprint",
            ItemType::Presentation => "presentation",
            ItemType::RadioBroadcast => "radioBroadcast",
            ItemType::Report => "report",
            ItemType::Statute => "statute",
            ItemType::Thesis => "thesis",
            ItemType::TvBroadcast => "tvBroadcast",
            ItemType::VideoRecording => "videoRecording",
            ItemType::Webpage => "webpage",
            ItemType::Other(value) => value.as_str(),
        }
    }

    /// Decodes a wire string, keeping unknown values in `Other`.
    pub fn from_wire(s: &str) -> (r: ItemType)
        ensures
            ItemType::decodes_to(s@, r),
    {
        if str_eq(s, "annotation") {
            ItemType::Annotation
        } else if str_eq(s, "artwork") {
            ItemType::Artwork
        } else if str_eq(s, "attachment") {
            ItemType::Attachment
        } else if str_eq(s, "audioRecording") {
            ItemType::AudioRecording
        } else if str_eq(s, "bill") {
            ItemType::Bill
        } else if str_eq(s, "blogPost") {
            ItemType::BlogPost
        } else if str_eq(s, "book") {
            ItemType::Book
        } else if str_eq(s, "bookSection") {
            ItemType::BookSection
        } else if str_eq(s, "case") {
            ItemType::Case
        } else if str_eq(s, "computerProgram") {
            ItemType::ComputerProgram
        } else if str_eq(s, "conferencePaper") {
            ItemType::ConferencePaper
        } else if str_eq(s, "dictionaryEntry") {
            ItemType::DictionaryEntry
        } else if str_eq(s, "document") {
            ItemType::Document
        } else if str_eq(s, "email") {
            ItemType::Email
        } else if str_eq(s, "encyclopediaArticle") {
            ItemType::EncyclopediaArticle
        } else if str_eq(s, "film") {
            ItemType::Film
        } else if str_eq(s, "forumPost") {
            ItemType::ForumPost
        } else if str_eq(s, "hearing") {
            ItemType::Hearing
        } else if str_eq(s, "instantMessage") {
            ItemType::InstantMessage
        } else if str_eq(s, "interview") {
            ItemType::Interview
        } else if str_eq(s, "journalArticle") {
            ItemType::JournalArticle
        } else if str_eq(s, "letter") {
            ItemType::Letter
        } else if str_eq(s, "magazineArticle") {
            ItemType::MagazineArticle
        } else if str_eq(s, "manuscript") {
            ItemType::Manuscript
        } else if str_eq(s, "map") {
            ItemType::MapItem
        } else if str_eq(s, "newspaperArticle") {
            ItemType::NewspaperArticle
        } else if str_eq(s, "note") {
            ItemType::Note
        } else if str_eq(s, "patent") {
            ItemType::Patent
        } else if str_eq(s, "podcast") {
            ItemType::Podcast
        } else if str_eq(s, "preprint") {
            ItemType::Preprint
        } else if str_eq(s, "presentation") {
            ItemType::Presentation
        } else if str_eq(s, "radioBroadcast") {
            ItemType::RadioBroadcast
        } else if str_eq(s, "report") {
            ItemType::Report
        } else if str_eq(s, "statute") {
            ItemType::Statute
        } else if str_eq(s, "thesis") {
            ItemType::Thesis
        } else if str_eq(s, "tvBroadcast") {
            ItemType::TvBroadcast
        } else if str_eq(s, "videoRecording") {
            ItemType::VideoRecording
        } else if str_eq(s, "webpage") {
            ItemType::Webpage
        } else {
            ItemType::Other(s.to_owned())
        }
    }

    /// The owned wire string of this value.
    pub fn to_wire(&self) -> (r: String)
        ensures
            r@ == self.wire(),
    {
        self.as_str().to_owned()
    }
}

/// Whatever string is decoded, encoding the value it decodes to gives the
/// same string back: no wire value is lost.
pub proof fn lemma_item_type_decode_keeps_wire(s: Seq<char>, r: ItemType)
    requires
        ItemType::decodes_to(s, r),
    ensures
        r.wire() == s,
{
}

/// Decoding the wire string of a value gives the value back, unless it is an
/// `Other` that carries the wire string of a named value.
pub proof fn lemma_item_type_wire_round_trip(v: ItemType)
    requires
        !(v is Other) || ItemType::named(v.wire()) is None,
    ensures
        ItemType::decodes_to(v.wire(), v),
{
    match v {
        ItemType::Annotation => {
        },
        ItemType::Artwork => {
            assert("annotation"@ != "artwork"@) by {
                reveal_strlit("annotation");
                reveal_strlit("artwork");
                assert("annotation"@.len() != "artwork"@.len());
            }
        },
        ItemType::Attachment => {
            assert("annotation"@ != "attachment"@) by {
                reveal_strlit("annotation");
                reveal_strlit("attachment");
                assert("annotation"@[1] != "attachment"@[1]);
            }
            assert("artwork"@ != "attachment"@) by {
                reveal_strlit("artwork");
                reveal_strlit("attachment");
                assert("artwork"@.len() != "attachment"@.len());
            }
        },
        ItemType::AudioRecording => {
            assert("annotation"@ != "audioRecording"@) by {
                reveal_strlit("annotation");
                reveal_strlit("audioRecording");
                assert("annotation"@.len() != "audioRecording"@.len());
            }
            assert("artwork"@ != "audioRecording"@) by {
                reveal_strlit("artwork");
                reveal_strlit("audioRecording");
                assert("artwork"@.len() != "audioRecording"@.len());
            }
            assert("attachment"@ != "audioRecording"@) by {
                reveal_strlit("attachment");
                reveal_strlit("audioRecording");
                assert("attachment"@.len() != "audioRecording"@.len());
            }
        },
        ItemType::Bill => {
            assert("annotation"@ != "bill"@) by {
                reveal_strlit("annotation");
                reveal_strlit("bill");
                assert("annotation"@.len() != "bill"@.len());
            }
            assert("artwork"@ != "bill"@) by {
                reveal_strlit("artwork");
                reveal_strlit("bill");
                assert("artwork"@.len() != "bill"@.len());
            }
            assert("attachment"@ != "bill"@) by {
                reveal_strlit("attachment");
                reveal_strlit("bill");
                assert("attachment"@.len() != "bill"@.len());
            }
            assert("audioRecording"@ != "bill"@) by {
                reveal_strlit("audioRecording");
                reveal_strlit("bill");
                assert("audioRecording"@.len() != "bill"@.len());
            }
        },
        ItemType::BlogPost => {
            assert("annotation"@ != "blogPost"@) by {
                reveal_strlit("annotation");
                reveal_strlit("blogPost");
                assert("annotation"@.len() != "blogPost"@.len());
            }
            assert("artwork"@ != "blogPost"@) by {
                reveal_strlit("artwork");
                reveal_strlit("blogPost");
                assert("artwork"@.len() != "blogPost"@.len());
            }
            assert("attachment"@ != "blogPost"@) by {
                reveal_strlit("attachment");
                reveal_strlit("blogPost");
                assert("attachment"@.len() != "blogPost"@.len());
            }
            assert("audioRecording"@ != "blogPost"@) by {
                reveal_strlit("audioRecording");
                reveal_strlit("blogPost");
                assert("audioRecording"@.len() != "blogPost"@.len());
            }
            assert("bill"@ != "blogPost"@) by {
                reveal_strlit("bill");
                reveal_strlit("blogPost");
                assert("bill"@.len() != "blogPost"@.len());
            }
        },
        ItemType::Book => {
            assert("annotation"@ != "book"@) by {
                reveal_strlit("annotation");
                reveal_strlit("book");
                assert("annotation"@.len() != "book"@.len());
            }
            assert("artwork"@ != "book"@) by {
                reveal_strlit("artwork");
                reveal_strlit("book");
                assert("artwork"@.len() != "book"@.len());
            }
            assert("attachment"@ != "book"@) by {
                reveal_strlit("attachment");
                reveal_strlit("book");
                assert("attachment"@.len() != "book"@.len());
            }
            assert("audioRecording"@ != "book"@) by {
                reveal_strlit("audioRecording");
                reveal_strlit("book");
                assert("audioRecording"@.len() != "book"@.len());
            }
            assert("bill"@ != "book"@) by {
                reveal_strlit("bill");
                reveal_strlit("book");
                assert("bill"@[1] != "book"@[1]);
            }
            assert("blogPost"@ != "book"@) by {
                reveal_strlit("blogPost");
                reveal_strlit("book");
                assert("blogPost"@.len() != "book"@.len());
            }
        },
        ItemType::BookSection => {
            assert("annotation"@ != "bookSection"@) by {
                reveal_strlit("annotation");
                reveal_strlit("bookSection");
                assert("annotation"@.len() != "bookSection"@.len());
            }
            assert("artwork"@ != "bookSection"@) by {
                reveal_strlit("artwork");
                reveal_strlit("bookSection");
                assert("artwork"@.len() != "bookSection"@.len());
            }
            assert("attachment"@ != "bookSection"@) by {
                reveal_strlit("attachment");
                reveal_strlit("bookSection");
                assert("attachment"@.len() != "bookSection"@.len());
            }
            assert("audioRecording"@ != "bookSection"@) by {
                reveal_strlit("audioRecording");
                reveal_strlit("bookSection");
                assert("audioRecording"@.len() != "bookSection"@.len());
            }
            assert("bill"@ != "bookSection"@) by {
                reveal_strlit("bill");
                reveal_strlit("bookSection");
                assert("bill"@.len() != "bookSection"@.len());
            }
            assert("blogPost"@ != "bookSection"@) by {
                reveal_strlit("blogPost");
                reveal_strlit("bookSection");
                assert("blogPost"@.len() != "bookSection"@.len());
            }
            assert("book"@ != "bookSection"@) by {
                reveal_strlit("book");
                reveal_strlit("bookSection");
                assert("book"@.len() != "bookSection"@.len());
            }
        },
        ItemType::Case => {
            assert("annotation"@ != "case"@) by {
                reveal_strlit("annotation");
                reveal_strlit("case");
                assert("annotation"@.len() != "case"@.len());
            }
            assert("artwork"@ != "case"@) by {
                reveal_strlit("artwork");
                reveal_strlit("case");
                assert("artwork"@.len() != "case"@.len());
            }
            assert("attachment"@ != "case"@) by {
                reveal_strlit("attachment");
                reveal_strlit("case");
                assert("attachment"@.len() != "case"@.len());
            }
            assert("audioRecording"@ != "case"@) by {
                reveal_strlit("audioRecording");
                reveal_strlit("case");
                assert("audioRecording"@.len() != "case"@.len());
            }
            assert("bill"@ != "case"@) by {
                reveal_strlit("bill");
                reveal_strlit("case");
                assert("bill"@[0] != "case"@[0]);
            }
            assert("blogPost"@ != "case"@) by {
                reveal_strlit("blogPost");
                reveal_strlit("case");
                assert("blogPost"@.len() != "case"@.len());
            }
            assert("book"@ != "case"@) by {
                reveal_strlit("book");
                reveal_strlit("case");
                assert("book"@[0] != "case"@[0]);
            }
            assert("bookSection"@ != "case"@) by {
                reveal_strlit("bookSection");
                reveal_strlit("case");
                assert("bookSection"@.len() != "case"@.len());
            }
        },
        ItemType::ComputerProgram => {
            assert("annotation"@ != "computerProgram"@) by {
                reveal_strlit("annotation");
                reveal_strlit("computerProgram");
                assert("annotation"@.len() != "computerProgram"@.len());
            }
            assert("artwork"@ != "computerProgram"@) by {
                reveal_strlit("artwork");
                reveal_strlit("computerProgram");
                assert("artwork"@.len() != "computerProgram"@.len());
            }
            assert("attachment"@ != "computerProgram"@) by {
                reveal_strlit("attachment");
                reveal_strlit("computerProgram");
                assert("attachment"@.len() != "computerProgram"@.len());
            }
            assert("audioRecording"@ != "computerProgram"@) by {
                reveal_strlit("audioRecording");
                reveal_strlit("computerProgram");
                assert("audioRecording"@.len() != "computerProgram"@.len());
            }
            assert("bill"@ != "computerProgram"@) by {
                reveal_strlit("bill");
                reveal_strlit("computerProgram");
                assert("bill"@.len() != "computerProgram"@.len());
            }
            assert("blogPost"@ != "computerProgram"@) by {
                reveal_strlit("blogPost");
                reveal_strlit("computerProgram");
                assert("blogPost"@.len() != "computerProgram"@.len());
            }
            assert("book"@ != "computerProgram"@) by {
                reveal_strlit("book");
                reveal_strlit("computerProgram");
                assert("book"@.len() != "computerProgram"@.len());
            }
            assert("bookSection"@ != "computerProgram"@) by {
                reveal_strlit("bookSection");
                reveal_strlit("computerProgram");
                assert("bookSection"@.len() != "computerProgram"@.len());
            }
            assert("case"@ != "computerProgram"@) by {
                reveal_strlit("case");
                reveal_strlit("computerProgram");
                assert("case"@.len() != "computerProgram"@.len());
            }
        },
        ItemType::ConferencePaper => {
            assert("annotation"@ != "conferencePaper"@) by {
                reveal_strlit("annotation");
                reveal_strlit("conferencePaper");
                assert("annotation"@.len() != "conferencePaper"@.len());
            }
            assert("artwork"@ != "conferencePaper"@) by {
                reveal_strlit("artwork");
                reveal_strlit("conferencePaper");
                assert("artwork"@.len() != "conferencePaper"@.len());
            }
            assert("attachment"@ != "conferencePaper"@) by {
                reveal_strlit("attachment");
                reveal_strlit("conferencePaper");
                assert("attachment"@.len() != "conferencePaper"@.len());
            }
            assert("audioRecording"@ != "conferencePaper"@) by {
                reveal_strlit("audioRecording");
                reveal_strlit("conferencePaper");
                assert("audioRecording"@.len() != "conferencePaper"@.len());
            }
            assert("bill"@ != "conferencePaper"@) by {
                reveal_strlit("bill");
                reveal_strlit("conferencePaper");
                assert("bill"@.len() != "conferencePaper"@.len());
            }
            assert("blogPost"@ != "conferencePaper"@) by {
                reveal_strlit("blogPost");
                reveal_strlit("conferencePaper");
                assert("blogPost"@.len() != "conferencePaper"@.len());
            }
            assert("book"@ != "conferencePaper"@) by {
                reveal_strlit("book");
                reveal_strlit("conferencePaper");
                assert("book"@.len() != "conferencePaper"@.len());
            }
            assert("bookSection"@ != "conferencePaper"@) by {
                reveal_strlit("bookSection");
                reveal_strlit("conferencePaper");
                assert("bookSection"@.len() != "conferencePaper"@.len());
            }
            assert("case"@ != "conferencePaper"@) by {
                reveal_strlit("case");
                reveal_strlit("conferencePaper");
                assert("case"@.len() != "conferencePaper"@.len());
            }
            assert("computerProgram"@ != "conferencePaper"@) by {
                reveal_strlit("computerProgram");
                reveal_strlit("conferencePaper");
                assert("computerProgram"@[2] != "conferencePaper"@[2]);
            }
        },
        ItemType::DictionaryEntry => {
            assert("annotation"@ != "dictionaryEntry"@) by {
                reveal_strlit("annotation");
                reveal_strlit("dictionaryEntry");
                assert("annotation"@.len() != "dictionaryEntry"@.len());
            }
            assert("artwork"@ != "dictionaryEntry"@) by {
                reveal_strlit("artwork");
                reveal_strlit("dictionaryEntry");
                assert("artwork"@.len() != "dictionaryEntry"@.len());
            }
            assert("attachment"@ != "dictionaryEntry"@) by {
                reveal_strlit("attachment");
                reveal_strlit("dictionaryEntry");
                assert("attachment"@.len() != "dictionaryEntry"@.len());
            }
            assert("audioRecording"@ != "dictionaryEntry"@) by {
                reveal_strlit("audioRecording");
                reveal_strlit("dictionaryEntry");
                assert("audioRecording"@.len() != "dictionaryEntry"@.len());
            }
            assert("bill"@ != "dictionaryEntry"@) by {
                reveal_strlit("bill");
                reveal_strlit("dictionaryEntry");
                assert("bill"@.len() != "dictionaryEntry"@.len());
            }
            assert("blogPost"@ != "dictionaryEntry"@) by {
                reveal_strlit("blogPost");
                reveal_strlit("dictionaryEntry");
                assert("blogPost"@.len() != "dictionaryEntry"@.len());
            }
            assert("book"@ != "dictionaryEntry"@) by {
                reveal_strlit("book");
                reveal_strlit("dictionaryEntry");
                assert("book"@.len() != "dictionaryEntry"@.len());
            }
            assert("bookSection"@ != "dictionaryEntry"@) by {
                reveal_strlit("bookSection");
                reveal_strlit("dictionaryEntry");
                assert("bookSection"@.len() != "dictionaryEntry"@.len());
            }
            assert("case"@ != "dictionaryEntry"@) by {
                reveal_strlit("case");
                reveal_strlit("dictionaryEntry");
                assert("case"@.len() != "dictionaryEntry"@.len());
            }
            assert("computerProgram"@ != "dictionaryEntry"@) by {
                reveal_strlit("computerProgram");
                reveal_strlit("dictionaryEntry");
                assert("computerProgram"@[0] != "dictionaryEntry"@[0]);
            }
            assert("conferencePaper"@ != "dictionaryEntry"@) by {
                reveal_strlit("conferencePaper");
                reveal_strlit("dictionaryEntry");
                assert("conferencePaper"@[0] != "dictionaryEntry"@[0]);
            }
        },
        ItemType::Document => {
            assert("annotation"@ != "document"@) by {
                reveal_strlit("annotation");
                reveal_strlit("document");
                assert("annotation"@.len() != "document"@.len());
            }
            assert("artwork"@ != "document"@) by {
                reveal_strlit("artwork");
                reveal_strlit("document");
                assert("artwork"@.len() != "document"@.len());
            }
            assert("attachment"@ != "document"@) by {
                reveal_strlit("attachment");
                reveal_strlit("document");
                assert("attachment"@.len() != "document"@.len());
            }
            assert("audioRecording"@ != "document"@) by {
                reveal_strlit("audioRecording");
                reveal_strlit("document");
                assert("audioRecording"@.len() != "document"@.len());
            }
            assert("bill"@ != "document"@) by {
                reveal_strlit("bill");
                reveal_strlit("document");
                assert("bill"@.len() != "document"@.len());
            }
            assert("blogPost"@ != "document"@) by {
                reveal_strlit("blogPost");
                reveal_strlit("document");
                assert("blogPost"@[0] != "document"@[0]);
            }
            assert("book"@ != "document"@) by {
                reveal_strlit("book");
                reveal_strlit("document");
                assert("book"@.len() != "document"@.len());
            }
            assert("bookSection"@ != "document"@) by {
                reveal_strlit("bookSection");
                reveal_strlit("document");
                assert("bookSection"@.len() != "document"@.len());
            }
            assert("case"@ != "document"@) by {
                reveal_strlit("case");
                reveal_strlit("document");
                assert("case"@.len() != "document"@.len());
            }
            assert("computerProgram"@ != "document"@) by {
                reveal_strlit("computerProgram");
                reveal_strlit("document");
                assert("computerProgram"@.len() != "document"@.len());
            }
            assert("conferencePaper"@ != "document"@) by {
                reveal_strlit("conferencePaper");
                reveal_strlit("document");
                assert("conferencePaper"@.len() != "document"@.len());
            }
            assert("dictionaryEntry"@ != "document"@) by {
                reveal_strlit("dictionaryEntry");
                reveal_strlit("document");
                assert("dictionaryEntry"@.len() != "document"@.len());
            }
        },
        ItemType::Email => {
            assert("annotation"@ != "email"@) by {
                reveal_strlit("annotation");
                reveal_strlit("email");
                assert("annotation"@.len() != "email"@.len());
            }
            assert("artwork"@ != "email"@) by {
                reveal_strlit("artwork");
                reveal_strlit("email");
                assert("artwork"@.len() != "email"@.len());
            }
            assert("attachment"@ != "email"@) by {
                reveal_strlit("attachment");
                reveal_strlit("email");
                assert("attachment"@.len() != "email"@.len());
            }
            assert("audioRecording"@ != "email"@) by {
                reveal_strlit("audioRecording");
                reveal_strlit("email");
                assert("audioRecording"@.len() != "email"@.len());
            }
            assert("bill"@ != "email"@) by {
                reveal_strlit("bill");
                reveal_strlit("email");
                assert("bill"@.len() != "email"@.len());
            }
            assert("blogPost"@ != "email"@) by {
                reveal_strlit("blogPost");
                reveal_strlit("email");
                assert("blogPost"@.len() != "email"@.len());
            }
            assert("book"@ != "email"@) by {
                reveal_strlit("book");
                reveal_strlit("email");
                assert("book"@.len() != "email"@.len());
            }
            assert("bookSection"@ != "email"@) by {
                reveal_strlit("bookSection");
                reveal_strlit("email");
                assert("bookSection"@.len() != "email"@.len());
            }
            assert("case"@ != "email"@) by {
                reveal_strlit("case");
                reveal_strlit("email");
                assert("case"@.len() != "email"@.len());
            }
            assert("computerProgram"@ != "email"@) by {
                reveal_strlit("computerProgram");
                reveal_strlit("email");
                assert("computerProgram"@.len() != "email"@.len());
            }
            assert("conferencePaper"@ != "email"@) by {
                reveal_strlit("conferencePaper");
                reveal_strlit("email");
                assert("conferencePaper"@.len() != "email"@.len());
            }
            assert("dictionaryEntry"@ != "email"@) by {
                reveal_strlit("dictionaryEntry");
                reveal_strlit("email");
                assert("dictionaryEntry"@.len() != "email"@.len());
            }
            assert("document"@ != "email"@) by {
                reveal_strlit("document");
                reveal_strlit("email");
                assert("document"@.len() != "email"@.len());
            }
        },
        ItemType::EncyclopediaArticle => {
            assert("annotation"@ != "encyclopediaArticle"@) by {
                reveal_strlit("annotation");
                reveal_strlit("encyclopediaArticle");
                assert("annotation"@.len() != "encyclopediaArticle"@.len());
            }
            assert("artwork"@ != "encyclopediaArticle"@) by {
                reveal_strlit("artwork");
                reveal_strlit("encyclopediaArticle");
                assert("artwork"@.len() != "encyclopediaArticle"@.len());
            }
            assert("attachment"@ != "encyclopediaArticle"@) by {
                reveal_strlit("attachment");
                reveal_strlit("encyclopediaArticle");
                assert("attachment"@.len() != "encyclopediaArticle"@.len());
            }
            assert("audioRecording"@ != "encyclopediaArticle"@) by {
                reveal_strlit("audioRecording");
                reveal_strlit("encyclopediaArticle");
                assert("audioRecording"@.len() != "encyclopediaArticle"@.len());
            }
            assert("bill"@ != "encyclopediaArticle"@) by {
                reveal_strlit("bill");
                reveal_strlit("encyclopediaArticle");
                assert("bill"@.len() != "encyclopediaArticle"@.len());
            }
            assert("blogPost"@ != "encyclopediaArticle"@) by {
                reveal_strlit("blogPost");
                reveal_strlit("encyclopediaArticle");
                assert("blogPost"@.len() != "encyclopediaArticle"@.len());
            }
            assert("book"@ != "encyclopediaArticle"@) by {
                reveal_strlit("book");
                reveal_strlit("encyclopediaArticle");
                assert("book"@.len() != "encyclopediaArticle"@.len());
            }
            assert("bookSection"@ != "encyclopediaArticle"@) by {
                reveal_strlit("bookSection");
                reveal_strlit("encyclopediaArticle");
                assert("bookSection"@.len() != "encyclopediaArticle"@.len());
            }
            assert("case"@ != "encyclopediaArticle"@) by {
                reveal_strlit("case");
                reveal_strlit("encyclopediaArticle");
                assert("case"@.len() != "encyclopediaArticle"@.len());
            }
            assert("computerProgram"@ != "encyclopediaArticle"@) by {
                reveal_strlit("computerProgram");
                reveal_strlit("encyclopediaArticle");
                assert("computerProgram"@.len() != "encyclopediaArticle"@.len());
            }
            assert("conferencePaper"@ != "encyclopediaArticle"@) by {
                reveal_strlit("conferencePaper");
                reveal_strlit("encyclopediaArticle");
                assert("conferencePaper"@.len() != "encyclopediaArticle"@.len());
            }
            assert("dictionaryEntry"@ != "encyclopediaArticle"@) by {
                reveal_strlit("dictionaryEntry");
                reveal_strlit("encyclopediaArticle");
                assert("dictionaryEntry"@.len() != "encyclopediaArticle"@.len());
            }
            assert("document"@ != "encyclopediaArticle"@) by {
                reveal_strlit("document");
                reveal_strlit("encyclopediaArticle");
                assert("document"@.len() != "encyclopediaArticle"@.len());
            }
            assert("email"@ != "encyclopediaArticle"@) by {
                reveal_strlit("email");
                reveal_strlit("encyclopediaArticle");
                assert("email"@.len() != "encyclopediaArticle"@.len());
            }
        },
        ItemType::Film => {
            assert("annotation"@ != "film"@) by {
                reveal_strlit("annotation");
                reveal_strlit("film");
                assert("annotation"@.len() != "film"@.len());
            }
            assert("artwork"@ != "film"@) by {
                reveal_strlit("artwork");
                reveal_strlit("film");
                assert("artwork"@.len() != "film"@.len());
            }
            assert("attachment"@ != "film"@) by {
                reveal_strlit("attachment");
                reveal_strlit("film");
                assert("attachment"@.len() != "film"@.len());
            }
            assert("audioRecording"@ != "film"@) by {
                reveal_strlit("audioRecording");
                reveal_strlit("film");
                assert("audioRecording"@.len() != "film"@.len());
            }
            assert("bill"@ != "film"@) by {
                reveal_strlit("bill");
                reveal_strlit("film");
                assert("bill"@[0] != "film"@[0]);
            }
            assert("blogPost"@ != "film"@) by {
                reveal_strlit("blogPost");
                reveal_strlit("film");
                assert("blogPost"@.len() != "film"@.len());
            }
            assert("book"@ != "film"@) by {
                reveal_strlit("book");
                reveal_strlit("film");
                assert("book"@[0] != "film"@[0]);
            }
            assert("bookSection"@ != "film"@) by {
                reveal_strlit("bookSection");
                reveal_strlit("film");
                assert("bookSection"@.len() != "film"@.len());
            }
            assert("case"@ != "film"@) by {
                reveal_strlit("case");
                reveal_strlit("film");
                assert("case"@[0] != "film"@[0]);
            }
            assert("computerProgram"@ != "film"@) by {
                reveal_strlit("computerProgram");
                reveal_strlit("film");
                assert("computerProgram"@.len() != "film"@.len());
            }
            assert("conferencePaper"@ != "film"@) by {
                reveal_strlit("conferencePaper");
                reveal_strlit("film");
                assert("conferencePaper"@.len() != "film"@.len());
            }
            assert("dictionaryEntry"@ != "film"@) by {
                reveal_strlit("dictionaryEntry");
                reveal_strlit("film");
                assert("dictionaryEntry"@.len() != "film"@.len());
            }
            assert("document"@ != "film"@) by {
                reveal_strlit("document");
                reveal_strlit("film");
                assert("document"@.len() != "film"@.len());
            }
            assert("email"@ != "film"@) by {
                reveal_strlit("email");
                reveal_strlit("film");
                assert("email"@.len() != "film"@.len());
            }
            assert("encyclopediaArticle"@ != "film"@) by {
                reveal_strlit("encyclopediaArticle");
                reveal_strlit("film");
                assert("encyclopediaArticle"@.len() != "film"@.len());
            }
        },
        ItemType::ForumPost => {
            assert("annotation"@ != "forumPost"@) by {
                reveal_strlit("annotation");
                reveal_strlit("forumPost");
                assert("annotation"@.len() != "forumPost"@.len());
            }
            assert("artwork"@ != "forumPost"@) by {
                reveal_strlit("artwork");
                reveal_strlit("forumPost");
                assert("artwork"@.len() != "forumPost"@.len());
            }
            assert("attachment"@ != "forumPost"@) by {
                reveal_strlit("attachment");
                reveal_strlit("forumPost");
                assert("attachment"@.len() != "forumPost"@.len());
            }
            assert("audioRecording"@ != "forumPost"@) by {
                reveal_strlit("audioRecording");
                reveal_strlit("forumPost");
                assert("audioRecording"@.len() != "forumPost"@.len());
            }
            assert("bill"@ != "forumPost"@) by {
                reveal_strlit("bill");
                reveal_strlit("forumPost");
                assert("bill"@.len() != "forumPost"@.len());
            }
            assert("blogPost"@ != "forumPost"@) by {
                reveal_strlit("blogPost");
                reveal_strlit("forumPost");
                assert("blogPost"@.len() != "forumPost"@.len());
            }
            assert("book"@ != "forumPost"@) by {
                reveal_strlit("book");
                reveal_strlit("forumPost");
                assert("book"@.len() != "forumPost"@.len());
            }
            assert("bookSection"@ != "forumPost"@) by {
                reveal_strlit("bookSection");
                reveal_strlit("forumPost");
                assert("bookSection"@.len() != "forumPost"@.len());
            }
            assert("case"@ != "forumPost"@) by {
                reveal_strlit("case");
                reveal_strlit("forumPost");
                assert("case"@.len() != "forumPost"@.len());
            }
            assert("computerProgram"@ != "forumPost"@) by {
                reveal_strlit("computerProgram");
                reveal_strlit("forumPost");
                assert("computerProgram"@.len() != "forumPost"@.len());
            }
            assert("conferencePaper"@ != "forumPost"@) by {
                reveal_strlit("conferencePaper");
                reveal_strlit("forumPost");
                assert("conferencePaper"@.len() != "forumPost"@.len());
            }
            assert("dictionaryEntry"@ != "forumPost"@) by {
                reveal_strlit("dictionaryEntry");
                reveal_strlit("forumPost");
                assert("dictionaryEntry"@.len() != "forumPost"@.len());
            }
            assert("document"@ != "forumPost"@) by {
                reveal_strlit("document");
                reveal_strlit("forumPost");
                assert("document"@.len() != "forumPost"@.len());
            }
            assert("email"@ != "forumPost"@) by {
                reveal_strlit("email");
                reveal_strlit("forumPost");
                assert("email"@.len() != "forumPost"@.len());
            }
            assert("encyclopediaArticle"@ != "forumPost"@) by {
                reveal_strlit("encyclopediaArticle");
                reveal_strlit("forumPost");
                assert("encyclopediaArticle"@.len() != "forumPost"@.len());
            }
            assert("film"@ != "forumPost"@) by {
                reveal_strlit("film");
                reveal_strlit("forumPost");
                assert("film"@.len() != "forumPost"@.len());
            }
        },
        ItemType::Hearing => {
            assert("annotation"@ != "hearing"@) by {
                reveal_strlit("annotation");
                reveal_strlit("hearing");
                assert("annotation"@.len() != "hearing"@.len());
            }
            assert("artwork"@ != "hearing"@) by {
                reveal_strlit("artwork");
                reveal_strlit("hearing");
                assert("artwork"@[0] != "hearing"@[0]);
            }
            assert("attachment"@ != "hearing"@) by {
                reveal_strlit("attachment");
                reveal_strlit("hearing");
                assert("attachment"@.len() != "hearing"@.len());
            }
            assert("audioRecording"@ != "hearing"@) by {
                reveal_strlit("audioRecording");
                reveal_strlit("hearing");
                assert("audioRecording"@.len() != "hearing"@.len());
            }
            assert("bill"@ != "hearing"@) by {
                reveal_strlit("bill");
                reveal_strlit("hearing");
                assert("bill"@.len() != "hearing"@.len());
            }
            assert("blogPost"@ != "hearing"@) by {
                reveal_strlit("blogPost");
                reveal_strlit("hearing");
                assert("blogPost"@.len() != "hearing"@.len());
            }
            assert("book"@ != "hearing"@) by {
                reveal_strlit("book");
                reveal_strlit("hearing");
                assert("book"@.len() != "hearing"@.len());
            }
            assert("bookSection"@ != "hearing"@) by {
                reveal_strlit("bookSection");
                reveal_strlit("hearing");
                assert("bookSection"@.len() != "hearing"@.len());
            }
            assert("case"@ != "hearing"@) by {
                reveal_strlit("case");
                reveal_strlit("hearing");
                assert("case"@.len() != "hearing"@.len());
            }
            assert("computerProgram"@ != "hearing"@) by {
                reveal_strlit("computerProgram");
                reveal_strlit("hearing");
                assert("computerProgram"@.len() != "hearing"@.len());
            }
            assert("conferencePaper"@ != "hearing"@) by {
                reveal_strlit("conferencePaper");
                reveal_strlit("hearing");
                assert("conferencePaper"@.len() != "hearing"@.len());
            }
            assert("dictionaryEntry"@ != "hearing"@) by {
                reveal_strlit("dictionaryEntry");
                reveal_strlit("hearing");
                assert("dictionaryEntry"@.len() != "hearing"@.len());
            }
            assert("document"@ != "hearing"@) by {
                reveal_strlit("document");
                reveal_strlit("hearing");
                assert("document"@.len() != "hearing"@.len());
            }
            assert("email"@ != "hearing"@) by {
                reveal_strlit("email");
                reveal_strlit("hearing");
                assert("email"@.len() != "hearing"@.len());
            }
            assert("encyclopediaArticle"@ != "hearing"@) by {
                reveal_strlit("encyclopediaArticle");
                reveal_strlit("hearing");
                assert("encyclopediaArticle"@.len() != "hearing"@.len());
            }
            assert("film"@ != "hearing"@) by {
                reveal_strlit("film");
                reveal_strlit("hearing");
                assert("film"@.len() != "hearing"@.len());
            }
            assert("forumPost"@ != "hearing"@) by {
                reveal_strlit("forumPost");
                reveal_strlit("hearing");
                assert("forumPost"@.len() != "hearing"@.len());
            }
        },
        ItemType::InstantMessage => {
            assert("annotation"@ != "instantMessage"@) by {
                reveal_strlit("annotation");
                reveal_strlit("instantMessage");
                assert("annotation"@.len() != "instantMessage"@.len());
            }
            assert("artwork"@ != "instantMessage"@) by {
                reveal_strlit("artwork");
                reveal_strlit("instantMessage");
                assert("artwork"@.len() != "instantMessage"@.len());
            }
            assert("attachment"@ != "instantMessage"@) by {
                reveal_strlit("attachment");
                reveal_strlit("instantMessage");
                assert("attachment"@.len() != "instantMessage"@.len());
            }
            assert("audioRecording"@ != "instantMessage"@) by {
                reveal_strlit("audioRecording");
                reveal_strlit("instantMessage");
                assert("audioRecording"@[0] != "instantMessage"@[0]);
            }
            assert("bill"@ != "instantMessage"@) by {
                reveal_strlit("bill");
                reveal_strlit("instantMessage");
                assert("bill"@.len() != "instantMessage"@.len());
            }
            assert("blogPost"@ != "instantMessage"@) by {
                reveal_strlit("blogPost");
                reveal_strlit("instantMessage");
                assert("blogPost"@.len() != "instantMessage"@.len());
            }
            assert("book"@ != "instantMessage"@) by {
                reveal_strlit("book");
                reveal_strlit("instantMessage");
                assert("book"@.len() != "instantMessage"@.len());
            }
            assert("bookSection"@ != "instantMessage"@) by {
                reveal_strlit("bookSection");
                reveal_strlit("instantMessage");
                assert("bookSection"@.len() != "instantMessage"@.len());
            }
            assert("case"@ != "instantMessage"@) by {
                reveal_strlit("case");
                reveal_strlit("instantMessage");
                assert("case"@.len() != "instantMessage"@.len());
            }
            assert("computerProgram"@ != "instantMessage"@) by {
                reveal_strlit("computerProgram");
                reveal_strlit("instantMessage");
                assert("computerProgram"@.len() != "instantMessage"@.len());
            }
            assert("conferencePaper"@ != "instantMessage"@) by {
                reveal_strlit("conferencePaper");
                reveal_strlit("instantMessage");
                assert("conferencePaper"@.len() != "instantMessage"@.len());
            }
            assert("dictionaryEntry"@ != "instantMessage"@) by {
                reveal_strlit("dictionaryEntry");
                reveal_strlit("instantMessage");
                assert("dictionaryEntry"@.len() != "instantMessage"@.len());
            }
            assert("document"@ != "instantMessage"@) by {
                reveal_strlit("document");
                reveal_strlit("instantMessage");
                assert("document"@.len() != "instantMessage"@.len());
            }
            assert("email"@ != "instantMessage"@) by {
                reveal_strlit("email");
                reveal_strlit("instantMessage");
                assert("email"@.len() != "instantMessage"@.len());
            }
            assert("encyclopediaArticle"@ != "instantMessage"@) by {
                reveal_strlit("encyclopediaArticle");
                reveal_strlit("instantMessage");
                assert("encyclopediaArticle"@.len() != "instantMessage"@.len());
            }
            assert("film"@ != "instantMessage"@) by {
                reveal_strlit("film");
                reveal_strlit("instantMessage");
                assert("film"@.len() != "instantMessage"@.len());
            }
            assert("forumPost"@ != "instantMessage"@) by {
                reveal_strlit("forumPost");
                reveal_strlit("instantMessage");
                assert("forumPost"@.len() != "instantMessage"@.len());
            }
            assert("hearing"@ != "instantMessage"@) by {
                reveal_strlit("hearing");
                reveal_strlit("instantMessage");
                assert("hearing"@.len() != "instantMessage"@.len());
            }
        },
        ItemType::Interview => {
            assert("annotation"@ != "interview"@) by {
                reveal_strlit("annotation");
                reveal_strlit("interview");
                assert("annotation"@.len() != "interview"@.len());
            }
            assert("artwork"@ != "interview"@) by {
                reveal_strlit("artwork");
                reveal_strlit("interview");
                assert("artwork"@.len() != "interview"@.len());
            }
            assert("attachment"@ != "interview"@) by {
                reveal_strlit("attachment");
                reveal_strlit("interview");
                assert("attachment"@.len() != "interview"@.len());
            }
            assert("audioRecording"@ != "interview"@) by {
                reveal_strlit("audioRecording");
                reveal_strlit("interview");
                assert("audioRecording"@.len() != "interview"@.len());
            }
            assert("bill"@ != "interview"@) by {
                reveal_strlit("bill");
                reveal_strlit("interview");
                assert("bill"@.len() != "interview"@.len());
            }
            assert("blogPost"@ != "interview"@) by {
                reveal_strlit("blogPost");
                reveal_strlit("interview");
                assert("blogPost"@.len() != "interview"@.len());
            }
            assert("book"@ != "interview"@) by {
                reveal_strlit("book");
                reveal_strlit("interview");
                assert("book"@.len() != "interview"@.len());
            }
            assert("bookSection"@ != "interview"@) by {
                reveal_strlit("bookSection");
                reveal_strlit("interview");
                assert("bookSection"@.len() != "interview"@.len());
            }
            assert("case"@ != "interview"@) by {
                reveal_strlit("case");
                reveal_strlit("interview");
                assert("case"@.len() != "interview"@.len());
            }
            assert("computerProgram"@ != "interview"@) by {
                reveal_strlit("computerProgram");
                reveal_strlit("interview");
                assert("computerProgram"@.len() != "interview"@.len());
            }
            assert("conferencePaper"@ != "interview"@) by {
                reveal_strlit("conferencePaper");
                reveal_strlit("interview");
                assert("conferencePaper"@.len() != "interview"@.len());
            }
            assert("dictionaryEntry"@ != "interview"@) by {
                reveal_strlit("dictionaryEntry");
                reveal_strlit("interview");
                assert("dictionaryEntry"@.len() != "interview"@.len());
            }
            assert("document"@ != "interview"@) by {
                reveal_strlit("document");
                reveal_strlit("interview");
                assert("document"@.len() != "interview"@.len());
            }
            assert("email"@ != "interview"@) by {
                reveal_strlit("email");
                reveal_strlit("interview");
                assert("email"@.len() != "interview"@.len());
            }
            assert("encyclopediaArticle"@ != "interview"@) by {
                reveal_strlit("encyclopediaArticle");
                reveal_strlit("interview");
                assert("encyclopediaArticle"@.len() != "interview"@.len());
            }
            assert("film"@ != "interview"@) by {
                reveal_strlit("film");
                reveal_strlit("interview");
                assert("film"@.len() != "interview"@.len());
            }
            assert("forumPost"@ != "interview"@) by {
                reveal_strlit("forumPost");
                reveal_strlit("interview");
                assert("forumPost"@[0] != "interview"@[0]);
            }
            assert("hearing"@ != "interview"@) by {
                reveal_strlit("hearing");
                reveal_strlit("interview");
                assert("hearing"@.len() != "interview"@.len());
            }
            assert("instantMessage"@ != "interview"@) by {
                reveal_strlit("instantMessage");
                reveal_strlit("interview");
                assert("instantMessage"@.len() != "interview"@.len());
            }
        },
        ItemType::JournalArticle => {
            assert("annotation"@ != "journalArticle"@) by {
                reveal_strlit("annotation");
                reveal_strlit("journalArticle");
                assert("annotation"@.len() != "journalArticle"@.len());
            }
            assert("artwork"@ != "journalArticle"@) by {
                reveal_strlit("artwork");
                reveal_strlit("journalArticle");
                assert("artwork"@.len() != "journalArticle"@.len());
            }
            assert("attachment"@ != "journalArticle"@) by {
                reveal_strlit("attachment");
                reveal_strlit("journalArticle");
                assert("attachment"@.len() != "journalArticle"@.len());
            }
            assert("audioRecording"@ != "journalArticle"@) by {
                reveal_strlit("audioRecording");
                reveal_strlit("journalArticle");
                assert("audioRecording"@[0] != "journalArticle"@[0]);
            }
            assert("bill"@ != "journalArticle"@) by {
                reveal_strlit("bill");
                reveal_strlit("journalArticle");
                assert("bill"@.len() != "journalArticle"@.len());
            }
            assert("blogPost"@ != "journalArticle"@) by {
                reveal_strlit("blogPost");
                reveal_strlit("journalArticle");
                assert("blogPost"@.len() != "journalArticle"@.len());
            }
            assert("book"@ != "journalArticle"@) by {
                reveal_strlit("book");
                reveal_strlit("journalArticle");
                assert("book"@.len() != "journalArticle"@.len());
            }
            assert("bookSection"@ != "journalArticle"@) by {
                reveal_strlit("bookSection");
                reveal_strlit("journalArticle");
                assert("bookSection"@.len() != "journalArticle"@.len());
            }
            assert("case"@ != "journalArticle"@) by {
                reveal_strlit("case");
                reveal_strlit("journalArticle");
                assert("case"@.len() != "journalArticle"@.len());
            }
            assert("computerProgram"@ != "journalArticle"@) by {
                reveal_strlit("computerProgram");
                reveal_strlit("journalArticle");
                assert("computerProgram"@.len() != "journalArticle"@.len());
            }
            assert("conferencePaper"@ != "journalArticle"@) by {
                reveal_strlit("conferencePaper");
                reveal_strlit("journalArticle");
                assert("conferencePaper"@.len() != "journalArticle"@.len());
            }
            assert("dictionaryEntry"@ != "journalArticle"@) by {
                reveal_strlit("dictionaryEntry");
                reveal_strlit("journalArticle");
                assert("dictionaryEntry"@.len() != "journalArticle"@.len());
            }
            assert("document"@ != "journalArticle"@) by {
                reveal_strlit("document");
                reveal_strlit("journalArticle");
                assert("document"@.len() != "journalArticle"@.len());
            }
            assert("email"@ != "journalArticle"@) by {
                reveal_strlit("email");
                reveal_strlit("journalArticle");
                assert("email"@.len() != "journalArticle"@.len());
            }
            assert("encyclopediaArticle"@ != "journalArticle"@) by {
                reveal_strlit("encyclopediaArticle");
                reveal_strlit("journalArticle");
                assert("encyclopediaArticle"@.len() != "journalArticle"@.len());
            }
            assert("film"@ != "journalArticle"@) by {
                reveal_strlit("film");
                reveal_strlit("journalArticle");
                assert("film"@.len() != "journalArticle"@.len());
            }
            assert("forumPost"@ != "journalArticle"@) by {
                reveal_strlit("forumPost");
                reveal_strlit("journalArticle");
                assert("forumPost"@.len() != "journalArticle"@.len());
            }
            assert("hearing"@ != "journalArticle"@) by {
                reveal_strlit("hearing");
                reveal_strlit("journalArticle");
                assert("hearing"@.len() != "journalArticle"@.len());
            }
            assert("instantMessage"@ != "journalArticle"@) by {
                reveal_strlit("instantMessage");
                reveal_strlit("journalArticle");
                assert("instantMessage"@[0] != "journalArticle"@[0]);
            }
            assert("interview"@ != "journalArticle"@) by {
                reveal_strlit("interview");
                reveal_strlit("journalArticle");
                assert("interview"@.len() != "journalArticle"@.len());
            }
        },
        ItemType::Letter => {
            assert("annotation"@ != "letter"@) by {
                reveal_strlit("annotation");
                reveal_strlit("letter");
                assert("annotation"@.len() != "letter"@.len());
            }
            assert("artwork"@ != "letter"@) by {
                reveal_strlit("artwork");
                reveal_strlit("letter");
                assert("artwork"@.len() != "letter"@.len());
            }
            assert("attachment"@ != "letter"@) by {
                reveal_strlit("attachment");
                reveal_strlit("letter");
                assert("attachment"@.len() != "letter"@.len());
            }
            assert("audioRecording"@ != "letter"@) by {
                reveal_strlit("audioRecording");
                reveal_strlit("letter");
                assert("audioRecording"@.len() != "letter"@.len());
            }
            assert("bill"@ != "letter"@) by {
                reveal_strlit("bill");
                reveal_strlit("letter");
                assert("bill"@.len() != "letter"@.len());
            }
            assert("blogPost"@ != "letter"@) by {
                reveal_strlit("blogPost");
                reveal_strlit("letter");
                assert("blogPost"@.len() != "letter"@.len());
            }
            assert("book"@ != "letter"@) by {
                reveal_strlit("book");
                reveal_strlit("letter");
                assert("book"@.len() != "letter"@.len());
            }
            assert("bookSection"@ != "letter"@) by {
                reveal_strlit("bookSection");
                reveal_strlit("letter");
                assert("bookSection"@.len() != "letter"@.len());
            }
            assert("case"@ != "letter"@) by {
                reveal_strlit("case");
                reveal_strlit("letter");
                assert("case"@.len() != "letter"@.len());
            }
            assert("computerProgram"@ != "letter"@) by {
                reveal_strlit("computerProgram");
                reveal_strlit("letter");
                assert("computerProgram"@.len() != "letter"@.len());
            }
            assert("conferencePaper"@ != "letter"@) by {
                reveal_strlit("conferencePaper");
                reveal_strlit("letter");
                assert("conferencePaper"@.len() != "letter"@.len());
            }
            assert("dictionaryEntry"@ != "letter"@) by {
                reveal_strlit("dictionaryEntry");
                reveal_strlit("letter");
                assert("dictionaryEntry"@.len() != "letter"@.len());
            }
            assert("document"@ != "letter"@) by {
                reveal_strlit("document");
                reveal_strlit("letter");
                assert("document"@.len() != "letter"@.len());
            }
            assert("email"@ != "letter"@) by {
                reveal_strlit("email");
                reveal_strlit("letter");
                assert("email"@.len() != "letter"@.len());
            }
            assert("encyclopediaArticle"@ != "letter"@) by {
                reveal_strlit("encyclopediaArticle");
                reveal_strlit("letter");
                assert("encyclopediaArticle"@.len() != "letter"@.len());
            }
            assert("film"@ != "letter"@) by {
                reveal_strlit("film");
                reveal_strlit("letter");
                assert("film"@.len() != "letter"@.len());
            }
            assert("forumPost"@ != "letter"@) by {
                reveal_strlit("forumPost");
                reveal_strlit("letter");
                assert("forumPost"@.len() != "letter"@.len());
            }
            assert("hearing"@ != "letter"@) by {
                reveal_strlit("hearing");
                reveal_strlit("letter");
                assert("hearing"@.len() != "letter"@.len());
            }
            assert("instantMessage"@ != "letter"@) by {
                reveal_strlit("instantMessage");
                reveal_strlit("letter");
                assert("instantMessage"@.len() != "letter"@.len());
            }
            assert("interview"@ != "letter"@) by {
                reveal_strlit("interview");
                reveal_strlit("letter");
                assert("interview"@.len() != "letter"@.len());
            }
            assert("journalArticle"@ != "letter"@) by {
                reveal_strlit("journalArticle");
                reveal_strlit("letter");
                assert("journalArticle"@.len() != "letter"@.len());
            }
        },
        ItemType::MagazineArticle => {
            assert("annotation"@ != "magazineArticle"@) by {
                reveal_strlit("annotation");
                reveal_strlit("magazineArticle");
                assert("annotation"@.len() != "magazineArticle"@.len());
            }
            assert("artwork"@ != "magazineArticle"@) by {
                reveal_strlit("artwork");
                reveal_strlit("magazineArticle");
                assert("artwork"@.len() != "magazineArticle"@.len());
            }
            assert("attachment"@ != "magazineArticle"@) by {
                reveal_strlit("attachment");
                reveal_strlit("magazineArticle");
                assert("attachment"@.len() != "magazineArticle"@.len());
            }
            assert("audioRecording"@ != "magazineArticle"@) by {
                reveal_strlit("audioRecording");
                reveal_strlit("magazineArticle");
                assert("audioRecording"@.len() != "magazineArticle"@.len());
            }
            assert("bill"@ != "magazineArticle"@) by {
                reveal_strlit("bill");
                reveal_strlit("magazineArticle");
                assert("bill"@.len() != "magazineArticle"@.len());
            }
            assert("blogPost"@ != "magazineArticle"@) by {
                reveal_strlit("blogPost");
                reveal_strlit("magazineArticle");
                assert("blogPost"@.len() != "magazineArticle"@.len());
            }
            assert("book"@ != "magazineArticle"@) by {
                reveal_strlit("book");
                reveal_strlit("magazineArticle");
                assert("book"@.len() != "magazineArticle"@.len());
            }
            assert("bookSection"@ != "magazineArticle"@) by {
                reveal_strlit("bookSection");
                reveal_strlit("magazineArticle");
                assert("bookSection"@.len() != "magazineArticle"@.len());
            }
            assert("case"@ != "magazineArticle"@) by {
                reveal_strlit("case");
                reveal_strlit("magazineArticle");
                assert("case"@.len() != "magazineArticle"@.len());
            }
            assert("computerProgram"@ != "magazineArticle"@) by {
                reveal_strlit("computerProgram");
                reveal_strlit("magazineArticle");
                assert("computerProgram"@[0] != "magazineArticle"@[0]);
            }
            assert("conferencePaper"@ != "magazineArticle"@) by {
                reveal_strlit("conferencePaper");
                reveal_strlit("magazineArticle");
                assert("conferencePaper"@[0] != "magazineArticle"@[0]);
            }
            assert("dictionaryEntry"@ != "magazineArticle"@) by {
                reveal_strlit("dictionaryEntry");
                reveal_strlit("magazineArticle");
                assert("dictionaryEntry"@[0] != "magazineArticle"@[0]);
            }
            assert("document"@ != "magazineArticle"@) by {
                reveal_strlit("document");
                reveal_strlit("magazineArticle");
                assert("document"@.len() != "magazineArticle"@.len());
            }
            assert("email"@ != "magazineArticle"@) by {
                reveal_strlit("email");
                reveal_strlit("magazineArticle");
                assert("email"@.len() != "magazineArticle"@.len());
            }
            assert("encyclopediaArticle"@ != "magazineArticle"@) by {
                reveal_strlit("encyclopediaArticle");
                reveal_strlit("magazineArticle");
                assert("encyclopediaArticle"@.len() != "magazineArticle"@.len());
            }
            assert("film"@ != "magazineArticle"@) by {
                reveal_strlit("film");
                reveal_strlit("magazineArticle");
                assert("film"@.len() != "magazineArticle"@.len());
            }
            assert("forumPost"@ != "magazineArticle"@) by {
                reveal_strlit("forumPost");
                reveal_strlit("magazineArticle");
                assert("forumPost"@.len() != "magazineArticle"@.len());
            }
            assert("hearing"@ != "magazineArticle"@) by {
                reveal_strlit("hearing");
                reveal_strlit("magazineArticle");
                assert("hearing"@.len() != "magazineArticle"@.len());
            }
            assert("instantMessage"@ != "magazineArticle"@) by {
                reveal_strlit("instantMessage");
                reveal_strlit("magazineArticle");
                assert("instantMessage"@.len() != "magazineArticle"@.len());
            }
            assert("interview"@ != "magazineArticle"@) by {
                reveal_strlit("interview");
                reveal_strlit("magazineArticle");
                assert("interview"@.len() != "magazineArticle"@.len());
            }
            assert("journalArticle"@ != "magazineArticle"@) by {
                reveal_strlit("journalArticle");
                reveal_strlit("magazineArticle");
                assert("journalArticle"@.len() != "magazineArticle"@.len());
            }
            assert("letter"@ != "magazineArticle"@) by {
                reveal_strlit("letter");
                reveal_strlit("magazineArticle");
                assert("letter"@.len() != "magazineArticle"@.len());
            }
        },
        ItemType::Manuscript => {
            assert("annotation"@ != "manuscript"@) by {
                reveal_strlit("annotation");
                reveal_strlit("manuscript");
                assert("annotation"@[0] != "manuscript"@[0]);
            }
            assert("artwork"@ != "manuscript"@) by {
                reveal_strlit("artwork");
                reveal_strlit("manuscript");
                assert("artwork"@.len() != "manuscript"@.len());
            }
            assert("attachment"@ != "manuscript"@) by {
                reveal_strlit("attachment");
                reveal_strlit("manuscript");
                assert("attachment"@[0] != "manuscript"@[0]);
            }
            assert("audioRecording"@ != "manuscript"@) by {
                reveal_strlit("audioRecording");
                reveal_strlit("manuscript");
                assert("audioRecording"@.len() != "manuscript"@.len());
            }
            assert("bill"@ != "manuscript"@) by {
                reveal_strlit("bill");
                reveal_strlit("manuscript");
                assert("bill"@.len() != "manuscript"@.len());
            }
            assert("blogPost"@ != "manuscript"@) by {
                reveal_strlit("blogPost");
                reveal_strlit("manuscript");
                assert("blogPost"@.len() != "manuscript"@.len());
            }
            assert("book"@ != "manuscript"@) by {
                reveal_strlit("book");
                reveal_strlit("manuscript");
                assert("book"@.len() != "manuscript"@.len());
            }
            assert("bookSection"@ != "manuscript"@) by {
                reveal_strlit("bookSection");
                reveal_strlit("manuscript");
                assert("bookSection"@.len() != "manuscript"@.len());
            }
            assert("case"@ != "manuscript"@) by {
                reveal_strlit("case");
                reveal_strlit("manuscript");
                assert("case"@.len() != "manuscript"@.len());
            }
            assert("computerProgram"@ != "manuscript"@) by {
                reveal_strlit("computerProgram");
                reveal_strlit("manuscript");
                assert("computerProgram"@.len() != "manuscript"@.len());
            }
            assert("conferencePaper"@ != "manuscript"@) by {
                reveal_strlit("conferencePaper");
                reveal_strlit("manuscript");
                assert("conferencePaper"@.len() != "manuscript"@.len());
            }
            assert("dictionaryEntry"@ != "manuscript"@) by {
                reveal_strlit("dictionaryEntry");
                reveal_strlit("manuscript");
                assert("dictionaryEntry"@.len() != "manuscript"@.len());
            }
            assert("document"@ != "manuscript"@) by {
                reveal_strlit("document");
                reveal_strlit("manuscript");
                assert("document"@.len() != "manuscript"@.len());
            }
            assert("email"@ != "manuscript"@) by {
                reveal_strlit("email");
                reveal_strlit("manuscript");
                assert("email"@.len() != "manuscript"@.len());
            }
            assert("encyclopediaArticle"@ != "manuscript"@) by {
                reveal_strlit("encyclopediaArticle");
                reveal_strlit("manuscript");
                assert("encyclopediaArticle"@.len() != "manuscript"@.len());
            }
            assert("film"@ != "manuscript"@) by {
                reveal_strlit("film");
                reveal_strlit("manuscript");
                assert("film"@.len() != "manuscript"@.len());
            }
            assert("forumPost"@ != "manuscript"@) by {
                reveal_strlit("forumPost");
                reveal_strlit("manuscript");
                assert("forumPost"@.len() != "manuscript"@.len());
            }
            assert("hearing"@ != "manuscript"@) by {
                reveal_strlit("hearing");
                reveal_strlit("manuscript");
                assert("hearing"@.len() != "manuscript"@.len());
            }
            assert("instantMessage"@ != "manuscript"@) by {
                reveal_strlit("instantMessage");
                reveal_strlit("manuscript");
                assert("instantMessage"@.len() != "manuscript"@.len());
            }
            assert("interview"@ != "manuscript"@) by {
                reveal_strlit("interview");
                reveal_strlit("manuscript");
                assert("interview"@.len() != "manuscript"@.len());
            }
            assert("journalArticle"@ != "manuscript"@) by {
                reveal_strlit("journalArticle");
                reveal_strlit("manuscript");
                assert("journalArticle"@.len() != "manuscript"@.len());
            }
            assert("letter"@ != "manuscript"@) by {
                reveal_strlit("letter");
                reveal_strlit("manuscript");
                assert("letter"@.len() != "manuscript"@.len());
            }
            assert("magazineArticle"@ != "manuscript"@) by {
                reveal_strlit("magazineArticle");
                reveal_strlit("manuscript");
                assert("magazineArticle"@.len() != "manuscript"@.len());
            }
        },
        ItemType::MapItem => {
            assert("annotation"@ != "map"@) by {
                reveal_strlit("annotation");
                reveal_strlit("map");
                assert("annotation"@.len() != "map"@.len());
            }
            assert("artwork"@ != "map"@) by {
                reveal_strlit("artwork");
                reveal_strlit("map");
                assert("artwork"@.len() != "map"@.len());
            }
            assert("attachment"@ != "map"@) by {
                reveal_strlit("attachment");
                reveal_strlit("map");
                assert("attachment"@.len() != "map"@.len());
            }
            assert("audioRecording"@ != "map"@) by {
                reveal_strlit("audioRecording");
                reveal_strlit("map");
                assert("audioRecording"@.len() != "map"@.len());
            }
            assert("bill"@ != "map"@) by {
                reveal_strlit("bill");
                reveal_strlit("map");
                assert("bill"@.len() != "map"@.len());
            }
            assert("blogPost"@ != "map"@) by {
                reveal_strlit("blogPost");
                reveal_strlit("map");
                assert("blogPost"@.len() != "map"@.len());
            }
            assert("book"@ != "map"@) by {
                reveal_strlit("book");
                reveal_strlit("map");
                assert("book"@.len() != "map"@.len());
            }
            assert("bookSection"@ != "map"@) by {
                reveal_strlit("bookSection");
                reveal_strlit("map");
                assert("bookSection"@.len() != "map"@.len());
            }
            assert("case"@ != "map"@) by {
                reveal_strlit("case");
                reveal_strlit("map");
                assert("case"@.len() != "map"@.len());
            }
            assert("computerProgram"@ != "map"@) by {
                reveal_strlit("computerProgram");
                reveal_strlit("map");
                assert("computerProgram"@.len() != "map"@.len());
            }
            assert("conferencePaper"@ != "map"@) by {
                reveal_strlit("conferencePaper");
                reveal_strlit("map");
                assert("conferencePaper"@.len() != "map"@.len());
            }
            assert("dictionaryEntry"@ != "map"@) by {
                reveal_strlit("dictionaryEntry");
                reveal_strlit("map");
                assert("dictionaryEntry"@.len() != "map"@.len());
            }
            assert("document"@ != "map"@) by {
                reveal_strlit("document");
                reveal_strlit("map");
                assert("document"@.len() != "map"@.len());
            }
            assert("email"@ != "map"@) by {
                reveal_strlit("email");
                reveal_strlit("map");
                assert("email"@.len() != "map"@.len());
            }
            assert("encyclopediaArticle"@ != "map"@) by {
                reveal_strlit("encyclopediaArticle");
                reveal_strlit("map");
                assert("encyclopediaArticle"@.len() != "map"@.len());
            }
            assert("film"@ != "map"@) by {
                reveal_strlit("film");
                reveal_strlit("map");
                assert("film"@.len() != "map"@.len());
            }
            assert("forumPost"@ != "map"@) by {
                reveal_strlit("forumPost");
                reveal_strlit("map");
                assert("forumPost"@.len() != "map"@.len());
            }
            assert("hearing"@ != "map"@) by {
                reveal_strlit("hearing");
                reveal_strlit("map");
                assert("hearing"@.len() != "map"@.len());
            }
            assert("instantMessage"@ != "map"@) by {
                reveal_strlit("instantMessage");
                reveal_strlit("map");
                assert("instantMessage"@.len() != "map"@.len());
            }
            assert("interview"@ != "map"@) by {
                reveal_strlit("interview");
                reveal_strlit("map");
                assert("interview"@.len() != "map"@.len());
            }
            assert("journalArticle"@ != "map"@) by {
                reveal_strlit("journalArticle");
                reveal_strlit("map");
                assert("journalArticle"@.len() != "map"@.len());
            }
            assert("letter"@ != "map"@) by {
                reveal_strlit("letter");
                reveal_strlit("map");
                assert("letter"@.len() != "map"@.len());
            }
            assert("magazineArticle"@ != "map"@) by {
                reveal_strlit("magazineArticle");
                reveal_strlit("map");
                assert("magazineArticle"@.len() != "map"@.len());
            }
            assert("manuscript"@ != "map"@) by {
                reveal_strlit("manuscript");
                reveal_strlit("map");
                assert("manuscript"@.len() != "map"@.len());
            }
        },
        ItemType::NewspaperArticle => {
            assert("annotation"@ != "newspaperArticle"@) by {
                reveal_strlit("annotation");
                reveal_strlit("newspaperArticle");
                assert("annotation"@.len() != "newspaperArticle"@.len());
            }
            assert("artwork"@ != "newspaperArticle"@) by {
                reveal_strlit("artwork");
                reveal_strlit("newspaperArticle");
                assert("artwork"@.len() != "newspaperArticle"@.len());
            }
            assert("attachment"@ != "newspaperArticle"@) by {
                reveal_strlit("attachment");
                reveal_strlit("newspaperArticle");
                assert("attachment"@.len() != "newspaperArticle"@.len());
            }
            assert("audioRecording"@ != "newspaperArticle"@) by {
                reveal_strlit("audioRecording");
                reveal_strlit("newspaperArticle");
                assert("audioRecording"@.len() != "newspaperArticle"@.len());
            }
            assert("bill"@ != "newspaperArticle"@) by {
                reveal_strlit("bill");
                reveal_strlit("newspaperArticle");
                assert("bill"@.len() != "newspaperArticle"@.len());
            }
            assert("blogPost"@ != "newspaperArticle"@) by {
                reveal_strlit("blogPost");
                reveal_strlit("newspaperArticle");
                assert("blogPost"@.len() != "newspaperArticle"@.len());
            }
            assert("book"@ != "newspaperArticle"@) by {
                reveal_strlit("book");
                reveal_strlit("newspaperArticle");
                assert("book"@.len() != "newspaperArticle"@.len());
            }
            assert("bookSection"@ != "newspaperArticle"@) by {
                reveal_strlit("bookSection");
                reveal_strlit("newspaperArticle");
                assert("bookSection"@.len() != "newspaperArticle"@.len());
            }
            assert("case"@ != "newspaperArticle"@) by {
                reveal_strlit("case");
                reveal_strlit("newspaperArticle");
                assert("case"@.len() != "newspaperArticle"@.len());
            }
            assert("computerProgram"@ != "newspaperArticle"@) by {
                reveal_strlit("computerProgram");
                reveal_strlit("newspaperArticle");
                assert("computerProgram"@.len() != "newspaperArticle"@.len());
            }
            assert("conferencePaper"@ != "newspaperArticle"@) by {
                reveal_strlit("conferencePaper");
                reveal_strlit("newspaperArticle");
                assert("conferencePaper"@.len() != "newspaperArticle"@.len());
            }
            assert("dictionaryEntry"@ != "newspaperArticle"@) by {
                reveal_strlit("dictionaryEntry");
                reveal_strlit("newspaperArticle");
                assert("dictionaryEntry"@.len() != "newspaperArticle"@.len());
            }
            assert("document"@ != "newspaperArticle"@) by {
                reveal_strlit("document");
                reveal_strlit("newspaperArticle");
                assert("document"@.len() != "newspaperArticle"@.len());
            }
            assert("email"@ != "newspaperArticle"@) by {
                reveal_strlit("email");
                reveal_strlit("newspaperArticle");
                assert("email"@.len() != "newspaperArticle"@.len());
            }
            assert("encyclopediaArticle"@ != "newspaperArticle"@) by {
                reveal_strlit("encyclopediaArticle");
                reveal_strlit("newspaperArticle");
                assert("encyclopediaArticle"@.len() != "newspaperArticle"@.len());
            }
            assert("film"@ != "newspaperArticle"@) by {
                reveal_strlit("film");
                reveal_strlit("newspaperArticle");
                assert("film"@.len() != "newspaperArticle"@.len());
            }
            assert("forumPost"@ != "newspaperArticle"@) by {
                reveal_strlit("forumPost");
                reveal_strlit("newspaperArticle");
                assert("forumPost"@.len() != "newspaperArticle"@.len());
            }
            assert("hearing"@ != "newspaperArticle"@) by {
                reveal_strlit("hearing");
                reveal_strlit("newspaperArticle");
                assert("hearing"@.len() != "newspaperArticle"@.len());
            }
            assert("instantMessage"@ != "newspaperArticle"@) by {
                reveal_strlit("instantMessage");
                reveal_strlit("newspaperArticle");
                assert("instantMessage"@.len() != "newspaperArticle"@.len());
            }
            assert("interview"@ != "newspaperArticle"@) by {
                reveal_strlit("interview");
                reveal_strlit("newspaperArticle");
                assert("interview"@.len() != "newspaperArticle"@.len());
            }
            assert("journalArticle"@ != "newspaperArticle"@) by {
                reveal_strlit("journalArticle");
                reveal_strlit("newspaperArticle");
                assert("journalArticle"@.len() != "newspaperArticle"@.len());
            }
            assert("letter"@ != "newspaperArticle"@) by {
                reveal_strlit("letter");
                reveal_strlit("newspaperArticle");
                assert("letter"@.len() != "newspaperArticle"@.len());
            }
            assert("magazineArticle"@ != "newspaperArticle"@) by {
                reveal_strlit("magazineArticle");
                reveal_strlit("newspaperArticle");
                assert("magazineArticle"@.len() != "newspaperArticle"@.len());
            }
            assert("manuscript"@ != "newspaperArticle"@) by {
                reveal_strlit("manuscript");
                reveal_strlit("newspaperArticle");
                assert("manuscript"@.len() != "newspaperArticle"@.len());
            }
            assert("map"@ != "newspaperArticle"@) by {
                reveal_strlit("map");
                reveal_strlit("newspaperArticle");
                assert("map"@.len() != "newspaperArticle"@.len());
            }
        },
        ItemType::Note => {
            assert("annotation"@ != "note"@) by {
                reveal_strlit("annotation");
                reveal_strlit("note");
                assert("annotation"@.len() != "note"@.len());
            }
            assert("artwork"@ != "note"@) by {
                reveal_strlit("artwork");
                reveal_strlit("note");
                assert("artwork"@.len() != "note"@.len());
            }
            assert("attachment"@ != "note"@) by {
                reveal_strlit("attachment");
                reveal_strlit("note");
                assert("attachment"@.len() != "note"@.len());
            }
            assert("audioRecording"@ != "note"@) by {
                reveal_strlit("audioRecording");
                reveal_strlit("note");
                assert("audioRecording"@.len() != "note"@.len());
            }
            assert("bill"@ != "note"@) by {
                reveal_strlit("bill");
                reveal_strlit("note");
                assert("bill"@[0] != "note"@[0]);
            }
            assert("blogPost"@ != "note"@) by {
                reveal_strlit("blogPost");
                reveal_strlit("note");
                assert("blogPost"@.len() != "note"@.len());
            }
            assert("book"@ != "note"@) by {
                reveal_strlit("book");
                reveal_strlit("note");
                assert("book"@[0] != "note"@[0]);
            }
            assert("bookSection"@ != "note"@) by {
                reveal_strlit("bookSection");
                reveal_strlit("note");
                assert("bookSection"@.len() != "note"@.len());
            }
            assert("case"@ != "note"@) by {
                reveal_strlit("case");
                reveal_strlit("note");
                assert("case"@[0] != "note"@[0]);
            }
            assert("computerProgram"@ != "note"@) by {
                reveal_strlit("computerProgram");
                reveal_strlit("note");
                assert("computerProgram"@.len() != "note"@.len());
            }
            assert("conferencePaper"@ != "note"@) by {
                reveal_strlit("conferencePaper");
                reveal_strlit("note");
                assert("conferencePaper"@.len() != "note"@.len());
            }
            assert("dictionaryEntry"@ != "note"@) by {
                reveal_strlit("dictionaryEntry");
                reveal_strlit("note");
                assert("dictionaryEntry"@.len() != "note"@.len());
            }
            assert("document"@ != "note"@) by {
                reveal_strlit("document");
                reveal_strlit("note");
                assert("document"@.len() != "note"@.len());
            }
            assert("email"@ != "note"@) by {
                reveal_strlit("email");
                reveal_strlit("note");
                assert("email"@.len() != "note"@.len());
            }
            assert("encyclopediaArticle"@ != "note"@) by {
                reveal_strlit("encyclopediaArticle");
                reveal_strlit("note");
                assert("encyclopediaArticle"@.len() != "note"@.len());
            }
            assert("film"@ != "note"@) by {
                reveal_strlit("film");
                reveal_strlit("note");
                assert("film"@[0] != "note"@[0]);
            }
            assert("forumPost"@ != "note"@) by {
                reveal_strlit("forumPost");
                reveal_strlit("note");
                assert("forumPost"@.len() != "note"@.len());
            }
            assert("hearing"@ != "note"@) by {
                reveal_strlit("hearing");
                reveal_strlit("note");
                assert("hearing"@.len() != "note"@.len());
            }
            assert("instantMessage"@ != "note"@) by {
                reveal_strlit("instantMessage");
                reveal_strlit("note");
                assert("instantMessage"@.len() != "note"@.len());
            }
            assert("interview"@ != "note"@) by {
                reveal_strlit("interview");
                reveal_strlit("note");
                assert("interview"@.len() != "note"@.len());
            }
            assert("journalArticle"@ != "note"@) by {
                reveal_strlit("journalArticle");
                reveal_strlit("note");
                assert("journalArticle"@.len() != "note"@.len());
            }
            assert("letter"@ != "note"@) by {
                reveal_strlit("letter");
                reveal_strlit("note");
                assert("letter"@.len() != "note"@.len());
            }
            assert("magazineArticle"@ != "note"@) by {
                reveal_strlit("magazineArticle");
                reveal_strlit("note");
                assert("magazineArticle"@.len() != "note"@.len());
            }
            assert("manuscript"@ != "note"@) by {
                reveal_strlit("manuscript");
                reveal_strlit("note");
                assert("manuscript"@.len() != "note"@.len());
            }
            assert("map"@ != "note"@) by {
                reveal_strlit("map");
                reveal_strlit("note");
                assert("map"@.len() != "note"@.len());
            }
            assert("newspaperArticle"@ != "note"@) by {
                reveal_strlit("newspaperArticle");
                reveal_strlit("note");
                assert("newspaperArticle"@.len() != "note"@.len());
            }
        },
        ItemType::Patent => {
            assert("annotation"@ != "patent"@) by {
                reveal_strlit("annotation");
                reveal_strlit("patent");
                assert("annotation"@.len() != "patent"@.len());
            }
            assert("artwork"@ != "patent"@) by {
                reveal_strlit("artwork");
                reveal_strlit("patent");
                assert("artwork"@.len() != "patent"@.len());
            }
            assert("attachment"@ != "patent"@) by {
                reveal_strlit("attachment");
                reveal_strlit("patent");
                assert("attachment"@.len() != "patent"@.len());
            }
            assert("audioRecording"@ != "patent"@) by {
                reveal_strlit("audioRecording");
                reveal_strlit("patent");
                assert("audioRecording"@.len() != "patent"@.len());
            }
            assert("bill"@ != "patent"@) by {
                reveal_strlit("bill");
                reveal_strlit("patent");
                assert("bill"@.len() != "patent"@.len());
            }
            assert("blogPost"@ != "patent"@) by {
                reveal_strlit("blogPost");
                reveal_strlit("patent");
                assert("blogPost"@.len() != "patent"@.len());
            }
            assert("book"@ != "patent"@) by {
                reveal_strlit("book");
                reveal_strlit("patent");
                assert("book"@.len() != "patent"@.len());
            }
            assert("bookSection"@ != "patent"@) by {
                reveal_strlit("bookSection");
                reveal_strlit("patent");
                assert("bookSection"@.len() != "patent"@.len());
            }
            assert("case"@ != "patent"@) by {
                reveal_strlit("case");
                reveal_strlit("patent");
                assert("case"@.len() != "patent"@.len());
            }
            assert("computerProgram"@ != "patent"@) by {
                reveal_strlit("computerProgram");
                reveal_strlit("patent");
                assert("computerProgram"@.len() != "patent"@.len());
            }
            assert("conferencePaper"@ != "patent"@) by {
                reveal_strlit("conferencePaper");
                reveal_strlit("patent");
                assert("conferencePaper"@.len() != "patent"@.len());
            }
            assert("dictionaryEntry"@ != "patent"@) by {
                reveal_strlit("dictionaryEntry");
                reveal_strlit("patent");
                assert("dictionaryEntry"@.len() != "patent"@.len());
            }
            assert("document"@ != "patent"@) by {
                reveal_strlit("document");
                reveal_strlit("patent");
                assert("document"@.len() != "patent"@.len());
            }
            assert("email"@ != "patent"@) by {
                reveal_strlit("email");
                reveal_strlit("patent");
                assert("email"@.len() != "patent"@.len());
            }
            assert("encyclopediaArticle"@ != "patent"@) by {
                reveal_strlit("encyclopediaArticle");
                reveal_strlit("patent");
                assert("encyclopediaArticle"@.len() != "patent"@.len());
            }
            assert("film"@ != "patent"@) by {
                reveal_strlit("film");
                reveal_strlit("patent");
                assert("film"@.len() != "patent"@.len());
            }
            assert("forumPost"@ != "patent"@) by {
                reveal_strlit("forumPost");
                reveal_strlit("patent");
                assert("forumPost"@.len() != "patent"@.len());
            }
            assert("hearing"@ != "patent"@) by {
                reveal_strlit("hearing");
                reveal_strlit("patent");
                assert("hearing"@.len() != "patent"@.len());
            }
            assert("instantMessage"@ != "patent"@) by {
                reveal_strlit("instantMessage");
                reveal_strlit("patent");
                assert("instantMessage"@.len() != "patent"@.len());
            }
            assert("interview"@ != "patent"@) by {
                reveal_strlit("interview");
                reveal_strlit("patent");
                assert("interview"@.len() != "patent"@.len());
            }
            assert("journalArticle"@ != "patent"@) by {
                reveal_strlit("journalArticle");
                reveal_strlit("patent");
                assert("journalArticle"@.len() != "patent"@.len());
            }
            assert("letter"@ != "patent"@) by {
                reveal_strlit("letter");
                reveal_strlit("patent");
                assert("letter"@[0] != "patent"@[0]);
            }
            assert("magazineArticle"@ != "patent"@) by {
                reveal_strlit("magazineArticle");
                reveal_strlit("patent");
                assert("magazineArticle"@.len() != "patent"@.len());
            }
            assert("manuscript"@ != "patent"@) by {
                reveal_strlit("manuscript");
                reveal_strlit("patent");
                assert("manuscript"@.len() != "patent"@.len());
            }
            assert("map"@ != "patent"@) by {
                reveal_strlit("map");
                reveal_strlit("patent");
                assert("map"@.len() != "patent"@.len());
            }
            assert("newspaperArticle"@ != "patent"@) by {
                reveal_strlit("newspaperArticle");
                reveal_strlit("patent");
                assert("newspaperArticle"@.len() != "patent"@.len());
            }
            assert("note"@ != "patent"@) by {
                reveal_strlit("note");
                reveal_strlit("patent");
                assert("note"@.len() != "patent"@.len());
            }
        },
        ItemType::Podcast => {
            assert("annotation"@ != "podcast"@) by {
                reveal_strlit("annotation");
                reveal_strlit("podcast");
                assert("annotation"@.len() != "podcast"@.len());
            }
            assert("artwork"@ != "podcast"@) by {
                reveal_strlit("artwork");
                reveal_strlit("podcast");
                assert("artwork"@[0] != "podcast"@[0]);
            }
            assert("attachment"@ != "podcast"@) by {
                reveal_strlit("attachment");
                reveal_strlit("podcast");
                assert("attachment"@.len() != "podcast"@.len());
            }
            assert("audioRecording"@ != "podcast"@) by {
                reveal_strlit("audioRecording");
                reveal_strlit("podcast");
                assert("audioRecording"@.len() != "podcast"@.len());
            }
            assert("bill"@ != "podcast"@) by {
                reveal_strlit("bill");
                reveal_strlit("podcast");
                assert("bill"@.len() != "podcast"@.len());
            }
            assert("blogPost"@ != "podcast"@) by {
                reveal_strlit("blogPost");
                reveal_strlit("podcast");
                assert("blogPost"@.len() != "podcast"@.len());
            }
            assert("book"@ != "podcast"@) by {
                reveal_strlit("book");
                reveal_strlit("podcast");
                assert("book"@.len() != "podcast"@.len());
            }
            assert("bookSection"@ != "podcast"@) by {
                reveal_strlit("bookSection");
                reveal_strlit("podcast");
                assert("bookSection"@.len() != "podcast"@.len());
            }
            assert("case"@ != "podcast"@) by {
                reveal_strlit("case");
                reveal_strlit("podcast");
                assert("case"@.len() != "podcast"@.len());
            }
            assert("computerProgram"@ != "podcast"@) by {
                reveal_strlit("computerProgram");
                reveal_strlit("podcast");
                assert("computerProgram"@.len() != "podcast"@.len());
            }
            assert("conferencePaper"@ != "podcast"@) by {
                reveal_strlit("conferencePaper");
                reveal_strlit("podcast");
                assert("conferencePaper"@.len() != "podcast"@.len());
            }
            assert("dictionaryEntry"@ != "podcast"@) by {
                reveal_strlit("dictionaryEntry");
                reveal_strlit("podcast");
                assert("dictionaryEntry"@.len() != "podcast"@.len());
            }
            assert("document"@ != "podcast"@) by {
                reveal_strlit("document");
                reveal_strlit("podcast");
                assert("document"@.len() != "podcast"@.len());
            }
            assert("email"@ != "podcast"@) by {
                reveal_strlit("email");
                reveal_strlit("podcast");
                assert("email"@.len() != "podcast"@.len());
            }
            assert("encyclopediaArticle"@ != "podcast"@) by {
                reveal_strlit("encyclopediaArticle");
                reveal_strlit("podcast");
                assert("encyclopediaArticle"@.len() != "podcast"@.len());
            }
            assert("film"@ != "podcast"@) by {
                reveal_strlit("film");
                reveal_strlit("podcast");
                assert("film"@.len() != "podcast"@.len());
            }
            assert("forumPost"@ != "podcast"@) by {
                reveal_strlit("forumPost");
                reveal_strlit("podcast");
                assert("forumPost"@.len() != "podcast"@.len());
            }
            assert("hearing"@ != "podcast"@) by {
                reveal_strlit("hearing");
                reveal_strlit("podcast");
                assert("hearing"@[0] != "podcast"@[0]);
            }
            assert("instantMessage"@ != "podcast"@) by {
                reveal_strlit("instantMessage");
                reveal_strlit("podcast");
                assert("instantMessage"@.len() != "podcast"@.len());
            }
            assert("interview"@ != "podcast"@) by {
                reveal_strlit("interview");
                reveal_strlit("podcast");
                assert("interview"@.len() != "podcast"@.len());
            }
            assert("journalArticle"@ != "podcast"@) by {
                reveal_strlit("journalArticle");
                reveal_strlit("podcast");
                assert("journalArticle"@.len() != "podcast"@.len());
            }
            assert("letter"@ != "podcast"@) by {
                reveal_strlit("letter");
                reveal_strlit("podcast");
                assert("letter"@.len() != "podcast"@.len());
            }
            assert("magazineArticle"@ != "podcast"@) by {
                reveal_strlit("magazineArticle");
                reveal_strlit("podcast");
                assert("magazineArticle"@.len() != "podcast"@.len());
            }
            assert("manuscript"@ != "podcast"@) by {
                reveal_strlit("manuscript");
                reveal_strlit("podcast");
                assert("manuscript"@.len() != "podcast"@.len());
            }
            assert("map"@ != "podcast"@) by {
                reveal_strlit("map");
                reveal_strlit("podcast");
                assert("map"@.len() != "podcast"@.len());
            }
            assert("newspaperArticle"@ != "podcast"@) by {
                reveal_strlit("newspaperArticle");
                reveal_strlit("podcast");
                assert("newspaperArticle"@.len() != "podcast"@.len());
            }
            assert("note"@ != "podcast"@) by {
                reveal_strlit("note");
                reveal_strlit("podcast");
                assert("note"@.len() != "podcast"@.len());
            }
            assert("patent"@ != "podcast"@) by {
                reveal_strlit("patent");
                reveal_strlit("podcast");
                assert("patent"@.len() != "podcast"@.len());
            }
        },
        ItemType::Preprint => {
            assert("annotation"@ != "preprint"@) by {
                reveal_strlit("annotation");
                reveal_strlit("preprint");
                assert("annotation"@.len() != "preprint"@.len());
            }
            assert("artwork"@ != "preprint"@) by {
                reveal_strlit("artwork");
                reveal_strlit("preprint");
                assert("artwork"@.len() != "preprint"@.len());
            }
            assert("attachment"@ != "preprint"@) by {
                reveal_strlit("attachment");
                reveal_strlit("preprint");
                assert("attachment"@.len() != "preprint"@.len());
            }
            assert("audioRecording"@ != "preprint"@) by {
                reveal_strlit("audioRecording");
                reveal_strlit("preprint");
                assert("audioRecording"@.len() != "preprint"@.len());
            }
            assert("bill"@ != "preprint"@) by {
                reveal_strlit("bill");
                reveal_strlit("preprint");
                assert("bill"@.len() != "preprint"@.len());
            }
            assert("blogPost"@ != "preprint"@) by {
                reveal_strlit("blogPost");
                reveal_strlit("preprint");
                assert("blogPost"@[0] != "preprint"@[0]);
            }
            assert("book"@ != "preprint"@) by {
                reveal_strlit("book");
                reveal_strlit("preprint");
                assert("book"@.len() != "preprint"@.len());
            }
            assert("bookSection"@ != "preprint"@) by {
                reveal_strlit("bookSection");
                reveal_strlit("preprint");
                assert("bookSection"@.len() != "preprint"@.len());
            }
            assert("case"@ != "preprint"@) by {
                reveal_strlit("case");
                reveal_strlit("preprint");
                assert("case"@.len() != "preprint"@.len());
            }
            assert("computerProgram"@ != "preprint"@) by {
                reveal_strlit("computerProgram");
                reveal_strlit("preprint");
                assert("computerProgram"@.len() != "preprint"@.len());
            }
            assert("conferencePaper"@ != "preprint"@) by {
                reveal_strlit("conferencePaper");
                reveal_strlit("preprint");
                assert("conferencePaper"@.len() != "preprint"@.len());
            }
            assert("dictionaryEntry"@ != "preprint"@) by {
                reveal_strlit("dictionaryEntry");
                reveal_strlit("preprint");
                assert("dictionaryEntry"@.len() != "preprint"@.len());
            }
            assert("document"@ != "preprint"@) by {
                reveal_strlit("document");
                reveal_strlit("preprint");
                assert("document"@[0] != "preprint"@[0]);
            }
            assert("email"@ != "preprint"@) by {
                reveal_strlit("email");
                reveal_strlit("preprint");
                assert("email"@.len() != "preprint"@.len());
            }
            assert("encyclopediaArticle"@ != "preprint"@) by {
                reveal_strlit("encyclopediaArticle");
                reveal_strlit("preprint");
                assert("encyclopediaArticle"@.len() != "preprint"@.len());
            }
            assert("film"@ != "preprint"@) by {
                reveal_strlit("film");
                reveal_strlit("preprint");
                assert("film"@.len() != "preprint"@.len());
            }
            assert("forumPost"@ != "preprint"@) by {
                reveal_strlit("forumPost");
                reveal_strlit("preprint");
                assert("forumPost"@.len() != "preprint"@.len());
            }
            assert("hearing"@ != "preprint"@) by {
                reveal_strlit("hearing");
                reveal_strlit("preprint");
                assert("hearing"@.len() != "preprint"@.len());
            }
            assert("instantMessage"@ != "preprint"@) by {
                reveal_strlit("instantMessage");
                reveal_strlit("preprint");
                assert("instantMessage"@.len() != "preprint"@.len());
            }
            assert("interview"@ != "preprint"@) by {
                reveal_strlit("interview");
                reveal_strlit("preprint");
                assert("interview"@.len() != "preprint"@.len());
            }
            assert("journalArticle"@ != "preprint"@) by {
                reveal_strlit("journalArticle");
                reveal_strlit("preprint");
                assert("journalArticle"@.len() != "preprint"@.len());
            }
            assert("letter"@ != "preprint"@) by {
                reveal_strlit("letter");
                reveal_strlit("preprint");
                assert("letter"@.len() != "preprint"@.len());
            }
            assert("magazineArticle"@ != "preprint"@) by {
                reveal_strlit("magazineArticle");
                reveal_strlit("preprint");
                assert("magazineArticle"@.len() != "preprint"@.len());
            }
            assert("manuscript"@ != "preprint"@) by {
                reveal_strlit("manuscript");
                reveal_strlit("preprint");
                assert("manuscript"@.len() != "preprint"@.len());
            }
            assert("map"@ != "preprint"@) by {
                reveal_strlit("map");
                reveal_strlit("preprint");
                assert("map"@.len() != "preprint"@.len());
            }
            assert("newspaperArticle"@ != "preprint"@) by {
                reveal_strlit("newspaperArticle");
                reveal_strlit("preprint");
                assert("newspaperArticle"@.len() != "preprint"@.len());
            }
            assert("note"@ != "preprint"@) by {
                reveal_strlit("note");
                reveal_strlit("preprint");
                assert("note"@.len() != "preprint"@.len());
            }
            assert("patent"@ != "preprint"@) by {
                reveal_strlit("patent");
                reveal_strlit("preprint");
                assert("patent"@.len() != "preprint"@.len());
            }
            assert("podcast"@ != "preprint"@) by {
                reveal_strlit("podcast");
                reveal_strlit("preprint");
                assert("podcast"@.len() != "preprint"@.len());
            }
        },
        ItemType::Presentation => {
            assert("annotation"@ != "presentation"@) by {
                reveal_strlit("annotation");
                reveal_strlit("presentation");
                assert("annotation"@.len() != "presentation"@.len());
            }
            assert("artwork"@ != "presentation"@) by {
                reveal_strlit("artwork");
                reveal_strlit("presentation");
                assert("artwork"@.len() != "presentation"@.len());
            }
            assert("attachment"@ != "presentation"@) by {
                reveal_strlit("attachment");
                reveal_strlit("presentation");
                assert("attachment"@.len() != "presentation"@.len());
            }
            assert("audioRecording"@ != "presentation"@) by {
                reveal_strlit("audioRecording");
                reveal_strlit("presentation");
                assert("audioRecording"@.len() != "presentation"@.len());
            }
            assert("bill"@ != "presentation"@) by {
                reveal_strlit("bill");
                reveal_strlit("presentation");
                assert("bill"@.len() != "presentation"@.len());
            }
            assert("blogPost"@ != "presentation"@) by {
                reveal_strlit("blogPost");
                reveal_strlit("presentation");
                assert("blogPost"@.len() != "presentation"@.len());
            }
            assert("book"@ != "presentation"@) by {
                reveal_strlit("book");
                reveal_strlit("presentation");
                assert("book"@.len() != "presentation"@.len());
            }
            assert("bookSection"@ != "presentation"@) by {
                reveal_strlit("bookSection");
                reveal_strlit("presentation");
                assert("bookSection"@.len() != "presentation"@.len());
            }
            assert("case"@ != "presentation"@) by {
                reveal_strlit("case");
                reveal_strlit("presentation");
                assert("case"@.len() != "presentation"@.len());
            }
            assert("computerProgram"@ != "presentation"@) by {
                reveal_strlit("computerProgram");
                reveal_strlit("presentation");
                assert("computerProgram"@.len() != "presentation"@.len());
            }
            assert("conferencePaper"@ != "presentation"@) by {
                reveal_strlit("conferencePaper");
                reveal_strlit("presentation");
                assert("conferencePaper"@.len() != "presentation"@.len());
            }
            assert("dictionaryEntry"@ != "presentation"@) by {
                reveal_strlit("dictionaryEntry");
                reveal_strlit("presentation");
                assert("dictionaryEntry"@.len() != "presentation"@.len());
            }
            assert("document"@ != "presentation"@) by {
                reveal_strlit("document");
                reveal_strlit("presentation");
                assert("document"@.len() != "presentation"@.len());
            }
            assert("email"@ != "presentation"@) by {
                reveal_strlit("email");
                reveal_strlit("presentation");
                assert("email"@.len() != "presentation"@.len());
            }
            assert("encyclopediaArticle"@ != "presentation"@) by {
                reveal_strlit("encyclopediaArticle");
                reveal_strlit("presentation");
                assert("encyclopediaArticle"@.len() != "presentation"@.len());
            }
            assert("film"@ != "presentation"@) by {
                reveal_strlit("film");
                reveal_strlit("presentation");
                assert("film"@.len() != "presentation"@.len());
            }
            assert("forumPost"@ != "presentation"@) by {
                reveal_strlit("forumPost");
                reveal_strlit("presentation");
                assert("forumPost"@.len() != "presentation"@.len());
            }
            assert("hearing"@ != "presentation"@) by {
                reveal_strlit("hearing");
                reveal_strlit("presentation");
                assert("hearing"@.len() != "presentation"@.len());
            }
            assert("instantMessage"@ != "presentation"@) by {
                reveal_strlit("instantMessage");
                reveal_strlit("presentation");
                assert("instantMessage"@.len() != "presentation"@.len());
            }
            assert("interview"@ != "presentation"@) by {
                reveal_strlit("interview");
                reveal_strlit("presentation");
                assert("interview"@.len() != "presentation"@.len());
            }
            assert("journalArticle"@ != "presentation"@) by {
                reveal_strlit("journalArticle");
                reveal_strlit("presentation");
                assert("journalArticle"@.len() != "presentation"@.len());
            }
            assert("letter"@ != "presentation"@) by {
                reveal_strlit("letter");
                reveal_strlit("presentation");
                assert("letter"@.len() != "presentation"@.len());
            }
            assert("magazineArticle"@ != "presentation"@) by {
                reveal_strlit("magazineArticle");
                reveal_strlit("presentation");
                assert("magazineArticle"@.len() != "presentation"@.len());
            }
            assert("manuscript"@ != "presentation"@) by {
                reveal_strlit("manuscript");
                reveal_strlit("presentation");
                assert("manuscript"@.len() != "presentation"@.len());
            }
            assert("map"@ != "presentation"@) by {
                reveal_strlit("map");
                reveal_strlit("presentation");
                assert("map"@.len() != "presentation"@.len());
            }
            assert("newspaperArticle"@ != "presentation"@) by {
                reveal_strlit("newspaperArticle");
                reveal_strlit("presentation");
                assert("newspaperArticle"@.len() != "presentation"@.len());
            }
            assert("note"@ != "presentation"@) by {
                reveal_strlit("note");
                reveal_strlit("presentation");
                assert("note"@.len() != "presentation"@.len());
            }
            assert("patent"@ != "presentation"@) by {
                reveal_strlit("patent");
                reveal_strlit("presentation");
                assert("patent"@.len() != "presentation"@.len());
            }
            assert("podcast"@ != "presentation"@) by {
                reveal_strlit("podcast");
                reveal_strlit("presentation");
                assert("podcast"@.len() != "presentation"@.len());
            }
            assert("preprint"@ != "presentation"@) by {
                reveal_strlit("preprint");
                reveal_strlit("presentation");
                assert("preprint"@.len() != "presentation"@.len());
            }
        },
        ItemType::RadioBroadcast => {
            assert("annotation"@ != "radioBroadcast"@) by {
                reveal_strlit("annotation");
                reveal_strlit("radioBroadcast");
                assert("annotation"@.len() != "radioBroadcast"@.len());
            }
            assert("artwork"@ != "radioBroadcast"@) by {
                reveal_strlit("artwork");
                reveal_strlit("radioBroadcast");
                assert("artwork"@.len() != "radioBroadcast"@.len());
            }
            assert("attachment"@ != "radioBroadcast"@) by {
                reveal_strlit("attachment");
                reveal_strlit("radioBroadcast");
                assert("attachment"@.len() != "radioBroadcast"@.len());
            }
            assert("audioRecording"@ != "radioBroadcast"@) by {
                reveal_strlit("audioRecording");
                reveal_strlit("radioBroadcast");
                assert("audioRecording"@[0] != "radioBroadcast"@[0]);
            }
            assert("bill"@ != "radioBroadcast"@) by {
                reveal_strlit("bill");
                reveal_strlit("radioBroadcast");
                assert("bill"@.len() != "radioBroadcast"@.len());
            }
            assert("blogPost"@ != "radioBroadcast"@) by {
                reveal_strlit("blogPost");
                reveal_strlit("radioBroadcast");
                assert("blogPost"@.len() != "radioBroadcast"@.len());
            }
            assert("book"@ != "radioBroadcast"@) by {
                reveal_strlit("book");
                reveal_strlit("radioBroadcast");
                assert("book"@.len() != "radioBroadcast"@.len());
            }
            assert("bookSection"@ != "radioBroadcast"@) by {
                reveal_strlit("bookSection");
                reveal_strlit("radioBroadcast");
                assert("bookSection"@.len() != "radioBroadcast"@.len());
            }
            assert("case"@ != "radioBroadcast"@) by {
                reveal_strlit("case");
                reveal_strlit("radioBroadcast");
                assert("case"@.len() != "radioBroadcast"@.len());
            }
            assert("computerProgram"@ != "radioBroadcast"@) by {
                reveal_strlit("computerProgram");
                reveal_strlit("radioBroadcast");
                assert("computerProgram"@.len() != "radioBroadcast"@.len());
            }
            assert("conferencePaper"@ != "radioBroadcast"@) by {
                reveal_strlit("conferencePaper");
                reveal_strlit("radioBroadcast");
                assert("conferencePaper"@.len() != "radioBroadcast"@.len());
            }
            assert("dictionaryEntry"@ != "radioBroadcast"@) by {
                reveal_strlit("dictionaryEntry");
                reveal_strlit("radioBroadcast");
                assert("dictionaryEntry"@.len() != "radioBroadcast"@.len());
            }
            assert("document"@ != "radioBroadcast"@) by {
                reveal_strlit("document");
                reveal_strlit("radioBroadcast");
                assert("document"@.len() != "radioBroadcast"@.len());
            }
            assert("email"@ != "radioBroadcast"@) by {
                reveal_strlit("email");
                reveal_strlit("radioBroadcast");
                assert("email"@.len() != "radioBroadcast"@.len());
            }
            assert("encyclopediaArticle"@ != "radioBroadcast"@) by {
                reveal_strlit("encyclopediaArticle");
                reveal_strlit("radioBroadcast");
                assert("encyclopediaArticle"@.len() != "radioBroadcast"@.len());
            }
            assert("film"@ != "radioBroadcast"@) by {
                reveal_strlit("film");
                reveal_strlit("radioBroadcast");
                assert("film"@.len() != "radioBroadcast"@.len());
            }
            assert("forumPost"@ != "radioBroadcast"@) by {
                reveal_strlit("forumPost");
                reveal_strlit("radioBroadcast");
                assert("forumPost"@.len() != "radioBroadcast"@.len());
            }
            assert("hearing"@ != "radioBroadcast"@) by {
                reveal_strlit("hearing");
                reveal_strlit("radioBroadcast");
                assert("hearing"@.len() != "radioBroadcast"@.len());
            }
            assert("instantMessage"@ != "radioBroadcast"@) by {
                reveal_strlit("instantMessage");
                reveal_strlit("radioBroadcast");
                assert("instantMessage"@[0] != "radioBroadcast"@[0]);
            }
            assert("interview"@ != "radioBroadcast"@) by {
                reveal_strlit("interview");
                reveal_strlit("radioBroadcast");
                assert("interview"@.len() != "radioBroadcast"@.len());
            }
            assert("journalArticle"@ != "radioBroadcast"@) by {
                reveal_strlit("journalArticle");
                reveal_strlit("radioBroadcast");
                assert("journalArticle"@[0] != "radioBroadcast"@[0]);
            }
            assert("letter"@ != "radioBroadcast"@) by {
                reveal_strlit("letter");
                reveal_strlit("radioBroadcast");
                assert("letter"@.len() != "radioBroadcast"@.len());
            }
            assert("magazineArticle"@ != "radioBroadcast"@) by {
                reveal_strlit("magazineArticle");
                reveal_strlit("radioBroadcast");
                assert("magazineArticle"@.len() != "radioBroadcast"@.len());
            }
            assert("manuscript"@ != "radioBroadcast"@) by {
                reveal_strlit("manuscript");
                reveal_strlit("radioBroadcast");
                assert("manuscript"@.len() != "radioBroadcast"@.len());
            }
            assert("map"@ != "radioBroadcast"@) by {
                reveal_strlit("map");
                reveal_strlit("radioBroadcast");
                assert("map"@.len() != "radioBroadcast"@.len());
            }
            assert("newspaperArticle"@ != "radioBroadcast"@) by {
                reveal_strlit("newspaperArticle");
                reveal_strlit("radioBroadcast");
                assert("newspaperArticle"@.len() != "radioBroadcast"@.len());
            }
            assert("note"@ != "radioBroadcast"@) by {
                reveal_strlit("note");
                reveal_strlit("radioBroadcast");
                assert("note"@.len() != "radioBroadcast"@.len());
            }
            assert("patent"@ != "radioBroadcast"@) by {
                reveal_strlit("patent");
                reveal_strlit("radioBroadcast");
                assert("patent"@.len() != "radioBroadcast"@.len());
            }
            assert("podcast"@ != "radioBroadcast"@) by {
                reveal_strlit("podcast");
                reveal_strlit("radioBroadcast");
                assert("podcast"@.len() != "radioBroadcast"@.len());
            }
            assert("preprint"@ != "radioBroadcast"@) by {
                reveal_strlit("preprint");
                reveal_strlit("radioBroadcast");
                assert("preprint"@.len() != "radioBroadcast"@.len());
            }
            assert("presentation"@ != "radioBroadcast"@) by {
                reveal_strlit("presentation");
                reveal_strlit("radioBroadcast");
                assert("presentation"@.len() != "radioBroadcast"@.len());
            }
        },
        ItemType::Report => {
            assert("annotation"@ != "report"@) by {
                reveal_strlit("annotation");
                reveal_strlit("report");
                assert("annotation"@.len() != "report"@.len());
            }
            assert("artwork"@ != "report"@) by {
                reveal_strlit("artwork");
                reveal_strlit("report");
                assert("artwork"@.len() != "report"@.len());
            }
            assert("attachment"@ != "report"@) by {
                reveal_strlit("attachment");
                reveal_strlit("report");
                assert("attachment"@.len() != "report"@.len());
            }
            assert("audioRecording"@ != "report"@) by {
                reveal_strlit("audioRecording");
                reveal_strlit("report");
                assert("audioRecording"@.len() != "report"@.len());
            }
            assert("bill"@ != "report"@) by {
                reveal_strlit("bill");
                reveal_strlit("report");
                assert("bill"@.len() != "report"@.len());
            }
            assert("blogPost"@ != "report"@) by {
                reveal_strlit("blogPost");
                reveal_strlit("report");
                assert("blogPost"@.len() != "report"@.len());
            }
            assert("book"@ != "report"@) by {
                reveal_strlit("book");
                reveal_strlit("report");
                assert("book"@.len() != "report"@.len());
            }
            assert("bookSection"@ != "report"@) by {
                reveal_strlit("bookSection");
                reveal_strlit("report");
                assert("bookSection"@.len() != "report"@.len());
            }
            assert("case"@ != "report"@) by {
                reveal_strlit("case");
                reveal_strlit("report");
                assert("case"@.len() != "report"@.len());
            }
            assert("computerProgram"@ != "report"@) by {
                reveal_strlit("computerProgram");
                reveal_strlit("report");
                assert("computerProgram"@.len() != "report"@.len());
            }
            assert("conferencePaper"@ != "report"@) by {
                reveal_strlit("conferencePaper");
                reveal_strlit("report");
                assert("conferencePaper"@.len() != "report"@.len());
            }
            assert("dictionaryEntry"@ != "report"@) by {
                reveal_strlit("dictionaryEntry");
                reveal_strlit("report");
                assert("dictionaryEntry"@.len() != "report"@.len());
            }
            assert("document"@ != "report"@) by {
                reveal_strlit("document");
                reveal_strlit("report");
                assert("document"@.len() != "report"@.len());
            }
            assert("email"@ != "report"@) by {
                reveal_strlit("email");
                reveal_strlit("report");
                assert("email"@.len() != "report"@.len());
            }
            assert("encyclopediaArticle"@ != "report"@) by {
                reveal_strlit("encyclopediaArticle");
                reveal_strlit("report");
                assert("encyclopediaArticle"@.len() != "report"@.len());
            }
            assert("film"@ != "report"@) by {
                reveal_strlit("film");
                reveal_strlit("report");
                assert("film"@.len() != "report"@.len());
            }
            assert("forumPost"@ != "report"@) by {
                reveal_strlit("forumPost");
                reveal_strlit("report");
                assert("forumPost"@.len() != "report"@.len());
            }
            assert("hearing"@ != "report"@) by {
                reveal_strlit("hearing");
                reveal_strlit("report");
                assert("hearing"@.len() != "report"@.len());
            }
            assert("instantMessage"@ != "report"@) by {
                reveal_strlit("instantMessage");
                reveal_strlit("report");
                assert("instantMessage"@.len() != "report"@.len());
            }
            assert("interview"@ != "report"@) by {
                reveal_strlit("interview");
                reveal_strlit("report");
                assert("interview"@.len() != "report"@.len());
            }
            assert("journalArticle"@ != "report"@) by {
                reveal_strlit("journalArticle");
                reveal_strlit("report");
                assert("journalArticle"@.len() != "report"@.len());
            }
            assert("letter"@ != "report"@) by {
                reveal_strlit("letter");
                reveal_strlit("report");
                assert("letter"@[0] != "report"@[0]);
            }
            assert("magazineArticle"@ != "report"@) by {
                reveal_strlit("magazineArticle");
                reveal_strlit("report");
                assert("magazineArticle"@.len() != "report"@.len());
            }
            assert("manuscript"@ != "report"@) by {
                reveal_strlit("manuscript");
                reveal_strlit("report");
                assert("manuscript"@.len() != "report"@.len());
            }
            assert("map"@ != "report"@) by {
                reveal_strlit("map");
                reveal_strlit("report");
                assert("map"@.len() != "report"@.len());
            }
            assert("newspaperArticle"@ != "report"@) by {
                reveal_strlit("newspaperArticle");
                reveal_strlit("report");
                assert("newspaperArticle"@.len() != "report"@.len());
            }
            assert("note"@ != "report"@) by {
                reveal_strlit("note");
                reveal_strlit("report");
                assert("note"@.len() != "report"@.len());
            }
            assert("patent"@ != "report"@) by {
                reveal_strlit("patent");
                reveal_strlit("report");
                assert("patent"@[0] != "report"@[0]);
            }
            assert("podcast"@ != "report"@) by {
                reveal_strlit("podcast");
                reveal_strlit("report");
                assert("podcast"@.len() != "report"@.len());
            }
            assert("preprint"@ != "report"@) by {
                reveal_strlit("preprint");
                reveal_strlit("report");
                assert("preprint"@.len() != "report"@.len());
            }
            assert("presentation"@ != "report"@) by {
                reveal_strlit("presentation");
                reveal_strlit("report");
                assert("presentation"@.len() != "report"@.len());
            }
            assert("radioBroadcast"@ != "report"@) by {
                reveal_strlit("radioBroadcast");
                reveal_strlit("report");
                assert("radioBroadcast"@.len() != "report"@.len());
            }
        },
        ItemType::Statute => {
            assert("annotation"@ != "statute"@) by {
                reveal_strlit("annotation");
                reveal_strlit("statute");
                assert("annotation"@.len() != "statute"@.len());
            }
            assert("artwork"@ != "statute"@) by {
                reveal_strlit("artwork");
                reveal_strlit("statute");
                assert("artwork"@[0] != "statute"@[0]);
            }
            assert("attachment"@ != "statute"@) by {
                reveal_strlit("attachment");
                reveal_strlit("statute");
                assert("attachment"@.len() != "statute"@.len());
            }
            assert("audioRecording"@ != "statute"@) by {
                reveal_strlit("audioRecording");
                reveal_strlit("statute");
                assert("audioRecording"@.len() != "statute"@.len());
            }
            assert("bill"@ != "statute"@) by {
                reveal_strlit("bill");
                reveal_strlit("statute");
                assert("bill"@.len() != "statute"@.len());
            }
            assert("blogPost"@ != "statute"@) by {
                reveal_strlit("blogPost");
                reveal_strlit("statute");
                assert("blogPost"@.len() != "statute"@.len());
            }
            assert("book"@ != "statute"@) by {
                reveal_strlit("book");
                reveal_strlit("statute");
                assert("book"@.len() != "statute"@.len());
            }
            assert("bookSection"@ != "statute"@) by {
                reveal_strlit("bookSection");
                reveal_strlit("statute");
                assert("bookSection"@.len() != "statute"@.len());
            }
            assert("case"@ != "statute"@) by {
                reveal_strlit("case");
                reveal_strlit("statute");
                assert("case"@.len() != "statute"@.len());
            }
            assert("computerProgram"@ != "statute"@) by {
                reveal_strlit("computerProgram");
                reveal_strlit("statute");
                assert("computerProgram"@.len() != "statute"@.len());
            }
            assert("conferencePaper"@ != "statute"@) by {
                reveal_strlit("conferencePaper");
                reveal_strlit("statute");
                assert("conferencePaper"@.len() != "statute"@.len());
            }
            assert("dictionaryEntry"@ != "statute"@) by {
                reveal_strlit("dictionaryEntry");
                reveal_strlit("statute");
                assert("dictionaryEntry"@.len() != "statute"@.len());
            }
            assert("document"@ != "statute"@) by {
                reveal_strlit("document");
                reveal_strlit("statute");
                assert("document"@.len() != "statute"@.len());
            }
            assert("email"@ != "statute"@) by {
                reveal_strlit("email");
                reveal_strlit("statute");
                assert("email"@.len() != "statute"@.len());
            }
            assert("encyclopediaArticle"@ != "statute"@) by {
                reveal_strlit("encyclopediaArticle");
                reveal_strlit("statute");
                assert("encyclopediaArticle"@.len() != "statute"@.len());
            }
            assert("film"@ != "statute"@) by {
                reveal_strlit("film");
                reveal_strlit("statute");
                assert("film"@.len() != "statute"@.len());
            }
            assert("forumPost"@ != "statute"@) by {
                reveal_strlit("forumPost");
                reveal_strlit("statute");
                assert("forumPost"@.len() != "statute"@.len());
            }
            assert("hearing"@ != "statute"@) by {
                reveal_strlit("hearing");
                reveal_strlit("statute");
                assert("hearing"@[0] != "statute"@[0]);
            }
            assert("instantMessage"@ != "statute"@) by {
                reveal_strlit("instantMessage");
                reveal_strlit("statute");
                assert("instantMessage"@.len() != "statute"@.len());
            }
            assert("interview"@ != "statute"@) by {
                reveal_strlit("interview");
                reveal_strlit("statute");
                assert("interview"@.len() != "statute"@.len());
            }
            assert("journalArticle"@ != "statute"@) by {
                reveal_strlit("journalArticle");
                reveal_strlit("statute");
                assert("journalArticle"@.len() != "statute"@.len());
            }
            assert("letter"@ != "statute"@) by {
                reveal_strlit("letter");
                reveal_strlit("statute");
                assert("letter"@.len() != "statute"@.len());
            }
            assert("magazineArticle"@ != "statute"@) by {
                reveal_strlit("magazineArticle");
                reveal_strlit("statute");
                assert("magazineArticle"@.len() != "statute"@.len());
            }
            assert("manuscript"@ != "statute"@) by {
                reveal_strlit("manuscript");
                reveal_strlit("statute");
                assert("manuscript"@.len() != "statute"@.len());
            }
            assert("map"@ != "statute"@) by {
                reveal_strlit("map");
                reveal_strlit("statute");
                assert("map"@.len() != "statute"@.len());
            }
            assert("newspaperArticle"@ != "statute"@) by {
                reveal_strlit("newspaperArticle");
                reveal_strlit("statute");
                assert("newspaperArticle"@.len() != "statute"@.len());
            }
            assert("note"@ != "statute"@) by {
                reveal_strlit("note");
                reveal_strlit("statute");
                assert("note"@.len() != "statute"@.len());
            }
            assert("patent"@ != "statute"@) by {
                reveal_strlit("patent");
                reveal_strlit("statute");
                assert("patent"@.len() != "statute"@.len());
            }
            assert("podcast"@ != "statute"@) by {
                reveal_strlit("podcast");
                reveal_strlit("statute");
                assert("podcast"@[0] != "statute"@[0]);
            }
            assert("preprint"@ != "statute"@) by {
                reveal_strlit("preprint");
                reveal_strlit("statute");
                assert("preprint"@.len() != "statute"@.len());
            }
            assert("presentation"@ != "statute"@) by {
                reveal_strlit("presentation");
                reveal_strlit("statute");
                assert("presentation"@.len() != "statute"@.len());
            }
            assert("radioBroadcast"@ != "statute"@) by {
                reveal_strlit("radioBroadcast");
                reveal_strlit("statute");
                assert("radioBroadcast"@.len() != "statute"@.len());
            }
            assert("report"@ != "statute"@) by {
                reveal_strlit("report");
                reveal_strlit("statute");
                assert("report"@.len() != "statute"@.len());
            }
        },
        ItemType::Thesis => {
            assert("annotation"@ != "thesis"@) by {
                reveal_strlit("annotation");
                reveal_strlit("thesis");
                assert("annotation"@.len() != "thesis"@.len());
            }
            assert("artwork"@ != "thesis"@) by {
                reveal_strlit("artwork");
                reveal_strlit("thesis");
                assert("artwork"@.len() != "thesis"@.len());
            }
            assert("attachment"@ != "thesis"@) by {
                reveal_strlit("attachment");
                reveal_strlit("thesis");
                assert("attachment"@.len() != "thesis"@.len());
            }
            assert("audioRecording"@ != "thesis"@) by {
                reveal_strlit("audioRecording");
                reveal_strlit("thesis");
                assert("audioRecording"@.len() != "thesis"@.len());
            }
            assert("bill"@ != "thesis"@) by {
                reveal_strlit("bill");
                reveal_strlit("thesis");
                assert("bill"@.len() != "thesis"@.len());
            }
            assert("blogPost"@ != "thesis"@) by {
                reveal_strlit("blogPost");
                reveal_strlit("thesis");
                assert("blogPost"@.len() != "thesis"@.len());
            }
            assert("book"@ != "thesis"@) by {
                reveal_strlit("book");
                reveal_strlit("thesis");
                assert("book"@.len() != "thesis"@.len());
            }
            assert("bookSection"@ != "thesis"@) by {
                reveal_strlit("bookSection");
                reveal_strlit("thesis");
                assert("bookSection"@.len() != "thesis"@.len());
            }
            assert("case"@ != "thesis"@) by {
                reveal_strlit("case");
                reveal_strlit("thesis");
                assert("case"@.len() != "thesis"@.len());
            }
            assert("computerProgram"@ != "thesis"@) by {
                reveal_strlit("computerProgram");
                reveal_strlit("thesis");
                assert("computerProgram"@.len() != "thesis"@.len());
            }
            assert("conferencePaper"@ != "thesis"@) by {
                reveal_strlit("conferencePaper");
                reveal_strlit("thesis");
                assert("conferencePaper"@.len() != "thesis"@.len());
            }
            assert("dictionaryEntry"@ != "thesis"@) by {
                reveal_strlit("dictionaryEntry");
                reveal_strlit("thesis");
                assert("dictionaryEntry"@.len() != "thesis"@.len());
            }
            assert("document"@ != "thesis"@) by {
                reveal_strlit("document");
                reveal_strlit("thesis");
                assert("document"@.len() != "thesis"@.len());
            }
            assert("email"@ != "thesis"@) by {
                reveal_strlit("email");
                reveal_strlit("thesis");
                assert("email"@.len() != "thesis"@.len());
            }
            assert("encyclopediaArticle"@ != "thesis"@) by {
                reveal_strlit("encyclopediaArticle");
                reveal_strlit("thesis");
                assert("encyclopediaArticle"@.len() != "thesis"@.len());
            }
            assert("film"@ != "thesis"@) by {
                reveal_strlit("film");
                reveal_strlit("thesis");
                assert("film"@.len() != "thesis"@.len());
            }
            assert("forumPost"@ != "thesis"@) by {
                reveal_strlit("forumPost");
                reveal_strlit("thesis");
                assert("forumPost"@.len() != "thesis"@.len());
            }
            assert("hearing"@ != "thesis"@) by {
                reveal_strlit("hearing");
                reveal_strlit("thesis");
                assert("hearing"@.len() != "thesis"@.len());
            }
            assert("instantMessage"@ != "thesis"@) by {
                reveal_strlit("instantMessage");
                reveal_strlit("thesis");
                assert("instantMessage"@.len() != "thesis"@.len());
            }
            assert("interview"@ != "thesis"@) by {
                reveal_strlit("interview");
                reveal_strlit("thesis");
                assert("interview"@.len() != "thesis"@.len());
            }
            assert("journalArticle"@ != "thesis"@) by {
                reveal_strlit("journalArticle");
                reveal_strlit("thesis");
                assert("journalArticle"@.len() != "thesis"@.len());
            }
            assert("letter"@ != "thesis"@) by {
                reveal_strlit("letter");
                reveal_strlit("thesis");
                assert("letter"@[0] != "thesis"@[0]);
            }
            assert("magazineArticle"@ != "thesis"@) by {
                reveal_strlit("magazineArticle");
                reveal_strlit("thesis");
                assert("magazineArticle"@.len() != "thesis"@.len());
            }
            assert("manuscript"@ != "thesis"@) by {
                reveal_strlit("manuscript");
                reveal_strlit("thesis");
                assert("manuscript"@.len() != "thesis"@.len());
            }
            assert("map"@ != "thesis"@) by {
                reveal_strlit("map");
                reveal_strlit("thesis");
                assert("map"@.len() != "thesis"@.len());
            }
            assert("newspaperArticle"@ != "thesis"@) by {
                reveal_strlit("newspaperArticle");
                reveal_strlit("thesis");
                assert("newspaperArticle"@.len() != "thesis"@.len());
            }
            assert("note"@ != "thesis"@) by {
                reveal_strlit("note");
                reveal_strlit("thesis");
                assert("note"@.len() != "thesis"@.len());
            }
            assert("patent"@ != "thesis"@) by {
                reveal_strlit("patent");
                reveal_strlit("thesis");
                assert("patent"@[0] != "thesis"@[0]);
            }
            assert("podcast"@ != "thesis"@) by {
                reveal_strlit("podcast");
                reveal_strlit("thesis");
                assert("podcast"@.len() != "thesis"@.len());
            }
            assert("preprint"@ != "thesis"@) by {
                reveal_strlit("preprint");
                reveal_strlit("thesis");
                assert("preprint"@.len() != "thesis"@.len());
            }
            assert("presentation"@ != "thesis"@) by {
                reveal_strlit("presentation");
                reveal_strlit("thesis");
                assert("presentation"@.len() != "thesis"@.len());
            }
            assert("radioBroadcast"@ != "thesis"@) by {
                reveal_strlit("radioBroadcast");
                reveal_strlit("thesis");
                assert("radioBroadcast"@.len() != "thesis"@.len());
            }
            assert("report"@ != "thesis"@) by {
                reveal_strlit("report");
                reveal_strlit("thesis");
                assert("report"@[0] != "thesis"@[0]);
            }
            assert("statute"@ != "thesis"@) by {
                reveal_strlit("statute");
                reveal_strlit("thesis");
                assert("statute"@.len() != "thesis"@.len());
            }
        },
        ItemType::TvBroadcast => {
            assert("annotation"@ != "tvBroadcast"@) by {
                reveal_strlit("annotation");
                reveal_strlit("tvBroadcast");
                assert("annotation"@.len() != "tvBroadcast"@.len());
            }
            assert("artwork"@ != "tvBroadcast"@) by {
                reveal_strlit("artwork");
                reveal_strlit("tvBroadcast");
                assert("artwork"@.len() != "tvBroadcast"@.len());
            }
            assert("attachment"@ != "tvBroadcast"@) by {
                reveal_strlit("attachment");
                reveal_strlit("tvBroadcast");
                assert("attachment"@.len() != "tvBroadcast"@.len());
            }
            assert("audioRecording"@ != "tvBroadcast"@) by {
                reveal_strlit("audioRecording");
                reveal_strlit("tvBroadcast");
                assert("audioRecording"@.len() != "tvBroadcast"@.len());
            }
            assert("bill"@ != "tvBroadcast"@) by {
                reveal_strlit("bill");
                reveal_strlit("tvBroadcast");
                assert("bill"@.len() != "tvBroadcast"@.len());
            }
            assert("blogPost"@ != "tvBroadcast"@) by {
                reveal_strlit("blogPost");
                reveal_strlit("tvBroadcast");
                assert("blogPost"@.len() != "tvBroadcast"@.len());
            }
            assert("book"@ != "tvBroadcast"@) by {
                reveal_strlit("book");
                reveal_strlit("tvBroadcast");
                assert("book"@.len() != "tvBroadcast"@.len());
            }
            assert("bookSection"@ != "tvBroadcast"@) by {
                reveal_strlit("bookSection");
                reveal_strlit("tvBroadcast");
                assert("bookSection"@[0] != "tvBroadcast"@[0]);
            }
            assert("case"@ != "tvBroadcast"@) by {
                reveal_strlit("case");
                reveal_strlit("tvBroadcast");
                assert("case"@.len() != "tvBroadcast"@.len());
            }
            assert("computerProgram"@ != "tvBroadcast"@) by {
                reveal_strlit("computerProgram");
                reveal_strlit("tvBroadcast");
                assert("computerProgram"@.len() != "tvBroadcast"@.len());
            }
            assert("conferencePaper"@ != "tvBroadcast"@) by {
                reveal_strlit("conferencePaper");
                reveal_strlit("tvBroadcast");
                assert("conferencePaper"@.len() != "tvBroadcast"@.len());
            }
            assert("dictionaryEntry"@ != "tvBroadcast"@) by {
                reveal_strlit("dictionaryEntry");
                reveal_strlit("tvBroadcast");
                assert("dictionaryEntry"@.len() != "tvBroadcast"@.len());
            }
            assert("document"@ != "tvBroadcast"@) by {
                reveal_strlit("document");
                reveal_strlit("tvBroadcast");
                assert("document"@.len() != "tvBroadcast"@.len());
            }
            assert("email"@ != "tvBroadcast"@) by {
                reveal_strlit("email");
                reveal_strlit("tvBroadcast");
                assert("email"@.len() != "tvBroadcast"@.len());
            }
            assert("encyclopediaArticle"@ != "tvBroadcast"@) by {
                reveal_strlit("encyclopediaArticle");
                reveal_strlit("tvBroadcast");
                assert("encyclopediaArticle"@.len() != "tvBroadcast"@.len());
            }
            assert("film"@ != "tvBroadcast"@) by {
                reveal_strlit("film");
                reveal_strlit("tvBroadcast");
                assert("film"@.len() != "tvBroadcast"@.len());
            }
            assert("forumPost"@ != "tvBroadcast"@) by {
                reveal_strlit("forumPost");
                reveal_strlit("tvBroadcast");
                assert("forumPost"@.len() != "tvBroadcast"@.len());
            }
            assert("hearing"@ != "tvBroadcast"@) by {
                reveal_strlit("hearing");
                reveal_strlit("tvBroadcast");
                assert("hearing"@.len() != "tvBroadcast"@.len());
            }
            assert("instantMessage"@ != "tvBroadcast"@) by {
                reveal_strlit("instantMessage");
                reveal_strlit("tvBroadcast");
                assert("instantMessage"@.len() != "tvBroadcast"@.len());
            }
            assert("interview"@ != "tvBroadcast"@) by {
                reveal_strlit("interview");
                reveal_strlit("tvBroadcast");
                assert("interview"@.len() != "tvBroadcast"@.len());
            }
            assert("journalArticle"@ != "tvBroadcast"@) by {
                reveal_strlit("journalArticle");
                reveal_strlit("tvBroadcast");
                assert("journalArticle"@.len() != "tvBroadcast"@.len());
            }
            assert("letter"@ != "tvBroadcast"@) by {
                reveal_strlit("letter");
                reveal_strlit("tvBroadcast");
                assert("letter"@.len() != "tvBroadcast"@.len());
            }
            assert("magazineArticle"@ != "tvBroadcast"@) by {
                reveal_strlit("magazineArticle");
                reveal_strlit("tvBroadcast");
                assert("magazineArticle"@.len() != "tvBroadcast"@.len());
            }
            assert("manuscript"@ != "tvBroadcast"@) by {
                reveal_strlit("manuscript");
                reveal_strlit("tvBroadcast");
                assert("manuscript"@.len() != "tvBroadcast"@.len());
            }
            assert("map"@ != "tvBroadcast"@) by {
                reveal_strlit("map");
                reveal_strlit("tvBroadcast");
                assert("map"@.len() != "tvBroadcast"@.len());
            }
            assert("newspaperArticle"@ != "tvBroadcast"@) by {
                reveal_strlit("newspaperArticle");
                reveal_strlit("tvBroadcast");
                assert("newspaperArticle"@.len() != "tvBroadcast"@.len());
            }
            assert("note"@ != "tvBroadcast"@) by {
                reveal_strlit("note");
                reveal_strlit("tvBroadcast");
                assert("note"@.len() != "tvBroadcast"@.len());
            }
            assert("patent"@ != "tvBroadcast"@) by {
                reveal_strlit("patent");
                reveal_strlit("tvBroadcast");
                assert("patent"@.len() != "tvBroadcast"@.len());
            }
            assert("podcast"@ != "tvBroadcast"@) by {
                reveal_strlit("podcast");
                reveal_strlit("tvBroadcast");
                assert("podcast"@.len() != "tvBroadcast"@.len());
            }
            assert("preprint"@ != "tvBroadcast"@) by {
                reveal_strlit("preprint");
                reveal_strlit("tvBroadcast");
                assert("preprint"@.len() != "tvBroadcast"@.len());
            }
            assert("presentation"@ != "tvBroadcast"@) by {
                reveal_strlit("presentation");
                reveal_strlit("tvBroadcast");
                assert("presentation"@.len() != "tvBroadcast"@.len());
            }
            assert("radioBroadcast"@ != "tvBroadcast"@) by {
                reveal_strlit("radioBroadcast");
                reveal_strlit("tvBroadcast");
                assert("radioBroadcast"@.len() != "tvBroadcast"@.len());
            }
            assert("report"@ != "tvBroadcast"@) by {
                reveal_strlit("report");
                reveal_strlit("tvBroadcast");
                assert("report"@.len() != "tvBroadcast"@.len());
            }
            assert("statute"@ != "tvBroadcast"@) by {
                reveal_strlit("statute");
                reveal_strlit("tvBroadcast");
                assert("statute"@.len() != "tvBroadcast"@.len());
            }
            assert("thesis"@ != "tvBroadcast"@) by {
                reveal_strlit("thesis");
                reveal_strlit("tvBroadcast");
                assert("thesis"@.len() != "tvBroadcast"@.len());
            }
        },
        ItemType::VideoRecording => {
            assert("annotation"@ != "videoRecording"@) by {
                reveal_strlit("annotation");
                reveal_strlit("videoRecording");
                assert("annotation"@.len() != "videoRecording"@.len());
            }
            assert("artwork"@ != "videoRecording"@) by {
                reveal_strlit("artwork");
                reveal_strlit("videoRecording");
                assert("artwork"@.len() != "videoRecording"@.len());
            }
            assert("attachment"@ != "videoRecording"@) by {
                reveal_strlit("attachment");
                reveal_strlit("videoRecording");
                assert("attachment"@.len() != "videoRecording"@.len());
            }
            assert("audioRecording"@ != "videoRecording"@) by {
                reveal_strlit("audioRecording");
                reveal_strlit("videoRecording");
                assert("audioRecording"@[0] != "videoRecording"@[0]);
            }
            assert("bill"@ != "videoRecording"@) by {
                reveal_strlit("bill");
                reveal_strlit("videoRecording");
                assert("bill"@.len() != "videoRecording"@.len());
            }
            assert("blogPost"@ != "videoRecording"@) by {
                reveal_strlit("blogPost");
                reveal_strlit("videoRecording");
                assert("blogPost"@.len() != "videoRecording"@.len());
            }
            assert("book"@ != "videoRecording"@) by {
                reveal_strlit("book");
                reveal_strlit("videoRecording");
                assert("book"@.len() != "videoRecording"@.len());
            }
            assert("bookSection"@ != "videoRecording"@) by {
                reveal_strlit("bookSection");
                reveal_strlit("videoRecording");
                assert("bookSection"@.len() != "videoRecording"@.len());
            }
            assert("case"@ != "videoRecording"@) by {
                reveal_strlit("case");
                reveal_strlit("videoRecording");
                assert("case"@.len() != "videoRecording"@.len());
            }
            assert("computerProgram"@ != "videoRecording"@) by {
                reveal_strlit("computerProgram");
                reveal_strlit("videoRecording");
                assert("computerProgram"@.len() != "videoRecording"@.len());
            }
            assert("conferencePaper"@ != "videoRecording"@) by {
                reveal_strlit("conferencePaper");
                reveal_strlit("videoRecording");
                assert("conferencePaper"@.len() != "videoRecording"@.len());
            }
            assert("dictionaryEntry"@ != "videoRecording"@) by {
                reveal_strlit("dictionaryEntry");
                reveal_strlit("videoRecording");
                assert("dictionaryEntry"@.len() != "videoRecording"@.len());
            }
            assert("document"@ != "videoRecording"@) by {
                reveal_strlit("document");
                reveal_strlit("videoRecording");
                assert("document"@.len() != "videoRecording"@.len());
            }
            assert("email"@ != "videoRecording"@) by {
                reveal_strlit("email");
                reveal_strlit("videoRecording");
                assert("email"@.len() != "videoRecording"@.len());
            }
            assert("encyclopediaArticle"@ != "videoRecording"@) by {
                reveal_strlit("encyclopediaArticle");
                reveal_strlit("videoRecording");
                assert("encyclopediaArticle"@.len() != "videoRecording"@.len());
            }
            assert("film"@ != "videoRecording"@) by {
                reveal_strlit("film");
                reveal_strlit("videoRecording");
                assert("film"@.len() != "videoRecording"@.len());
            }
            assert("forumPost"@ != "videoRecording"@) by {
                reveal_strlit("forumPost");
                reveal_strlit("videoRecording");
                assert("forumPost"@.len() != "videoRecording"@.len());
            }
            assert("hearing"@ != "videoRecording"@) by {
                reveal_strlit("hearing");
                reveal_strlit("videoRecording");
                assert("hearing"@.len() != "videoRecording"@.len());
            }
            assert("instantMessage"@ != "videoRecording"@) by {
                reveal_strlit("instantMessage");
                reveal_strlit("videoRecording");
                assert("instantMessage"@[0] != "videoRecording"@[0]);
            }
            assert("interview"@ != "videoRecording"@) by {
                reveal_strlit("interview");
                reveal_strlit("videoRecording");
                assert("interview"@.len() != "videoRecording"@.len());
            }
            assert("journalArticle"@ != "videoRecording"@) by {
                reveal_strlit("journalArticle");
                reveal_strlit("videoRecording");
                assert("journalArticle"@[0] != "videoRecording"@[0]);
            }
            assert("letter"@ != "videoRecording"@) by {
                reveal_strlit("letter");
                reveal_strlit("videoRecording");
                assert("letter"@.len() != "videoRecording"@.len());
            }
            assert("magazineArticle"@ != "videoRecording"@) by {
                reveal_strlit("magazineArticle");
                reveal_strlit("videoRecording");
                assert("magazineArticle"@.len() != "videoRecording"@.len());
            }
            assert("manuscript"@ != "videoRecording"@) by {
                reveal_strlit("manuscript");
                reveal_strlit("videoRecording");
                assert("manuscript"@.len() != "videoRecording"@.len());
            }
            assert("map"@ != "videoRecording"@) by {
                reveal_strlit("map");
                reveal_strlit("videoRecording");
                assert("map"@.len() != "videoRecording"@.len());
            }
            assert("newspaperArticle"@ != "videoRecording"@) by {
                reveal_strlit("newspaperArticle");
                reveal_strlit("videoRecording");
                assert("newspaperArticle"@.len() != "videoRecording"@.len());
            }
            assert("note"@ != "videoRecording"@) by {
                reveal_strlit("note");
                reveal_strlit("videoRecording");
                assert("note"@.len() != "videoRecording"@.len());
            }
            assert("patent"@ != "videoRecording"@) by {
                reveal_strlit("patent");
                reveal_strlit("videoRecording");
                assert("patent"@.len() != "videoRecording"@.len());
            }
            assert("podcast"@ != "videoRecording"@) by {
                reveal_strlit("podcast");
                reveal_strlit("videoRecording");
                assert("podcast"@.len() != "videoRecording"@.len());
            }
            assert("preprint"@ != "videoRecording"@) by {
                reveal_strlit("preprint");
                reveal_strlit("videoRecording");
                assert("preprint"@.len() != "videoRecording"@.len());
            }
            assert("presentation"@ != "videoRecording"@) by {
                reveal_strlit("presentation");
                reveal_strlit("videoRecording");
                assert("presentation"@.len() != "videoRecording"@.len());
            }
            assert("radioBroadcast"@ != "videoRecording"@) by {
                reveal_strlit("radioBroadcast");
                reveal_strlit("videoRecording");
                assert("radioBroadcast"@[0] != "videoRecording"@[0]);
            }
            assert("report"@ != "videoRecording"@) by {
                reveal_strlit("report");
                reveal_strlit("videoRecording");
                assert("report"@.len() != "videoRecording"@.len());
            }
            assert("statute"@ != "videoRecording"@) by {
                reveal_strlit("statute");
                reveal_strlit("videoRecording");
                assert("statute"@.len() != "videoRecording"@.len());
            }
            assert("thesis"@ != "videoRecording"@) by {
                reveal_strlit("thesis");
                reveal_strlit("videoRecording");
                assert("thesis"@.len() != "videoRecording"@.len());
            }
            assert("tvBroadcast"@ != "videoRecording"@) by {
                reveal_strlit("tvBroadcast");
                reveal_strlit("videoRecording");
                assert("tvBroadcast"@.len() != "videoRecording"@.len());
            }
        },
        ItemType::Webpage => {
            assert("annotation"@ != "webpage"@) by {
                reveal_strlit("annotation");
                reveal_strlit("webpage");
                assert("annotation"@.len() != "webpage"@.len());
            }
            assert("artwork"@ != "webpage"@) by {
                reveal_strlit("artwork");
                reveal_strlit("webpage");
                assert("artwork"@[0] != "webpage"@[0]);
            }
            assert("attachment"@ != "webpage"@) by {
                reveal_strlit("attachment");
                reveal_strlit("webpage");
                assert("attachment"@.len() != "webpage"@.len());
            }
            assert("audioRecording"@ != "webpage"@) by {
                reveal_strlit("audioRecording");
                reveal_strlit("webpage");
                assert("audioRecording"@.len() != "webpage"@.len());
            }
            assert("bill"@ != "webpage"@) by {
                reveal_strlit("bill");
                reveal_strlit("webpage");
                assert("bill"@.len() != "webpage"@.len());
            }
            assert("blogPost"@ != "webpage"@) by {
                reveal_strlit("blogPost");
                reveal_strlit("webpage");
                assert("blogPost"@.len() != "webpage"@.len());
            }
            assert("book"@ != "webpage"@) by {
                reveal_strlit("book");
                reveal_strlit("webpage");
                assert("book"@.len() != "webpage"@.len());
            }
            assert("bookSection"@ != "webpage"@) by {
                reveal_strlit("bookSection");
                reveal_strlit("webpage");
                assert("bookSection"@.len() != "webpage"@.len());
            }
            assert("case"@ != "webpage"@) by {
                reveal_strlit("case");
                reveal_strlit("webpage");
                assert("case"@.len() != "webpage"@.len());
            }
            assert("computerProgram"@ != "webpage"@) by {
                reveal_strlit("computerProgram");
                reveal_strlit("webpage");
                assert("computerProgram"@.len() != "webpage"@.len());
            }
            assert("conferencePaper"@ != "webpage"@) by {
                reveal_strlit("conferencePaper");
                reveal_strlit("webpage");
                assert("conferencePaper"@.len() != "webpage"@.len());
            }
            assert("dictionaryEntry"@ != "webpage"@) by {
                reveal_strlit("dictionaryEntry");
                reveal_strlit("webpage");
                assert("dictionaryEntry"@.len() != "webpage"@.len());
            }
            assert("document"@ != "webpage"@) by {
                reveal_strlit("document");
                reveal_strlit("webpage");
                assert("document"@.len() != "webpage"@.len());
            }
            assert("email"@ != "webpage"@) by {
                reveal_strlit("email");
                reveal_strlit("webpage");
                assert("email"@.len() != "webpage"@.len());
            }
            assert("encyclopediaArticle"@ != "webpage"@) by {
                reveal_strlit("encyclopediaArticle");
                reveal_strlit("webpage");
                assert("encyclopediaArticle"@.len() != "webpage"@.len());
            }
            assert("film"@ != "webpage"@) by {
                reveal_strlit("film");
                reveal_strlit("webpage");
                assert("film"@.len() != "webpage"@.len());
            }
            assert("forumPost"@ != "webpage"@) by {
                reveal_strlit("forumPost");
                reveal_strlit("webpage");
                assert("forumPost"@.len() != "webpage"@.len());
            }
            assert("hearing"@ != "webpage"@) by {
                reveal_strlit("hearing");
                reveal_strlit("webpage");
                assert("hearing"@[0] != "webpage"@[0]);
            }
            assert("instantMessage"@ != "webpage"@) by {
                reveal_strlit("instantMessage");
                reveal_strlit("webpage");
                assert("instantMessage"@.len() != "webpage"@.len());
            }
            assert("interview"@ != "webpage"@) by {
                reveal_strlit("interview");
                reveal_strlit("webpage");
                assert("interview"@.len() != "webpage"@.len());
            }
            assert("journalArticle"@ != "webpage"@) by {
                reveal_strlit("journalArticle");
                reveal_strlit("webpage");
                assert("journalArticle"@.len() != "webpage"@.len());
            }
            assert("letter"@ != "webpage"@) by {
                reveal_strlit("letter");
                reveal_strlit("webpage");
                assert("letter"@.len() != "webpage"@.len());
            }
            assert("magazineArticle"@ != "webpage"@) by {
                reveal_strlit("magazineArticle");
                reveal_strlit("webpage");
                assert("magazineArticle"@.len() != "webpage"@.len());
            }
            assert("manuscript"@ != "webpage"@) by {
                reveal_strlit("manuscript");
                reveal_strlit("webpage");
                assert("manuscript"@.len() != "webpage"@.len());
            }
            assert("map"@ != "webpage"@) by {
                reveal_strlit("map");
                reveal_strlit("webpage");
                assert("map"@.len() != "webpage"@.len());
            }
            assert("newspaperArticle"@ != "webpage"@) by {
                reveal_strlit("newspaperArticle");
                reveal_strlit("webpage");
                assert("newspaperArticle"@.len() != "webpage"@.len());
            }
            assert("note"@ != "webpage"@) by {
                reveal_strlit("note");
                reveal_strlit("webpage");
                assert("note"@.len() != "webpage"@.len());
            }
            assert("patent"@ != "webpage"@) by {
                reveal_strlit("patent");
                reveal_strlit("webpage");
                assert("patent"@.len() != "webpage"@.len());
            }
            assert("podcast"@ != "webpage"@) by {
                reveal_strlit("podcast");
                reveal_strlit("webpage");
                assert("podcast"@[0] != "webpage"@[0]);
            }
            assert("preprint"@ != "webpage"@) by {
                reveal_strlit("preprint");
                reveal_strlit("webpage");
                assert("preprint"@.len() != "webpage"@.len());
            }
            assert("presentation"@ != "webpage"@) by {
                reveal_strlit("presentation");
                reveal_strlit("webpage");
                assert("presentation"@.len() != "webpage"@.len());
            }
            assert("radioBroadcast"@ != "webpage"@) by {
                reveal_strlit("radioBroadcast");
                reveal_strlit("webpage");
                assert("radioBroadcast"@.len() != "webpage"@.len());
            }
            assert("report"@ != "webpage"@) by {
                reveal_strlit("report");
                reveal_strlit("webpage");
                assert("report"@.len() != "webpage"@.len());
            }
            assert("statute"@ != "webpage"@) by {
                reveal_strlit("statute");
                reveal_strlit("webpage");
                assert("statute"@[0] != "webpage"@[0]);
            }
            assert("thesis"@ != "webpage"@) by {
                reveal_strlit("thesis");
                reveal_strlit("webpage");
                assert("thesis"@.len() != "webpage"@.len());
            }
            assert("tvBroadcast"@ != "webpage"@) by {
                reveal_strlit("tvBroadcast");
                reveal_strlit("webpage");
                assert("tvBroadcast"@.len() != "webpage"@.len());
            }
            assert("videoRecording"@ != "webpage"@) by {
                reveal_strlit("videoRecording");
                reveal_strlit("webpage");
                assert("videoRecording"@.len() != "webpage"@.len());
            }
        },
        ItemType::Other(_) => {},
    }
}
impl ItemType {
    /// Items of this type are searched and indexed: everything but
    /// attachments, notes and annotations.
    pub open spec fn indexable(&self) -> bool {
        !(self is Attachment || self is Note || self is Annotation)
    }

    /// Whether items of this type are searched and indexed.
    pub fn is_indexable(&self) -> (b: bool)
        ensures
            b == self.indexable(),
    {
        !matches!(self, ItemType::Attachment | ItemType::Note | ItemType::Annotation)
    }

    /// The default item type: `Other` with an empty wire string.
    pub fn default_type() -> (r: ItemType)
        ensures
            r is Other && r.wire() == Seq::<char>::empty(),
    {
        ItemType::Other(String::new())
    }
}

/// PDF annotation kind carried in the `annotationType` field.
#[derive(Debug, Clone, PartialEq, Eq)]
pub enum AnnotationType {
    /// `highlight`
    Highlight,
    /// `underline`
    Underline,
    /// `note`
    Note,
    /// Any annotation kind not named above, with its wire string.
    Other(String),
}

impl AnnotationType {
    /// The wire string of this value.
    pub open spec fn wire(&self) -> Seq<char> {
        match self {
            AnnotationType::Highlight => "highlight"@,
            AnnotationType::Underline => "underline"@,
            AnnotationType::Note => "note"@,
            AnnotationType::Other(value) => value@,
        }
    }

    /// The named value whose wire string is `s`, if there is one.
    pub open spec fn named(s: Seq<char>) -> Option<AnnotationType> {
        if s == "highlight"@ {
            Some(AnnotationType::Highlight)
        } else if s == "underline"@ {
            Some(AnnotationType::Underline)
        } else if s == "note"@ {
            Some(AnnotationType::Note)
        } else {
            None
        }
    }

    /// The value that the wire string `s` decodes to: the named value, or
    /// `Other` carrying `s` itself.
    pub open spec fn decodes_to(s: Seq<char>, r: AnnotationType) -> bool {
        match AnnotationType::named(s) {
            Some(k) => r == k,
            None => r is Other && r.wire() == s,
        }
    }

    /// Borrows the wire string of this value.
    pub fn as_str(&self) -> (r: &str)
        ensures
            r@ == self.wire(),
    {
        match self {
            AnnotationType::Highlight => "highlight",
            AnnotationType::Underline => "underline",
            AnnotationType::Note => "note",
            AnnotationType::Other(value) => value.as_str(),
        }
    }

    /// Decodes a wire string, keeping unknown values in `Other`.
    pub fn from_wire(s: &str) -> (r: AnnotationType)
        ensures
            AnnotationType::decodes_to(s@, r),
    {
        if str_eq(s, "highlight") {
            AnnotationType::Highlight
        } else if str_eq(s, "underline") {
            AnnotationType::Underline
        } else if str_eq(s, "note") {
            AnnotationType::Note
        } else {
            AnnotationType::Other(s.to_owned())
        }
    }

    /// The owned wire string of this value.
    pub fn to_wire(&self) -> (r: String)
        ensures
            r@ == self.wire(),
    {
        self.as_str().to_owned()
    }
}

/// Whatever string is decoded, encoding the value it decodes to gives the
/// same string back: no wire value is lost.
pub proof fn lemma_annotation_type_decode_keeps_wire(s: Seq<char>, r: AnnotationType)
    requires
        AnnotationType::decodes_to(s, r),
    ensures
        r.wire() == s,
{
}

/// Decoding the wire string of a value gives the value back, unless it is an
/// `Other` that carries the wire string of a named value.
pub proof fn lemma_annotation_type_wire_round_trip(v: AnnotationType)
    requires
        !(v is Other) || AnnotationType::named(v.wire()) is None,
    ensures
        AnnotationType::decodes_to(v.wire(), v),
{
    match v {
        AnnotationType::Highlight => {
        },
        AnnotationType::Underline => {
            assert("highlight"@ != "underline"@) by {
                reveal_strlit("highlight");
                reveal_strlit("underline");
                assert("highlight"@[0] != "underline"@[0]);
            }
        },
        AnnotationType::Note => {
            assert("highlight"@ != "note"@) by {
                reveal_strlit("highlight");
                reveal_strlit("note");
                assert("highlight"@.len() != "note"@.len());
            }
            assert("underline"@ != "note"@) by {
                reveal_strlit("underline");
                reveal_strlit("note");
                assert("underline"@.len() != "note"@.len());
            }
        },
        AnnotationType::Other(_) => {},
    }
}
/// Creator role carried in the `creatorType` field.
#[derive(Debug, Clone, PartialEq, Eq)]
pub enum CreatorType {
    /// `author`
    Author,
    /// `editor`
    Editor,
    /// `translator`
    Translator,
    /// Any creator role not named above, with its wire string.
    Other(String),
}

impl CreatorType {
    /// The wire string of this value.
    pub open spec fn wire(&self) -> Seq<char> {
        match self {
            CreatorType::Author => "author"@,
            CreatorType::Editor => "editor"@,
            CreatorType::Translator => "translator"@,
            CreatorType::Other(value) => value@,
        }
    }

    /// The named value whose wire string is `s`, if there is one.
    pub open spec fn named(s: Seq<char>) -> Option<CreatorType> {
        if s == "author"@ {
            Some(CreatorType::Author)
        } else if s == "editor"@ {
            Some(CreatorType::Editor)
        } else if s == "translator"@ {
            Some(CreatorType::Translator)
        } else {
            None
        }
    }

    /// The value that the wire string `s` decodes to: the named value, or
    /// `Other` carrying `s` itself.
    pub open spec fn decodes_to(s: Seq<char>, r: CreatorType) -> bool {
        match CreatorType::named(s) {
            Some(k) => r == k,
            None => r is Other && r.wire() == s,
        }
    }

    /// Borrows the wire string of this value.
    pub fn as_str(&self) -> (r: &str)
        ensures
            r@ == self.wire(),
    {
        match self {
            CreatorType::Author => "author",
            CreatorType::Editor => "editor",
            CreatorType::Translator => "translator",
            CreatorType::Other(value) => value.as_str(),
        }
    }

    /// Decodes a wire string, keeping unknown values in `Other`.
    pub fn from_wire(s: &str) -> (r: CreatorType)
        ensures
            CreatorType::decodes_to(s@, r),
    {
        if str_eq(s, "author") {
            CreatorType::Author
        } else if str_eq(s, "editor") {
            CreatorType::Editor
        } else if str_eq(s, "translator") {
            CreatorType::Translator
        } else {
            CreatorType::Other(s.to_owned())
        }
    }

    /// The owned wire string of this value.
    pub fn to_wire(&self) -> (r: String)
        ensures
            r@ == self.wire(),
    {
        self.as_str().to_owned()
    }
}

/// Whatever string is decoded, encoding the value it decodes to gives the
/// same string back: no wire value is lost.
pub proof fn lemma_creator_type_decode_keeps_wire(s: Seq<char>, r: CreatorType)
    requires
        CreatorType::decodes_to(s, r),
    ensures
        r.wire() == s,
{
}

/// Decoding the wire string of a value gives the value back, unless it is an
/// `Other` that carries the wire string of a named value.
pub proof fn lemma_creator_type_wire_round_trip(v: CreatorType)
    requires
        !(v is Other) || CreatorType::named(v.wire()) is None,
    ensures
        CreatorType::decodes_to(v.wire(), v),
{
    match v {
        CreatorType::Author => {
        },
        CreatorType::Editor => {
            assert("author"@ != "editor"@) by {
                reveal_strlit("author");
                reveal_strlit("editor");
                assert("author"@[0] != "editor"@[0]);
            }
        },
        CreatorType::Translator => {
            assert("author"@ != "translator"@) by {
                reveal_strlit("author");
                reveal_strlit("translator");
                assert("author"@.len() != "translator"@.len());
            }
            assert("editor"@ != "translator"@) by {
                reveal_strlit("editor");
                reveal_strlit("translator");
                assert("editor"@.len() != "translator"@.len());
            }
        },
        CreatorType::Other(_) => {},
    }
}
/// Attachment storage mode carried in the `linkMode` field.
#[derive(Debug, Clone, PartialEq, Eq)]
pub enum LinkMode {
    /// `imported_file`
    ImportedFile,
    /// `linked_file`
    LinkedFile,
    /// `linked_url`
    LinkedUrl,
    /// `imported_url`
    ImportedUrl,
    /// Any link mode not named above, with its wire string.
    Other(String),
}

impl LinkMode {
    /// The wire string of this value.
    pub open spec fn wire(&self) -> Seq<char> {
        match self {
            LinkMode::ImportedFile => "imported_file"@,
            LinkMode::LinkedFile => "linked_file"@,
            LinkMode::LinkedUrl => "linked_url"@,
            LinkMode::ImportedUrl => "imported_url"@,
            LinkMode::Other(value) => value@,
        }
    }

    /// The named value whose wire string is `s`, if there is one.
    pub open spec fn named(s: Seq<char>) -> Option<LinkMode> {
        if s == "imported_file"@ {
            Some(LinkMode::ImportedFile)
        } else if s == "linked_file"@ {
            Some(LinkMode::LinkedFile)
        } else if s == "linked_url"@ {
            Some(LinkMode::LinkedUrl)
        } else if s == "imported_url"@ {
            Some(LinkMode::ImportedUrl)
        } else {
            None
        }
    }

    /// The value that the wire string `s` decodes to: the named value, or
    /// `Other` carrying `s` itself.
    pub open spec fn decodes_to(s: Seq<char>, r: LinkMode) -> bool {
        match LinkMode::named(s) {
            Some(k) => r == k,
            None => r is Other && r.wire() == s,
        }
    }

    /// Borrows the wire string of this value.
    pub fn as_str(&self) -> (r: &str)
        ensures
            r@ == self.wire(),
    {
        match self {
            LinkMode::ImportedFile => "imported_file",
            LinkMode::LinkedFile => "linked_file",
            LinkMode::LinkedUrl => "linked_url",
            LinkMode::ImportedUrl => "imported_url",
            LinkMode::Other(value) => value.as_str(),
        }
    }

    /// Decodes a wire string, keeping unknown values in `Other`.
    pub fn from_wire(s: &str) -> (r: LinkMode)
        ensures
            LinkMode::decodes_to(s@, r),
    {
        if str_eq(s, "imported_file") {
            LinkMode::ImportedFile
        } else if str_eq(s, "linked_file") {
            LinkMode::LinkedFile
        } else if str_eq(s, "linked_url") {
            LinkMode::LinkedUrl
        } else if str_eq(s, "imported_url") {
            LinkMode::ImportedUrl
        } else {
            LinkMode::Other(s.to_owned())
        }
    }

    /// The owned wire string of this value.
    pub fn to_wire(&self) -> (r: String)
        ensures
            r@ == self.wire(),
    {
        self.as_str().to_owned()
    }
}

/// Whatever string is decoded, encoding the value it decodes to gives the
/// same string back: no wire value is lost.
pub proof fn lemma_link_mode_decode_keeps_wire(s: Seq<char>, r: LinkMode)
    requires
        LinkMode::decodes_to(s, r),
    ensures
        r.wire() == s,
{
}

/// Decoding the wire string of a value gives the value back, unless it is an
/// `Other` that carries the wire string of a named value.
pub proof fn lemma_link_mode_wire_round_trip(v: LinkMode)
    requires
        !(v is Other) || LinkMode::named(v.wire()) is None,
    ensures
        LinkMode::decodes_to(v.wire(), v),
{
    match v {
        LinkMode::ImportedFile => {
        },
        LinkMode::LinkedFile => {
            assert("imported_file"@ != "linked_file"@) by {
                reveal_strlit("imported_file");
                reveal_strlit("linked_file");
                assert("imported_file"@.len() != "linked_file"@.len());
            }
        },
        LinkMode::LinkedUrl => {
            assert("imported_file"@ != "linked_url"@) by {
                reveal_strlit("imported_file");
                reveal_strlit("linked_url");
                assert("imported_file"@.len() != "linked_url"@.len());
            }
            assert("linked_file"@ != "linked_url"@) by {
                reveal_strlit("linked_file");
                reveal_strlit("linked_url");
                assert("linked_file"@.len() != "linked_url"@.len());
            }
        },
        LinkMode::ImportedUrl => {
            assert("imported_file"@ != "imported_url"@) by {
                reveal_strlit("imported_file");
                reveal_strlit("imported_url");
                assert("imported_file"@.len() != "imported_url"@.len());
            }
            assert("linked_file"@ != "imported_url"@) by {
                reveal_strlit("linked_file");
                reveal_strlit("imported_url");
                assert("linked_file"@.len() != "imported_url"@.len());
            }
            assert("linked_url"@ != "imported_url"@) by {
                reveal_strlit("linked_url");
                reveal_strlit("imported_url");
                assert("linked_url"@.len() != "imported_url"@.len());
            }
        },
        LinkMode::Other(_) => {},
    }
}
/// Parent of a Zotero collection: on the wire `false` for a top-level
/// collection, or the parent collection's key.
#[derive(Debug, Clone, PartialEq, Eq)]
pub enum CollectionParent {
    TopLevel,
    Parent(CollectionKey),
}

impl CollectionParent {
    /// The parent that a wire value denotes: a non-empty string other than
    /// `"false"` names the parent; anything else means top level.
    pub open spec fn denoted_by(v: JsonValue, r: CollectionParent) -> bool {
        match v {
            JsonValue::String(s) => if s@.len() > 0 && s@ != "false"@ {
                r matches CollectionParent::Parent(k) && k@ == s@
            } else {
                r is TopLevel
            },
            _ => r is TopLevel,
        }
    }

    /// Decodes the wire value of a collection parent.
    pub fn from_json(v: &JsonValue) -> (r: CollectionParent)
        ensures
            CollectionParent::denoted_by(*v, r),
    {
        match v {
            JsonValue::String(s) => if s.as_str().is_empty() || str_eq(s.as_str(), "false") {
                CollectionParent::TopLevel
            } else {
                CollectionParent::Parent(CollectionKey::from_str(s.as_str()))
            },
            _ => CollectionParent::TopLevel,
        }
    }

    /// Encodes a collection parent: `false` for top level, else the key.
    pub fn to_json(&self) -> (r: JsonValue)
        ensures
            match self {
                CollectionParent::TopLevel => r == JsonValue::Bool(false),
                CollectionParent::Parent(k) => r matches JsonValue::String(s) && s@ == k@,
            },
    {
        match self {
            CollectionParent::TopLevel => JsonValue::Bool(false),
            CollectionParent::Parent(k) => JsonValue::String(k.as_str().to_owned()),
        }
    }
}

impl Default for ItemType {
    /// `Other` with an empty wire string.
    fn default() -> (r: ItemType)
        ensures
            r is Other && r.wire() == Seq::<char>::empty(),
    {
        ItemType::default_type()
    }
}

/// Source of a tag, carried in Zotero's numeric `type` field.
#[derive(Debug, Clone, Copy, PartialEq, Eq)]
pub enum TagOrigin {
    /// Created by a user (`0`).
    User,
    /// Assigned automatically on import (`1`).
    Automatic,
    /// Any other value, kept as is.
    Other(u8),
}

impl Default for TagOrigin {
    /// A tag made by a user.
    fn default() -> (r: TagOrigin)
        ensures
            r == TagOrigin::User,
    {
        TagOrigin::User
    }
}

impl TagOrigin {
    /// The numeric wire value of a tag origin.
    pub open spec fn code(self) -> u8 {
        match self {
            TagOrigin::User => 0,
            TagOrigin::Automatic => 1,
            TagOrigin::Other(n) => n,
        }
    }

    /// Decodes the numeric `type` field.
    pub fn from_u8(value: u8) -> (r: TagOrigin)
        ensures
            value == 0 ==> r == TagOrigin::User,
            value == 1 ==> r == TagOrigin::Automatic,
            value > 1 ==> r == TagOrigin::Other(value),
    {
        match value {
            0 => TagOrigin::User,
            1 => TagOrigin::Automatic,
            other => TagOrigin::Other(other),
        }
    }

    /// Encodes the numeric `type` field.
    pub fn to_u8(self) -> (r: u8)
        ensures
            r == self.code(),
    {
        match self {
            TagOrigin::User => 0,
            TagOrigin::Automatic => 1,
            TagOrigin::Other(n) => n,
        }
    }
}

/// Encoding a decoded tag origin gives the number back.
pub proof fn lemma_tag_origin_round_trip(value: u8, r: TagOrigin)
    requires
        value == 0 ==> r == TagOrigin::User,
        value == 1 ==> r == TagOrigin::Automatic,
        value > 1 ==> r == TagOrigin::Other(value),
    ensures
        r.code() == value,
{
}

/// A collection parent comes back from its wire value: the top level as
/// `false`, a parent as its key, as long as the key is not empty and is not
/// the text `false`.
pub proof fn lemma_collection_parent_round_trip(p: CollectionParent, v: JsonValue, r: CollectionParent)
    requires
        match p {
            CollectionParent::TopLevel => v == JsonValue::Bool(false),
            CollectionParent::Parent(k) => v matches JsonValue::String(s) && s@ == k@,
        },
        CollectionParent::denoted_by(v, r),
        p matches CollectionParent::Parent(k) ==> k@.len() > 0 && k@ != "false"@,
    ensures
        match p {
            CollectionParent::TopLevel => r is TopLevel,
            CollectionParent::Parent(k) => r matches CollectionParent::Parent(k2) && k2@ == k@,
        },
{
}

} // verus!
