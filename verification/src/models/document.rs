//! Documents: pieces of written content with statistics derived from the text.

use crate::ident::{fresh_id, is_random_uuid_text};
use crate::strings::{clone_opt_string, clone_strings, str_eq};
use crate::text::{stats_of, text_stats};
use crate::time::Timestamp;
use std::collections::HashMap;
use vstd::prelude::*;
use vstd::string::*;

verus! {

/// The markup in which a document is written.
#[derive(Clone, Copy, Debug, PartialEq, Eq, Structural)]
pub enum DocumentType {
    Markdown,
    PlainText,
    RichText,
}

impl Default for DocumentType {
    fn default() -> (r: DocumentType)
        ensures
            r == DocumentType::Markdown,
    {
        DocumentType::Markdown
    }
}

impl DocumentType {
    /// The text under which the type is stored: its name as a JSON string.
    pub open spec fn stored(self) -> Seq<char> {
        match self {
            DocumentType::Markdown => "\"Markdown\""@,
            DocumentType::PlainText => "\"PlainText\""@,
            DocumentType::RichText => "\"RichText\""@,
        }
    }

    /// The text under which the type is stored.
    pub fn to_stored(&self) -> (text: String)
        ensures
            text@ == self.stored(),
    {
        match self {
            DocumentType::Markdown => String::from_str("\"Markdown\""),
            DocumentType::PlainText => String::from_str("\"PlainText\""),
            DocumentType::RichText => String::from_str("\"RichText\""),
        }
    }

    /// The type that is stored under `text`, if there is one.
    pub open spec fn read(text: Seq<char>) -> Option<DocumentType> {
        if text == "\"Markdown\""@ {
            Some(DocumentType::Markdown)
        } else if text == "\"PlainText\""@ {
            Some(DocumentType::PlainText)
        } else if text == "\"RichText\""@ {
            Some(DocumentType::RichText)
        } else {
            None
        }
    }

    /// Reads a stored type; `None` where the text is that of no type.
    pub fn from_stored(text: &str) -> (r: Option<DocumentType>)
        ensures
            r == DocumentType::read(text@),
    {
        if str_eq(text, "\"Markdown\"") {
            Some(DocumentType::Markdown)
        } else if str_eq(text, "\"PlainText\"") {
            Some(DocumentType::PlainText)
        } else if str_eq(text, "\"RichText\"") {
            Some(DocumentType::RichText)
        } else {
            None
        }
    }

    /// A text is read as a type exactly where the type is stored under
    /// it: reading inverts storing, and no two are stored alike.
    pub proof fn lemma_read_inverts_stored(self, text: Seq<char>)
        ensures
            DocumentType::read(self.stored()) == Some(self),
            DocumentType::read(text) == Some(self) <==> text == self.stored(),
    {
        reveal_strlit("\"Markdown\"");
        reveal_strlit("\"PlainText\"");
        reveal_strlit("\"RichText\"");
        assert("\"Markdown\""@.len() == 10 && "\"Markdown\""@[1] == 'M');
        assert("\"PlainText\""@.len() == 11 && "\"PlainText\""@[1] == 'P');
        assert("\"RichText\""@.len() == 10 && "\"RichText\""@[1] == 'R');
    }
}

/// How far a document has come.
#[derive(Clone, Copy, Debug, PartialEq, Eq, Structural)]
pub enum DocumentStatus {
    Draft,
    InProgress,
    Review,
    Final,
}

impl Default for DocumentStatus {
    fn default() -> (r: DocumentStatus)
        ensures
            r == DocumentStatus::Draft,
    {
        DocumentStatus::Draft
    }
}

impl DocumentStatus {
    /// The text under which the status is stored: its name as a JSON string.
    pub open spec fn stored(self) -> Seq<char> {
        match self {
            DocumentStatus::Draft => "\"Draft\""@,
            DocumentStatus::InProgress => "\"InProgress\""@,
            DocumentStatus::Review => "\"Review\""@,
            DocumentStatus::Final => "\"Final\""@,
        }
    }

    /// The text under which the status is stored.
    pub fn to_stored(&self) -> (text: String)
        ensures
            text@ == self.stored(),
    {
        match self {
            DocumentStatus::Draft => String::from_str("\"Draft\""),
            DocumentStatus::InProgress => String::from_str("\"InProgress\""),
            DocumentStatus::Review => String::from_str("\"Review\""),
            DocumentStatus::Final => String::from_str("\"Final\""),
        }
    }

    /// The status that is stored under `text`, if there is one.
    pub open spec fn read(text: Seq<char>) -> Option<DocumentStatus> {
        if text == "\"Draft\""@ {
            Some(DocumentStatus::Draft)
        } else if text == "\"InProgress\""@ {
            Some(DocumentStatus::InProgress)
        } else if text == "\"Review\""@ {
            Some(DocumentStatus::Review)
        } else if text == "\"Final\""@ {
            Some(DocumentStatus::Final)
        } else {
            None
        }
    }

    /// Reads a stored status; `None` where the text is that of no status.
    pub fn from_stored(text: &str) -> (r: Option<DocumentStatus>)
        ensures
            r == DocumentStatus::read(text@),
    {
        if str_eq(text, "\"Draft\"") {
            Some(DocumentStatus::Draft)
        } else if str_eq(text, "\"InProgress\"") {
            Some(DocumentStatus::InProgress)
        } else if str_eq(text, "\"Review\"") {
            Some(DocumentStatus::Review)
        } else if str_eq(text, "\"Final\"") {
            Some(DocumentStatus::Final)
        } else {
            None
        }
    }

    /// A text is read as a status exactly where the status is stored under
    /// it: reading inverts storing, and no two are stored alike.
    pub proof fn lemma_read_inverts_stored(self, text: Seq<char>)
        ensures
            DocumentStatus::read(self.stored()) == Some(self),
            DocumentStatus::read(text) == Some(self) <==> text == self.stored(),
    {
        reveal_strlit("\"Draft\"");
        reveal_strlit("\"InProgress\"");
        reveal_strlit("\"Review\"");
        reveal_strlit("\"Final\"");
        assert("\"Draft\""@.len() == 7 && "\"Draft\""@[1] == 'D');
        assert("\"InProgress\""@.len() == 12 && "\"InProgress\""@[1] == 'I');
        assert("\"Review\""@.len() == 8 && "\"Review\""@[1] == 'R');
        assert("\"Final\""@.len() == 7 && "\"Final\""@[1] == 'F');
    }
}

/// What is known about a document beside its text.
#[derive(Clone, Debug, PartialEq, Eq)]
pub struct DocumentMetadata {
    pub author: Option<String>,
    pub language: String,
    pub reading_time: u32,
    pub export_formats: Vec<String>,
    pub version: u32,
}

/// What [`DocumentMetadata`] holds, with texts as sequences of characters.
pub ghost struct MetadataView {
    pub author: Option<Seq<char>>,
    pub language: Seq<char>,
    pub reading_time: u32,
    pub export_formats: Seq<Seq<char>>,
    pub version: u32,
}

impl MetadataView {
    /// The metadata after the text of the document was replaced by
    /// `content`: the reading time is that of the new text, the version
    /// is one higher, and the rest is as it was.
    pub open spec fn after_content_update(self, content: Seq<char>) -> MetadataView {
        MetadataView {
            reading_time: stats_of(content).reading_time,
            version: (self.version + 1) as u32,
            ..self
        }
    }
}

impl View for DocumentMetadata {
    type V = MetadataView;

    open spec fn view(&self) -> MetadataView {
        MetadataView {
            author: match self.author {
                Some(author) => Some(author@),
                None => None,
            },
            language: self.language@,
            reading_time: self.reading_time,
            export_formats: self.export_formats.deep_view(),
            version: self.version,
        }
    }
}

impl DocumentMetadata {
    /// A copy of the metadata.
    pub fn duplicate(&self) -> (copy: DocumentMetadata)
        ensures
            copy@ == self@,
            copy.author == self.author,
            copy.language == self.language,
            copy.export_formats@ == self.export_formats@,
    {
        let copy = DocumentMetadata {
            author: clone_opt_string(&self.author),
            language: self.language.clone(),
            reading_time: self.reading_time,
            export_formats: clone_strings(&self.export_formats),
            version: self.version,
        };
        assert(copy.export_formats.deep_view() =~= self.export_formats.deep_view());
        copy
    }

    /// Metadata in which nothing is set: no author, no language, no export
    /// formats, reading time and version 0.
    pub open spec fn is_blank(self) -> bool {
        &&& self.author is None
        &&& self.language@ == Seq::<char>::empty()
        &&& self.reading_time == 0
        &&& self.export_formats@ == Seq::<String>::empty()
        &&& self.version == 0
    }

    /// The metadata of a document that was just made and takes
    /// `reading_time` minutes to read.
    pub open spec fn is_initial(self, reading_time: u32) -> bool {
        &&& self.author is None
        &&& self.language@ == "zh-CN"@
        &&& self.reading_time == reading_time
        &&& self.export_formats@.len() == 2
        &&& self.export_formats@[0]@ == "markdown"@
        &&& self.export_formats@[1]@ == "pdf"@
        &&& self.version == 1
    }
}

impl Default for DocumentMetadata {
    fn default() -> (r: DocumentMetadata)
        ensures
            r.is_blank(),
    {
        DocumentMetadata {
            author: None,
            language: String::new(),
            reading_time: 0,
            export_formats: Vec::new(),
            version: 0,
        }
    }
}

/// What a caller gives to have a document made.
#[derive(Clone, Debug, PartialEq, Eq)]
pub struct CreateDocumentData {
    pub title: String,
    pub content: Option<String>,
    pub content_type: DocumentType,
    pub project_id: String,
    pub folder_path: Option<String>,
    pub tags: Option<Vec<String>>,
    pub template_id: Option<String>,
}

impl CreateDocumentData {
    /// The text that the document starts with: the given one, or none.
    pub open spec fn initial_content(self) -> Seq<char> {
        match self.content {
            Some(content) => content@,
            None => Seq::empty(),
        }
    }

    /// The tags that the document starts with: the given ones, or none.
    pub open spec fn initial_tags(self) -> Seq<String> {
        match self.tags {
            Some(tags) => tags@,
            None => Seq::empty(),
        }
    }
}

/// Counts over a set of documents.
#[derive(Clone, Debug, PartialEq, Eq)]
pub struct DocumentStats {
    pub total: u32,
    pub by_status: HashMap<String, u32>,
    pub by_type: HashMap<String, u32>,
    pub total_words: u32,
    pub recent_count: u32,
}

/// A document as it is kept.
#[derive(Clone, Debug, PartialEq, Eq)]
pub struct Document {
    pub id: String,
    pub title: String,
    pub content: String,
    pub content_type: DocumentType,
    pub status: DocumentStatus,
    pub word_count: u32,
    pub char_count: u32,
    pub project_id: String,
    pub folder_path: Option<String>,
    pub tags: Vec<String>,
    pub metadata: DocumentMetadata,
    pub created_at: Timestamp,
    pub updated_at: Timestamp,
    pub last_accessed: Timestamp,
}

impl Document {
    /// Word count, character count and reading time agree with the text.
    pub open spec fn stats_agree(self) -> bool {
        &&& self.word_count == stats_of(self.content@).word_count
        &&& self.char_count == stats_of(self.content@).char_count
        &&& self.metadata.reading_time == stats_of(self.content@).reading_time
    }

    /// Tells whether `self` is the document made from `data` under the
    /// identifier `id` at the instant `now`: a draft at version 1 whose
    /// statistics are those of its text and whose three instants are `now`.
    pub open spec fn is_fresh(self, data: CreateDocumentData, id: String, now: Timestamp) -> bool {
        &&& self.id == id
        &&& self.title == data.title
        &&& self.content@ == data.initial_content()
        &&& self.content_type == data.content_type
        &&& self.status == DocumentStatus::Draft
        &&& self.stats_agree()
        &&& self.project_id == data.project_id
        &&& self.folder_path == data.folder_path
        &&& self.tags@ == data.initial_tags()
        &&& self.metadata.is_initial(stats_of(data.initial_content()).reading_time)
        &&& self.created_at == now
        &&& self.updated_at == now
        &&& self.last_accessed == now
    }

    /// Tells whether `self` is `before` after its text was replaced by
    /// `content` at the instant `now`: the statistics are those of the new
    /// text, the version is one higher, and the document was changed and
    /// read at `now`. Everything else is as it was.
    pub open spec fn is_content_update(self, before: Document, content: Seq<char>, now: Timestamp) -> bool {
        &&& self.content@ == content
        &&& self.stats_agree()
        &&& self.metadata.version == before.metadata.version + 1
        &&& self.updated_at == now
        &&& self.last_accessed == now
        &&& self.id == before.id
        &&& self.title == before.title
        &&& self.content_type == before.content_type
        &&& self.status == before.status
        &&& self.project_id == before.project_id
        &&& self.folder_path == before.folder_path
        &&& self.tags == before.tags
        &&& self.metadata.author == before.metadata.author
        &&& self.metadata.language == before.metadata.language
        &&& self.metadata.export_formats == before.metadata.export_formats
        &&& self.created_at == before.created_at
    }

    /// A content update leaves the metadata as
    /// [`MetadataView::after_content_update`] says, whether it is made on
    /// the document or on its stored row.
    pub proof fn lemma_content_update_metadata(
        self,
        before: Document,
        content: Seq<char>,
        now: Timestamp,
    )
        requires
            self.is_content_update(before, content, now),
            before.metadata.version < u32::MAX,
        ensures
            self.metadata@ == before.metadata@.after_content_update(content),
    {
    }

    /// Makes the document that `data` describes, with the given identity.
    pub fn with_identity(data: CreateDocumentData, id: String, now: Timestamp) -> (d: Document)
        ensures
            d.is_fresh(data, id, now),
    {
        let content = match data.content {
            Some(content) => content,
            None => String::new(),
        };
        let tags = match data.tags {
            Some(tags) => tags,
            None => Vec::new(),
        };
        let stats = text_stats(content.as_str());
        let mut export_formats: Vec<String> = Vec::new();
        export_formats.push(String::from_str("markdown"));
        export_formats.push(String::from_str("pdf"));
        Document {
            id,
            title: data.title,
            content,
            content_type: data.content_type,
            status: DocumentStatus::Draft,
            word_count: stats.word_count,
            char_count: stats.char_count,
            project_id: data.project_id,
            folder_path: data.folder_path,
            tags,
            metadata: DocumentMetadata {
                author: None,
                language: String::from_str("zh-CN"),
                reading_time: stats.reading_time,
                export_formats,
                version: 1,
            },
            created_at: now,
            updated_at: now,
            last_accessed: now,
        }
    }

    /// Makes the document that `data` describes, under a fresh identifier
    /// and stamped with the current instant.
    pub fn new(data: CreateDocumentData) -> (d: Document)
        ensures
            d.is_fresh(data, d.id, d.created_at),
            is_random_uuid_text(d.id@),
    {
        let now = Timestamp::now();
        Document::with_identity(data, fresh_id(), now)
    }

    /// Replaces the text at the instant `now` and brings the statistics,
    /// the version and the instants up to date.
    pub fn update_content_at(&mut self, content: String, now: Timestamp)
        requires
            old(self).metadata.version < u32::MAX,
        ensures
            final(self).is_content_update(*old(self), content@, now),
    {
        let stats = text_stats(content.as_str());
        self.content = content;
        self.word_count = stats.word_count;
        self.char_count = stats.char_count;
        self.metadata.reading_time = stats.reading_time;
        self.metadata.version = self.metadata.version + 1;
        self.updated_at = now;
        self.last_accessed = now;
    }

    /// Replaces the text at the current instant.
    pub fn update_content(&mut self, content: String)
        requires
            old(self).metadata.version < u32::MAX,
        ensures
            final(self).is_content_update(*old(self), content@, final(self).updated_at),
    {
        let now = Timestamp::now();
        self.update_content_at(content, now);
    }

    /// Sets the status at the instant `now`; nothing else but the instant
    /// of the last change moves.
    pub fn update_status_at(&mut self, status: DocumentStatus, now: Timestamp)
        ensures
            *final(self) == (Document { status, updated_at: now, ..*old(self) }),
            old(self).stats_agree() ==> final(self).stats_agree(),
    {
        self.status = status;
        self.updated_at = now;
    }

    /// Sets the status at the current instant.
    pub fn update_status(&mut self, status: DocumentStatus)
        ensures
            *final(self) == (Document {
                status,
                updated_at: final(self).updated_at,
                ..*old(self)
            }),
    {
        let now = Timestamp::now();
        self.update_status_at(status, now);
    }
}

} // verus!
