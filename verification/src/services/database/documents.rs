//! Documents in the store.

use crate::error::StoreError;
use crate::ident::is_random_uuid_text;
use crate::json::{decode_tags, decode_tags_or_none, encode_tags, json_of_strings, strings_of_json};
use crate::models::document::{
    CreateDocumentData,
    Document,
    DocumentMetadata,
    DocumentStatus,
    DocumentType,
    MetadataView,
};
use crate::models::project::Project;
use crate::services::database::{all_decoded, instant, read_all, Database, StoredRow};
use crate::sql::{opt_text, Param, ParamView, Plan, Statement, StatementView};
use crate::strings::{clone_opt_string, owned};
use crate::text::{stats_of, text_stats};
use crate::time::Timestamp;
use vstd::prelude::*;

verus! {

/// Stores a document.
pub const INSERT_DOCUMENT: &'static str =
    "INSERT INTO documents (id, title, content, content_type, status, word_count, char_count, project_id, folder_path, tags, metadata, created_at, updated_at, last_accessed) VALUES (?1, ?2, ?3, ?4, ?5, ?6, ?7, ?8, ?9, ?10, ?11, ?12, ?13, ?14)";

/// Adds one document and its words to the counts of a project.
pub const COUNT_DOCUMENT_IN_PROJECT: &'static str =
    "UPDATE projects SET documents_count = documents_count + 1, words_count = words_count + ?1 WHERE id = ?2";

/// Asks for the documents of a project, the one changed last first.
pub const SELECT_DOCUMENTS_OF_PROJECT: &'static str =
    "SELECT * FROM documents WHERE project_id = ?1 ORDER BY updated_at DESC";

/// Asks for one document.
pub const SELECT_DOCUMENT: &'static str = "SELECT * FROM documents WHERE id = ?1";

/// Writes the changeable fields of a document.
pub const UPDATE_DOCUMENT: &'static str =
    "UPDATE documents SET title = ?2, content = ?3, status = ?4, word_count = ?5, char_count = ?6, tags = ?7, metadata = ?8, updated_at = ?9 WHERE id = ?1";

/// Removes a document.
pub const DELETE_DOCUMENT: &'static str = "DELETE FROM documents WHERE id = ?1";

/// Writes the text of a document, its counts and its metadata.
pub const UPDATE_DOCUMENT_CONTENT: &'static str =
    "UPDATE documents SET content = ?2, word_count = ?3, char_count = ?4, metadata = ?5, updated_at = ?6, last_accessed = ?7 WHERE id = ?1";

/// A row of the table `documents`, as the store hands it out. The column
/// `metadata` holds JSON; `None` stands for a text that cannot be read as
/// metadata.
#[derive(Clone, Debug, PartialEq, Eq)]
pub struct DocumentRow {
    pub id: String,
    pub title: String,
    pub content: String,
    pub content_type: String,
    pub status: String,
    pub word_count: i64,
    pub char_count: i64,
    pub project_id: String,
    pub folder_path: Option<String>,
    pub tags: String,
    pub metadata: Option<DocumentMetadata>,
    pub created_at: String,
    pub updated_at: String,
    pub last_accessed: String,
}

/// The view of metadata in which nothing is set.
pub open spec fn blank_metadata() -> MetadataView {
    MetadataView {
        author: None,
        language: Seq::empty(),
        reading_time: 0,
        export_formats: Seq::empty(),
        version: 0,
    }
}

impl DocumentRow {
    /// The first of the three instants that is not RFC 3339.
    pub open spec fn instant_fault(self) -> Option<StoreError> {
        if Timestamp::read(self.created_at@) is None {
            Some(StoreError::InvalidTimestamp(self.created_at))
        } else if Timestamp::read(self.updated_at@) is None {
            Some(StoreError::InvalidTimestamp(self.updated_at))
        } else if Timestamp::read(self.last_accessed@) is None {
            Some(StoreError::InvalidTimestamp(self.last_accessed))
        } else {
            None
        }
    }

    /// The metadata of the row, with blank metadata in place of a text
    /// that cannot be read.
    pub open spec fn lenient_metadata(self) -> MetadataView {
        match self.metadata {
            Some(m) => m@,
            None => blank_metadata(),
        }
    }

    /// What keeps the row from being read when every column must be sound,
    /// the columns taken in the order type, status, tags, metadata,
    /// instants.
    pub open spec fn strict_fault(self) -> Option<StoreError> {
        if DocumentType::read(self.content_type@) is None {
            Some(StoreError::InvalidDocumentType(self.content_type))
        } else if DocumentStatus::read(self.status@) is None {
            Some(StoreError::InvalidStatus(self.status))
        } else if strings_of_json(self.tags@) is None {
            Some(StoreError::InvalidTags(self.tags))
        } else if self.metadata is None {
            Some(StoreError::InvalidMetadata)
        } else {
            self.instant_fault()
        }
    }

    /// The columns of `d` that are stored as they are, and its instants. A
    /// count beyond the range of `u32` keeps its low 32 bits.
    pub open spec fn holds_plainly(self, d: Document) -> bool {
        &&& d.id == self.id
        &&& d.title == self.title
        &&& d.content == self.content
        &&& d.word_count == self.word_count as u32
        &&& d.char_count == self.char_count as u32
        &&& d.project_id == self.project_id
        &&& d.folder_path == self.folder_path
        &&& Some(d.created_at) == Timestamp::read(self.created_at@)
        &&& Some(d.updated_at) == Timestamp::read(self.updated_at@)
        &&& Some(d.last_accessed) == Timestamp::read(self.last_accessed@)
    }

    /// Tells whether `d` is the document of a row in which every column is
    /// sound.
    pub open spec fn holds_strictly(self, d: Document) -> bool {
        &&& self.holds_plainly(d)
        &&& Some(d.content_type) == DocumentType::read(self.content_type@)
        &&& Some(d.status) == DocumentStatus::read(self.status@)
        &&& Some(d.tags.deep_view()) == strings_of_json(self.tags@)
        &&& (self.metadata matches Some(m) && d.metadata@ == m@)
    }

    /// Tells whether `d` is the document of a row whose instants are
    /// sound, with the default in place of each other column that cannot
    /// be read: Markdown, draft, no tags, blank metadata.
    pub open spec fn holds_leniently(self, d: Document) -> bool {
        &&& self.holds_plainly(d)
        &&& d.content_type == match DocumentType::read(self.content_type@) {
            Some(kind) => kind,
            None => DocumentType::Markdown,
        }
        &&& d.status == match DocumentStatus::read(self.status@) {
            Some(status) => status,
            None => DocumentStatus::Draft,
        }
        &&& d.tags.deep_view() == match strings_of_json(self.tags@) {
            Some(tags) => tags,
            None => Seq::empty(),
        }
        &&& d.metadata@ == self.lenient_metadata()
    }

    /// A row in which every column is sound is read alike with and
    /// without the defaults: they only stand in for what cannot be read.
    pub proof fn lemma_sound_rows_read_alike(self, d: Document)
        requires
            self.strict_fault() is None,
        ensures
            self.instant_fault() is None,
            self.holds_strictly(d) <==> self.holds_leniently(d),
    {
    }

    /// Reads the metadata of the row; a text that cannot be read gives
    /// blank metadata.
    pub fn read_metadata(&self) -> (m: DocumentMetadata)
        ensures
            m@ == self.lenient_metadata(),
    {
        match &self.metadata {
            Some(m) => m.duplicate(),
            None => {
                let m = DocumentMetadata::default();
                assert(m@.export_formats =~= Seq::<Seq<char>>::empty());
                m
            },
        }
    }

    fn with_columns(
        &self,
        content_type: DocumentType,
        status: DocumentStatus,
        tags: Vec<String>,
        metadata: DocumentMetadata,
    ) -> (r: Result<Document, StoreError>)
        ensures
            match r {
                Ok(d) => {
                    &&& self.instant_fault() is None
                    &&& self.holds_plainly(d)
                    &&& d.content_type == content_type
                    &&& d.status == status
                    &&& d.tags == tags
                    &&& d.metadata == metadata
                },
                Err(e) => self.instant_fault() == Some(e),
            },
    {
        let created_at = match Timestamp::from_stored(self.created_at.as_str()) {
            Some(t) => t,
            None => { return Err(StoreError::InvalidTimestamp(self.created_at.clone())); },
        };
        let updated_at = match Timestamp::from_stored(self.updated_at.as_str()) {
            Some(t) => t,
            None => { return Err(StoreError::InvalidTimestamp(self.updated_at.clone())); },
        };
        let last_accessed = match Timestamp::from_stored(self.last_accessed.as_str()) {
            Some(t) => t,
            None => { return Err(StoreError::InvalidTimestamp(self.last_accessed.clone())); },
        };
        Ok(
            Document {
                id: self.id.clone(),
                title: self.title.clone(),
                content: self.content.clone(),
                content_type,
                status,
                word_count: #[verifier::truncate] (self.word_count as u32),
                char_count: #[verifier::truncate] (self.char_count as u32),
                project_id: self.project_id.clone(),
                folder_path: clone_opt_string(&self.folder_path),
                tags,
                metadata,
                created_at,
                updated_at,
                last_accessed,
            },
        )
    }

    /// Reads the row; only the instants must be sound.
    pub fn decode_leniently(&self) -> (r: Result<Document, StoreError>)
        ensures
            match r {
                Ok(d) => self.instant_fault() is None && self.holds_leniently(d),
                Err(e) => self.instant_fault() == Some(e),
            },
    {
        let content_type = match DocumentType::from_stored(self.content_type.as_str()) {
            Some(kind) => kind,
            None => DocumentType::Markdown,
        };
        let status = match DocumentStatus::from_stored(self.status.as_str()) {
            Some(status) => status,
            None => DocumentStatus::Draft,
        };
        let tags = decode_tags_or_none(self.tags.as_str());
        let metadata = self.read_metadata();
        self.with_columns(content_type, status, tags, metadata)
    }
}

impl StoredRow for DocumentRow {
    type Record = Document;

    open spec fn fault(&self) -> Option<StoreError> {
        self.strict_fault()
    }

    open spec fn holds(&self, record: Document) -> bool {
        self.holds_strictly(record)
    }

    fn decode(&self) -> (r: Result<Document, StoreError>) {
        let content_type = match DocumentType::from_stored(self.content_type.as_str()) {
            Some(kind) => kind,
            None => { return Err(StoreError::InvalidDocumentType(self.content_type.clone())); },
        };
        let status = match DocumentStatus::from_stored(self.status.as_str()) {
            Some(status) => status,
            None => { return Err(StoreError::InvalidStatus(self.status.clone())); },
        };
        let tags = match decode_tags(self.tags.as_str()) {
            Some(tags) => tags,
            None => { return Err(StoreError::InvalidTags(self.tags.clone())); },
        };
        let metadata = match &self.metadata {
            Some(m) => m.duplicate(),
            None => { return Err(StoreError::InvalidMetadata); },
        };
        self.with_columns(content_type, status, tags, metadata)
    }
}

impl Database {
    /// The statement that stores the document `d`.
    pub open spec fn document_insert(d: Document) -> StatementView {
        StatementView {
            sql: INSERT_DOCUMENT@,
            params: seq![
                ParamView::Text(d.id@),
                ParamView::Text(d.title@),
                ParamView::Text(d.content@),
                ParamView::Text(d.content_type.stored()),
                ParamView::Text(d.status.stored()),
                ParamView::Integer(d.word_count as int),
                ParamView::Integer(d.char_count as int),
                ParamView::Text(d.project_id@),
                opt_text(d.folder_path),
                ParamView::Text(json_of_strings(d.tags.deep_view())),
                ParamView::Metadata(d.metadata@),
                instant(d.created_at),
                instant(d.updated_at),
                instant(d.last_accessed),
            ],
        }
    }

    /// The statement that counts one more document, of `words` words, in
    /// the project `project_id`.
    pub open spec fn document_count(words: u32, project_id: Seq<char>) -> StatementView {
        StatementView {
            sql: COUNT_DOCUMENT_IN_PROJECT@,
            params: seq![ParamView::Integer(words as int), ParamView::Text(project_id)],
        }
    }

    /// The statements that store the document `d` and count it in its
    /// project.
    pub open spec fn document_storage(d: Document) -> Seq<StatementView> {
        seq![
            Database::document_insert(d),
            Database::document_count(d.word_count, d.project_id@),
        ]
    }

    /// The statement that writes title, text, status, counts, tags and
    /// metadata of `d` over those of the document `id`, changed at `now`.
    pub open spec fn document_update(id: Seq<char>, d: Document, now: Timestamp) -> StatementView {
        StatementView {
            sql: UPDATE_DOCUMENT@,
            params: seq![
                ParamView::Text(id),
                ParamView::Text(d.title@),
                ParamView::Text(d.content@),
                ParamView::Text(d.status.stored()),
                ParamView::Integer(d.word_count as int),
                ParamView::Integer(d.char_count as int),
                ParamView::Text(json_of_strings(d.tags.deep_view())),
                ParamView::Metadata(d.metadata@),
                instant(now),
            ],
        }
    }

    /// The statement that writes the text `content`, its word and
    /// character counts and the metadata `metadata` over those of the
    /// document `id`, changed and read at `now`.
    pub open spec fn content_update(
        id: Seq<char>,
        content: Seq<char>,
        metadata: MetadataView,
        now: Timestamp,
    ) -> StatementView {
        StatementView {
            sql: UPDATE_DOCUMENT_CONTENT@,
            params: seq![
                ParamView::Text(id),
                ParamView::Text(content),
                ParamView::Integer(stats_of(content).word_count as int),
                ParamView::Integer(stats_of(content).char_count as int),
                ParamView::Metadata(metadata),
                instant(now),
                instant(now),
            ],
        }
    }

    /// Tells whether `r` is what saving the text `content` of the document
    /// `id` at `now` comes to, where `stored` is the row that the store
    /// holds under `id`. Without a row there is nothing to write. With one,
    /// a single statement writes the text, its counts, and the metadata
    /// of the row with the reading time of the new text and a version
    /// one higher. A version that cannot rise fails the save, and nothing
    /// is written.
    pub open spec fn is_content_save(
        r: Result<Vec<Statement>, StoreError>,
        id: Seq<char>,
        content: Seq<char>,
        stored: Option<&DocumentRow>,
        now: Timestamp,
    ) -> bool {
        match stored {
            None => r matches Ok(statements) && statements@.len() == 0,
            Some(row) => if row.lenient_metadata().version < u32::MAX {
                r matches Ok(statements) && statements@.map_values(|s: Statement| s@) == seq![
                    Database::content_update(
                        id,
                        content,
                        row.lenient_metadata().after_content_update(content),
                        now,
                    ),
                ]
            } else {
                r matches Err(StoreError::VersionExhausted(document)) && document@ == id
            },
        }
    }

    /// The statement that stores `d`.
    pub fn insert_document(d: &Document) -> (s: Statement)
        ensures
            s@ == Database::document_insert(*d),
    {
        let mut params: Vec<Param> = Vec::new();
        params.push(Param::text(d.id.as_str()));
        params.push(Param::text(d.title.as_str()));
        params.push(Param::text(d.content.as_str()));
        params.push(Param::Text(d.content_type.to_stored()));
        params.push(Param::Text(d.status.to_stored()));
        params.push(Param::count(d.word_count));
        params.push(Param::count(d.char_count));
        params.push(Param::text(d.project_id.as_str()));
        params.push(Param::optional_text(&d.folder_path));
        params.push(Param::Text(encode_tags(&d.tags)));
        params.push(Param::Metadata(d.metadata.duplicate()));
        params.push(Param::Text(d.created_at.to_stored()));
        params.push(Param::Text(d.updated_at.to_stored()));
        params.push(Param::Text(d.last_accessed.to_stored()));
        let s = Statement::new(INSERT_DOCUMENT, params);
        assert(s@.params =~= Database::document_insert(*d).params);
        s
    }

    /// The statements that store `d` and add it to the counts of its
    /// project: one document more, and as many words more as `d` has.
    pub fn store_document(d: &Document) -> (statements: Vec<Statement>)
        ensures
            statements@.map_values(|s: Statement| s@) == Database::document_storage(*d),
    {
        let mut count_params: Vec<Param> = Vec::new();
        count_params.push(Param::count(d.word_count));
        count_params.push(Param::text(d.project_id.as_str()));
        let count = Statement::new(COUNT_DOCUMENT_IN_PROJECT, count_params);
        assert(count@.params =~= Database::document_count(d.word_count, d.project_id@).params);
        let mut statements: Vec<Statement> = Vec::new();
        statements.push(Database::insert_document(d));
        statements.push(count);
        assert(statements@.map_values(|s: Statement| s@) =~= Database::document_storage(*d));
        statements
    }

    /// Makes a document from `data` in the project that was found under
    /// `data.project_id`, under the identifier `id` at the instant `now`.
    /// Without such a project nothing is made and nothing is to be run.
    pub fn create_document_as(
        data: CreateDocumentData,
        parent: Option<&Project>,
        id: String,
        now: Timestamp,
    ) -> (r: Result<Plan<Document>, StoreError>)
        ensures
            match r {
                Ok(plan) => {
                    &&& parent is Some
                    &&& plan.value.is_fresh(data, id, now)
                    &&& plan.statements@.map_values(|s: Statement| s@)
                        == Database::document_storage(plan.value)
                },
                Err(e) => parent is None && e == StoreError::ProjectNotFound(data.project_id),
            },
    {
        match parent {
            None => Err(StoreError::ProjectNotFound(data.project_id)),
            Some(_) => {
                let document = Document::with_identity(data, id, now);
                let statements = Database::store_document(&document);
                Ok(Plan { value: document, statements })
            },
        }
    }

    /// Makes a document from `data`, under a fresh identifier and stamped
    /// with the current instant, in the project that was found under
    /// `data.project_id`: `parent` is the answer to
    /// [`Database::get_project_by_id`]. Without such a project the
    /// operation fails and nothing is to be run; with one it succeeds, and
    /// the statements store the document and add one document and the
    /// document's words to the counts of the project.
    pub fn create_document(&self, data: CreateDocumentData, parent: Option<&Project>) -> (r: Result<
        Plan<Document>,
        StoreError,
    >)
        ensures
            match r {
                Ok(plan) => {
                    &&& parent is Some
                    &&& plan.value.is_fresh(data, plan.value.id, plan.value.created_at)
                    &&& is_random_uuid_text(plan.value.id@)
                    &&& plan.statements@.map_values(|s: Statement| s@)
                        == Database::document_storage(plan.value)
                },
                Err(e) => parent is None && e == StoreError::ProjectNotFound(data.project_id),
            },
    {
        match parent {
            None => Err(StoreError::ProjectNotFound(data.project_id)),
            Some(_) => {
                let document = Document::new(data);
                let statements = Database::store_document(&document);
                Ok(Plan { value: document, statements })
            },
        }
    }

    /// The query for the documents of the project `project_id`, the one
    /// changed last first.
    pub fn get_documents_by_project(&self, project_id: &str) -> (s: Statement)
        ensures
            s@ == Database::by_id(SELECT_DOCUMENTS_OF_PROJECT@, project_id@),
    {
        Database::statement_by_id(SELECT_DOCUMENTS_OF_PROJECT, project_id)
    }

    /// Reads the rows of [`Database::get_documents_by_project`], in their
    /// order. The first row that cannot be read fails the whole.
    pub fn read_documents(rows: &Vec<DocumentRow>) -> (r: Result<Vec<Document>, StoreError>)
        ensures
            all_decoded(rows@, r),
    {
        read_all(rows)
    }

    /// The query for the document `document_id`.
    pub fn get_document_by_id(&self, document_id: &str) -> (s: Statement)
        ensures
            s@ == Database::by_id(SELECT_DOCUMENT@, document_id@),
    {
        Database::statement_by_id(SELECT_DOCUMENT, document_id)
    }

    /// Reads the answer to [`Database::get_document_by_id`]: no row is no
    /// document; in a row only the instants must be sound, and each other
    /// column that cannot be read gives its default.
    pub fn read_document(row: Option<&DocumentRow>) -> (r: Result<Option<Document>, StoreError>)
        ensures
            match row {
                None => r == Ok::<Option<Document>, StoreError>(None),
                Some(row) => match r {
                    Ok(found) => row.instant_fault() is None && (found matches Some(d)
                        && row.holds_leniently(d)),
                    Err(e) => row.instant_fault() == Some(e),
                },
            },
    {
        match row {
            None => Ok(None),
            Some(row) => match row.decode_leniently() {
                Ok(d) => Ok(Some(d)),
                Err(e) => Err(e),
            },
        }
    }

    /// The statement that writes the changeable fields of `d` over those
    /// of the document `document_id`, changed at `now`.
    pub fn update_document_at(document_id: &str, d: &Document, now: Timestamp) -> (s: Statement)
        ensures
            s@ == Database::document_update(document_id@, *d, now),
    {
        let mut params: Vec<Param> = Vec::new();
        params.push(Param::text(document_id));
        params.push(Param::text(d.title.as_str()));
        params.push(Param::text(d.content.as_str()));
        params.push(Param::Text(d.status.to_stored()));
        params.push(Param::count(d.word_count));
        params.push(Param::count(d.char_count));
        params.push(Param::Text(encode_tags(&d.tags)));
        params.push(Param::Metadata(d.metadata.duplicate()));
        params.push(Param::Text(now.to_stored()));
        let s = Statement::new(UPDATE_DOCUMENT, params);
        assert(s@.params =~= Database::document_update(document_id@, *d, now).params);
        s
    }

    /// The statement that writes the changeable fields of `document_data`
    /// over those of the document `document_id`, changed at the current
    /// instant whatever instant `document_data` carries.
    pub fn update_document(&self, document_id: &str, document_data: Document) -> (s: Statement)
        ensures
            exists|now: Timestamp| s@ == Database::document_update(document_id@, document_data, now),
    {
        Database::update_document_at(document_id, &document_data, Timestamp::now())
    }

    /// The statement that removes the document `document_id`. The counts
    /// of its project are left as they are.
    pub fn delete_document(&self, document_id: &str) -> (s: Statement)
        ensures
            s@ == Database::by_id(DELETE_DOCUMENT@, document_id@),
    {
        Database::statement_by_id(DELETE_DOCUMENT, document_id)
    }

    /// What saving the text `content` of the document `document_id` at
    /// `now` comes to. `stored` is the answer to
    /// [`Database::get_document_by_id`]: the row under the identifier, if
    /// there is one. The statement writes the text, its word and
    /// character counts, and the metadata of the row with the reading
    /// time of the new text and the version raised by one.
    pub fn save_document_content_at(
        document_id: &str,
        content: &str,
        stored: Option<&DocumentRow>,
        now: Timestamp,
    ) -> (r: Result<Vec<Statement>, StoreError>)
        ensures
            Database::is_content_save(r, document_id@, content@, stored, now),
    {
        let mut statements: Vec<Statement> = Vec::new();
        let row = match stored {
            Some(row) => row,
            None => { return Ok(statements); },
        };
        let mut metadata = row.read_metadata();
        if metadata.version == u32::MAX {
            return Err(StoreError::VersionExhausted(owned(document_id)));
        }
        let stats = text_stats(content);
        metadata.reading_time = stats.reading_time;
        metadata.version = metadata.version + 1;
        assert(metadata@ == row.lenient_metadata().after_content_update(content@));
        let mut params: Vec<Param> = Vec::new();
        params.push(Param::text(document_id));
        params.push(Param::text(content));
        params.push(Param::count(stats.word_count));
        params.push(Param::count(stats.char_count));
        params.push(Param::Metadata(metadata));
        params.push(Param::Text(now.to_stored()));
        params.push(Param::Text(now.to_stored()));
        let s = Statement::new(UPDATE_DOCUMENT_CONTENT, params);
        assert(s@.params =~= Database::content_update(
            document_id@,
            content@,
            row.lenient_metadata().after_content_update(content@),
            now,
        ).params);
        statements.push(s);
        assert(statements@.map_values(|s: Statement| s@) =~= seq![
            Database::content_update(
                document_id@,
                content@,
                row.lenient_metadata().after_content_update(content@),
                now,
            ),
        ]);
        Ok(statements)
    }

    /// What saving the text `content` of the document `document_id` at
    /// the current instant comes to; `stored` is the row under the
    /// identifier, if there is one.
    pub fn save_document_content(
        &self,
        document_id: &str,
        content: &str,
        stored: Option<&DocumentRow>,
    ) -> (r: Result<Vec<Statement>, StoreError>)
        ensures
            exists|now: Timestamp|
                Database::is_content_save(r, document_id@, content@, stored, now),
    {
        Database::save_document_content_at(document_id, content, stored, Timestamp::now())
    }
}

} // verus!
