//! The records that the service takes and gives, the rows that the storage
//! holds, and the errors of the data-access operations.

use vstd::prelude::*;
use vstd::string::StringExecFns;
use crate::identifier::Uuid;
use crate::identifier::hyphenated_text;

pub mod postgres_error_codes;

verus! {

/// A question as a caller hands it in.
#[derive(Debug)]
pub struct Question {
    pub title: String,
    pub description: String,
}

/// What a `Question` holds, as text.
pub struct QuestionView {
    pub title: Seq<char>,
    pub description: Seq<char>,
}

impl View for Question {
    type V = QuestionView;

    open spec fn view(&self) -> QuestionView {
        QuestionView { title: self.title@, description: self.description@ }
    }
}

/// A stored question as a caller gets it back.
#[derive(Debug)]
pub struct QuestionDetail {
    pub question_uuid: String,
    pub title: String,
    pub description: String,
    pub created_at: String,
    pub modified_at: String,
}

/// What a `QuestionDetail` holds, as text.
pub struct QuestionDetailView {
    pub question_uuid: Seq<char>,
    pub title: Seq<char>,
    pub description: Seq<char>,
    pub created_at: Seq<char>,
    pub modified_at: Seq<char>,
}

impl View for QuestionDetail {
    type V = QuestionDetailView;

    open spec fn view(&self) -> QuestionDetailView {
        QuestionDetailView {
            question_uuid: self.question_uuid@,
            title: self.title@,
            description: self.description@,
            created_at: self.created_at@,
            modified_at: self.modified_at@,
        }
    }
}

impl Clone for QuestionDetail {
    fn clone(&self) -> (copy: Self)
        ensures
            copy@ == self@,
    {
        QuestionDetail {
            question_uuid: self.question_uuid.clone(),
            title: self.title.clone(),
            description: self.description.clone(),
            created_at: self.created_at.clone(),
            modified_at: self.modified_at.clone(),
        }
    }
}

impl PartialEq for QuestionDetail {
    fn eq(&self, other: &Self) -> (equal: bool) {
        self.question_uuid == other.question_uuid && self.title == other.title && self.description
            == other.description && self.created_at == other.created_at && self.modified_at
            == other.modified_at
    }
}

impl vstd::std_specs::cmp::PartialEqSpecImpl for QuestionDetail {
    open spec fn obeys_eq_spec() -> bool {
        true
    }

    open spec fn eq_spec(&self, other: &Self) -> bool {
        self@ == other@
    }
}

/// The identifier of a question, as a caller names it for removal.
#[derive(Debug)]
pub struct QuestionId {
    pub question_uuid: String,
}

impl View for QuestionId {
    type V = Seq<char>;

    open spec fn view(&self) -> Seq<char> {
        self.question_uuid@
    }
}

/// An answer as a caller hands it in: the question it answers, and its text.
#[derive(Debug)]
pub struct Answer {
    pub question_uuid: String,
    pub content: String,
}

/// What an `Answer` holds, as text.
pub struct AnswerView {
    pub question_uuid: Seq<char>,
    pub content: Seq<char>,
}

impl View for Answer {
    type V = AnswerView;

    open spec fn view(&self) -> AnswerView {
        AnswerView { question_uuid: self.question_uuid@, content: self.content@ }
    }
}

/// A stored answer as a caller gets it back.
#[derive(Debug)]
pub struct AnswerDetail {
    pub answer_uuid: String,
    pub question_uuid: String,
    pub content: String,
    pub created_at: String,
    pub modified_at: String,
}

/// What an `AnswerDetail` holds, as text.
pub struct AnswerDetailView {
    pub answer_uuid: Seq<char>,
    pub question_uuid: Seq<char>,
    pub content: Seq<char>,
    pub created_at: Seq<char>,
    pub modified_at: Seq<char>,
}

impl View for AnswerDetail {
    type V = AnswerDetailView;

    open spec fn view(&self) -> AnswerDetailView {
        AnswerDetailView {
            answer_uuid: self.answer_uuid@,
            question_uuid: self.question_uuid@,
            content: self.content@,
            created_at: self.created_at@,
            modified_at: self.modified_at@,
        }
    }
}

impl Clone for AnswerDetail {
    fn clone(&self) -> (copy: Self)
        ensures
            copy@ == self@,
    {
        AnswerDetail {
            answer_uuid: self.answer_uuid.clone(),
            question_uuid: self.question_uuid.clone(),
            content: self.content.clone(),
            created_at: self.created_at.clone(),
            modified_at: self.modified_at.clone(),
        }
    }
}

impl PartialEq for AnswerDetail {
    fn eq(&self, other: &Self) -> (equal: bool) {
        self.answer_uuid == other.answer_uuid && self.question_uuid == other.question_uuid
            && self.content == other.content && self.created_at == other.created_at
            && self.modified_at == other.modified_at
    }
}

impl vstd::std_specs::cmp::PartialEqSpecImpl for AnswerDetail {
    open spec fn obeys_eq_spec() -> bool {
        true
    }

    open spec fn eq_spec(&self, other: &Self) -> bool {
        self@ == other@
    }
}

/// The identifier of an answer, as a caller names it for removal.
#[derive(Debug)]
pub struct AnswerID {
    pub answer_uuid: String,
}

impl View for AnswerID {
    type V = Seq<char>;

    open spec fn view(&self) -> Seq<char> {
        self.answer_uuid@
    }
}

/// A row of the questions table.
#[derive(Debug)]
pub struct QuestionRow {
    pub question_uuid: Uuid,
    pub title: String,
    pub description: String,
    pub created_at: String,
    pub modified_at: String,
}

/// What a `QuestionRow` holds: the identifier as its value, the rest as text.
pub struct QuestionRecord {
    pub question_uuid: u128,
    pub title: Seq<char>,
    pub description: Seq<char>,
    pub created_at: Seq<char>,
    pub modified_at: Seq<char>,
}

impl QuestionRecord {
    /// The detail record that shows this row: the identifier written as
    /// text, every other column as it is.
    pub open spec fn detail(self) -> QuestionDetailView {
        QuestionDetailView {
            question_uuid: hyphenated_text(self.question_uuid),
            title: self.title,
            description: self.description,
            created_at: self.created_at,
            modified_at: self.modified_at,
        }
    }
}

impl View for QuestionRow {
    type V = QuestionRecord;

    open spec fn view(&self) -> QuestionRecord {
        QuestionRecord {
            question_uuid: self.question_uuid.value,
            title: self.title@,
            description: self.description@,
            created_at: self.created_at@,
            modified_at: self.modified_at@,
        }
    }
}

impl Clone for QuestionRow {
    fn clone(&self) -> (copy: Self)
        ensures
            copy@ == self@,
    {
        QuestionRow {
            question_uuid: self.question_uuid,
            title: self.title.clone(),
            description: self.description.clone(),
            created_at: self.created_at.clone(),
            modified_at: self.modified_at.clone(),
        }
    }
}

/// A row of the answers table.
#[derive(Debug)]
pub struct AnswerRow {
    pub answer_uuid: Uuid,
    pub question_uuid: Uuid,
    pub content: String,
    pub created_at: String,
    pub modified_at: String,
}

/// What an `AnswerRow` holds: the identifiers as their values, the rest as
/// text.
pub struct AnswerRecord {
    pub answer_uuid: u128,
    pub question_uuid: u128,
    pub content: Seq<char>,
    pub created_at: Seq<char>,
    pub modified_at: Seq<char>,
}

impl AnswerRecord {
    /// The detail record that shows this row: the identifiers written as
    /// text, every other column as it is.
    pub open spec fn detail(self) -> AnswerDetailView {
        AnswerDetailView {
            answer_uuid: hyphenated_text(self.answer_uuid),
            question_uuid: hyphenated_text(self.question_uuid),
            content: self.content,
            created_at: self.created_at,
            modified_at: self.modified_at,
        }
    }
}

impl View for AnswerRow {
    type V = AnswerRecord;

    open spec fn view(&self) -> AnswerRecord {
        AnswerRecord {
            answer_uuid: self.answer_uuid.value,
            question_uuid: self.question_uuid.value,
            content: self.content@,
            created_at: self.created_at@,
            modified_at: self.modified_at@,
        }
    }
}

impl Clone for AnswerRow {
    fn clone(&self) -> (copy: Self)
        ensures
            copy@ == self@,
    {
        AnswerRow {
            answer_uuid: self.answer_uuid,
            question_uuid: self.question_uuid,
            content: self.content.clone(),
            created_at: self.created_at.clone(),
            modified_at: self.modified_at.clone(),
        }
    }
}

/// What the storage says when it fails a statement: the SQLSTATE code where
/// the database itself refused the statement and gave one, and a message.
#[derive(Debug)]
pub struct StorageFailure {
    pub code: Option<String>,
    pub message: String,
}

/// What a `StorageFailure` holds, as text.
pub struct StorageFailureView {
    pub code: Option<Seq<char>>,
    pub message: Seq<char>,
}

impl View for StorageFailure {
    type V = StorageFailureView;

    open spec fn view(&self) -> StorageFailureView {
        StorageFailureView {
            code: match self.code {
                Some(code) => Some(code@),
                None => None,
            },
            message: self.message@,
        }
    }
}

impl StorageFailureView {
    /// Whether the failure is the database's refusal of a reference.
    pub open spec fn is_foreign_key_violation(self) -> bool {
        self.code == Some(postgres_error_codes::FOREIGN_KEY_VIOLATION@)
    }
}

impl StorageFailure {
    /// Whether the failure is the database's refusal of a reference: it
    /// carries a code, and the code is that of a foreign-key violation.
    pub fn is_foreign_key_violation(&self) -> (yes: bool)
        ensures
            yes == self@.is_foreign_key_violation(),
    {
        match &self.code {
            Some(code) => *code == String::from_str(postgres_error_codes::FOREIGN_KEY_VIOLATION),
            None => false,
        }
    }
}

/// Why a data-access operation failed.
#[derive(Debug)]
pub enum DBError {
    /// An identifier that the caller gave is not valid syntax, or refers to
    /// nothing stored. The text says which.
    InvalidUUID(String),
    /// Any other failure of the storage.
    Other(StorageFailure),
}

/// What a `DBError` holds, as text.
pub enum DBErrorView {
    InvalidUUID(Seq<char>),
    Other(StorageFailureView),
}

impl View for DBError {
    type V = DBErrorView;

    open spec fn view(&self) -> DBErrorView {
        match self {
            DBError::InvalidUUID(reason) => DBErrorView::InvalidUUID(reason@),
            DBError::Other(cause) => DBErrorView::Other(cause@),
        }
    }
}

impl DBErrorView {
    /// The text that the error is shown as.
    pub open spec fn message(self) -> Seq<char> {
        match self {
            DBErrorView::InvalidUUID(reason) => "Invalid UUID provided: "@ + reason,
            DBErrorView::Other(_) => "Database error occurred"@,
        }
    }
}

impl DBError {
    /// The text that the error is shown as.
    pub fn message(&self) -> (text: String)
        ensures
            text@ == self@.message(),
    {
        match self {
            DBError::InvalidUUID(reason) => String::from_str("Invalid UUID provided: ").concat(
                reason.as_str(),
            ),
            DBError::Other(_) => String::from_str("Database error occurred"),
        }
    }
}

impl DeepView for QuestionDetail {
    type V = QuestionDetailView;

    open spec fn deep_view(&self) -> QuestionDetailView {
        self@
    }
}

impl DeepView for AnswerDetail {
    type V = AnswerDetailView;

    open spec fn deep_view(&self) -> AnswerDetailView {
        self@
    }
}

impl DeepView for QuestionRow {
    type V = QuestionRecord;

    open spec fn deep_view(&self) -> QuestionRecord {
        self@
    }
}

impl DeepView for AnswerRow {
    type V = AnswerRecord;

    open spec fn deep_view(&self) -> AnswerRecord {
        self@
    }
}

/// The detail records that show the given question rows, in their order.
pub open spec fn question_details(rows: Seq<QuestionRecord>) -> Seq<QuestionDetailView> {
    Seq::new(rows.len(), |i: int| rows[i].detail())
}

/// The detail records that show the given answer rows, in their order.
pub open spec fn answer_details(rows: Seq<AnswerRecord>) -> Seq<AnswerDetailView> {
    Seq::new(rows.len(), |i: int| rows[i].detail())
}

} // verus!
