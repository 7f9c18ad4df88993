//! Data access for answers: create, delete, list by question.
//!
//! Each operation is one statement against the storage. What is decided
//! before the statement (is the identifier valid, what is handed to the
//! storage) and after it (what the storage's outcome means for the caller)
//! stands here, apart from the storage itself.

use vstd::prelude::*;
use vstd::string::StringExecFns;
use crate::identifier::Uuid;
use crate::identifier::is_uuid_text;
use crate::identifier::lemma_text_round_trip;
use crate::identifier::parse_error_text;
use crate::identifier::uuid_value;
use crate::models::Answer;
use crate::models::AnswerDetail;
use crate::models::AnswerRow;
use crate::models::DBError;
use crate::models::DBErrorView;
use crate::models::StorageFailure;
use crate::models::StorageFailureView;
use crate::models::AnswerView;
use crate::models::answer_details;
use crate::persistance::memory::MemoryStorage;
use crate::persistance::memory::identifiers_exhausted;
use crate::persistance::tables::Dao;
use crate::persistance::tables::Tables;
use crate::persistance::tables::lemma_delete_absent_answer;
use crate::persistance::tables::lemma_filter_no_duplicates;
use crate::persistance::tables::lemma_insert_answer_wf;
use crate::models::AnswerRecord;
use crate::models::postgres_error_codes::FOREIGN_KEY_VIOLATION;

verus! {

/// The error of `create_answer` for an identifier that is not valid syntax:
/// the parser's message as it is.
pub open spec fn create_answer_syntax_error(question_uuid: Seq<char>) -> DBErrorView {
    DBErrorView::InvalidUUID(parse_error_text(question_uuid))
}

/// The error of `create_answer` for a question that is not stored.
pub open spec fn missing_question_error() -> DBErrorView {
    DBErrorView::InvalidUUID("Foreign key violation: "@ + FOREIGN_KEY_VIOLATION@)
}

/// The error of `create_answer` for a failure of the storage: a refused
/// reference is the caller's to correct, anything else is not.
pub open spec fn create_answer_storage_error(failure: StorageFailureView) -> DBErrorView {
    if failure.is_foreign_key_violation() {
        missing_question_error()
    } else {
        DBErrorView::Other(failure)
    }
}

/// The error of `delete_answer` for an identifier that is not valid syntax.
pub open spec fn delete_answer_syntax_error(answer_uuid: Seq<char>) -> DBErrorView {
    DBErrorView::InvalidUUID("Could not parse answer_uuid: "@ + parse_error_text(answer_uuid))
}

/// The error of `get_answers` for an identifier that is not valid syntax.
pub open spec fn get_answers_syntax_error(question_uuid: Seq<char>) -> DBErrorView {
    DBErrorView::InvalidUUID("Could not parse question_uuid: "@ + parse_error_text(question_uuid))
}

/// What `create_answer` owes its caller. An identifier that is not valid
/// syntax is refused with `InvalidUUID`, and nothing changed. For a valid
/// one, success means that the question is stored and that one row went
/// into the answers table, under an identifier that was not in use, with the
/// question and the content as given; the result shows that row. On a
/// failure nothing changed; `InvalidUUID` then says that the question is not
/// stored, and with that question not stored the operation does fail.
pub open spec fn create_answer_ensures(
    before: Tables,
    answer: AnswerView,
    result: Result<AnswerDetail, DBError>,
    after: Tables,
) -> bool {
    if !is_uuid_text(answer.question_uuid) {
        &&& result matches Err(error)
        &&& error@ == create_answer_syntax_error(answer.question_uuid)
        &&& after == before
    } else {
        let question_uuid = uuid_value(answer.question_uuid) as u128;
        match result {
            Ok(detail) => {
                let row = after.answers.last();
                &&& before.has_question(question_uuid)
                &&& after == before.insert_answer(row)
                &&& !before.has_answer(row.answer_uuid)
                &&& row.question_uuid == question_uuid
                &&& row.content == answer.content
                &&& detail@ == row.detail()
            },
            Err(error) => {
                &&& after == before
                &&& error is InvalidUUID ==> error@ == missing_question_error()
                    && !before.has_question(question_uuid)
            },
        }
    }
}

/// What `delete_answer` owes its caller. An identifier that is not valid
/// syntax is refused with `InvalidUUID`, and nothing changed. For a valid
/// one, success means that no answer has that identifier any more and every
/// other row is where it was; a failure is `Other`, and nothing changed.
pub open spec fn delete_answer_ensures(
    before: Tables,
    answer_uuid: Seq<char>,
    result: Result<(), DBError>,
    after: Tables,
) -> bool {
    if !is_uuid_text(answer_uuid) {
        &&& result matches Err(error)
        &&& error@ == delete_answer_syntax_error(answer_uuid)
        &&& after == before
    } else {
        match result {
            Ok(_) => after == before.delete_answer(uuid_value(answer_uuid) as u128),
            Err(error) => error is Other && after == before,
        }
    }
}

/// What `get_answers` owes its caller. An identifier that is not valid
/// syntax is refused with `InvalidUUID`. For a valid one, the result on
/// success shows every stored answer to that question once, in some order;
/// a failure is `Other`.
pub open spec fn get_answers_ensures(
    tables: Tables,
    question_uuid: Seq<char>,
    result: Result<Vec<AnswerDetail>, DBError>,
) -> bool {
    if !is_uuid_text(question_uuid) {
        result matches Err(error) && error@ == get_answers_syntax_error(question_uuid)
    } else {
        match result {
            Ok(details) => details.deep_view().to_multiset() == answer_details(
                tables.answers_of(uuid_value(question_uuid) as u128),
            ).to_multiset(),
            Err(error) => error is Other,
        }
    }
}

/// Data access for answers.
pub trait AnswersDao: Dao {
    /// Stores a new answer to a stored question and shows what was stored.
    fn create_answer(&mut self, answer: Answer) -> (result: Result<AnswerDetail, DBError>)
        requires
            old(self).ready(),
        ensures
            final(self).ready(),
            create_answer_ensures(old(self).rows(), answer@, result, final(self).rows()),
    ;

    /// Removes the answer with the given identifier. That there is none is
    /// no error.
    fn delete_answer(&mut self, answer_uuid: &str) -> (result: Result<(), DBError>)
        requires
            old(self).ready(),
        ensures
            final(self).ready(),
            delete_answer_ensures(old(self).rows(), answer_uuid@, result, final(self).rows()),
    ;

    /// Shows every stored answer to the question with the given identifier.
    /// That there is no such question is no error.
    fn get_answers(&self, question_uuid: &str) -> (result: Result<Vec<AnswerDetail>, DBError>)
        requires
            self.ready(),
        ensures
            get_answers_ensures(self.rows(), question_uuid@, result),
    ;
}

impl AnswersDao for MemoryStorage {
    /// For a valid identifier: refused with `InvalidUUID` exactly when the
    /// question is not stored; otherwise fails only when no identifier is
    /// left, and the new row has the next identifier and the clock's time.
    fn create_answer(&mut self, answer: Answer) -> (result: Result<AnswerDetail, DBError>)
        ensures
            final(self).clock() == old(self).clock(),
            is_uuid_text(answer.question_uuid@) ==> match result {
                Ok(detail) => {
                    &&& old(self).next_value() < u128::MAX
                    &&& final(self).next_value() == old(self).next_value() + 1
                    &&& final(self).rows().answers.last().answer_uuid == old(self).next_value()
                    &&& detail@.created_at == old(self).clock()
                    &&& detail@.modified_at == old(self).clock()
                },
                Err(error) => {
                    &&& final(self).next_value() == old(self).next_value()
                    &&& if !old(self).rows().has_question(
                        uuid_value(answer.question_uuid@) as u128,
                    ) {
                        error@ == missing_question_error()
                    } else {
                        old(self).next_value() == u128::MAX && error@ == DBErrorView::Other(
                            identifiers_exhausted(),
                        )
                    }
                },
            },
    {
        match create_answer_statement(answer) {
            Err(error) => Err(error),
            Ok(statement) => {
                let outcome = self.insert_answer(statement);
                create_answer_result(outcome)
            },
        }
    }

    /// Never fails for a valid identifier.
    fn delete_answer(&mut self, answer_uuid: &str) -> (result: Result<(), DBError>)
        ensures
            final(self).clock() == old(self).clock(),
            final(self).next_value() == old(self).next_value(),
            is_uuid_text(answer_uuid@) ==> result is Ok,
            is_uuid_text(answer_uuid@) && !old(self).rows().has_answer(
                uuid_value(answer_uuid@) as u128,
            ) ==> final(self).rows() == old(self).rows(),
    {
        match delete_answer_statement(answer_uuid) {
            Err(error) => Err(error),
            Ok(key) => {
                proof {
                    if !self.rows().has_answer(key.value) {
                        lemma_delete_absent_answer(self.rows(), key.value);
                    }
                }
                let outcome = self.remove_answer(key);
                delete_answer_result(outcome)
            },
        }
    }

    /// Never fails for a valid identifier, and shows the answers in the
    /// order in which they were created.
    fn get_answers(&self, question_uuid: &str) -> (result: Result<Vec<AnswerDetail>, DBError>)
        ensures
            is_uuid_text(question_uuid@) ==> (result matches Ok(details) && details.deep_view()
                == answer_details(self.rows().answers_of(uuid_value(question_uuid@) as u128))),
    {
        match get_answers_statement(question_uuid) {
            Err(error) => Err(error),
            Ok(key) => {
                let outcome = self.select_answers(key);
                get_answers_result(outcome)
            },
        }
    }
}

/// What the storage is asked to insert for a new answer.
#[derive(Debug)]
pub struct NewAnswer {
    pub question_uuid: Uuid,
    pub content: String,
}

/// The detail record that shows a row of the answers table.
pub fn answer_detail(row: &AnswerRow) -> (detail: AnswerDetail)
    ensures
        detail@ == row@.detail(),
        is_uuid_text(detail@.answer_uuid),
        is_uuid_text(detail@.question_uuid),
{
    AnswerDetail {
        answer_uuid: row.answer_uuid.to_text(),
        question_uuid: row.question_uuid.to_text(),
        content: row.content.clone(),
        created_at: row.created_at.clone(),
        modified_at: row.modified_at.clone(),
    }
}

/// First step of `create_answer`: reads the question's identifier. A
/// malformed one is refused here, before anything reaches the storage;
/// otherwise the result is the row to insert.
pub fn create_answer_statement(answer: Answer) -> (statement: Result<NewAnswer, DBError>)
    ensures
        match statement {
            Ok(new) => {
                &&& is_uuid_text(answer.question_uuid@)
                &&& new.question_uuid.value == uuid_value(answer.question_uuid@)
                &&& new.content@ == answer.content@
            },
            Err(error) => {
                &&& !is_uuid_text(answer.question_uuid@)
                &&& error@ == create_answer_syntax_error(answer.question_uuid@)
            },
        },
{
    match Uuid::parse_str(answer.question_uuid.as_str()) {
        Ok(question_uuid) => Ok(NewAnswer { question_uuid, content: answer.content }),
        Err(text) => Err(DBError::InvalidUUID(text)),
    }
}

/// Last step of `create_answer`: the inserted row becomes the detail record;
/// a refused reference becomes `InvalidUUID`, any other failure `Other`.
pub fn create_answer_result(outcome: Result<AnswerRow, StorageFailure>) -> (result: Result<
    AnswerDetail,
    DBError,
>)
    ensures
        match outcome {
            Ok(row) => result matches Ok(detail) && detail@ == row@.detail(),
            Err(failure) => result matches Err(error) && error@ == create_answer_storage_error(
                failure@,
            ),
        },
{
    match outcome {
        Ok(row) => Ok(answer_detail(&row)),
        Err(failure) => {
            if failure.is_foreign_key_violation() {
                Err(
                    DBError::InvalidUUID(
                        String::from_str("Foreign key violation: ").concat(FOREIGN_KEY_VIOLATION),
                    ),
                )
            } else {
                Err(DBError::Other(failure))
            }
        },
    }
}

/// First step of `delete_answer`: reads the answer's identifier. A malformed
/// one is refused here; otherwise the result is the key to delete by.
pub fn delete_answer_statement(answer_uuid: &str) -> (statement: Result<Uuid, DBError>)
    ensures
        match statement {
            Ok(key) => is_uuid_text(answer_uuid@) && key.value == uuid_value(answer_uuid@),
            Err(error) => !is_uuid_text(answer_uuid@) && error@ == delete_answer_syntax_error(
                answer_uuid@,
            ),
        },
{
    match Uuid::parse_str(answer_uuid) {
        Ok(key) => Ok(key),
        Err(text) => Err(
            DBError::InvalidUUID(
                String::from_str("Could not parse answer_uuid: ").concat(text.as_str()),
            ),
        ),
    }
}

/// Last step of `delete_answer`: any failure of the storage is `Other`.
pub fn delete_answer_result(outcome: Result<(), StorageFailure>) -> (result: Result<(), DBError>)
    ensures
        match outcome {
            Ok(_) => result is Ok,
            Err(failure) => result matches Err(error) && error@ == DBErrorView::Other(failure@),
        },
{
    match outcome {
        Ok(_) => Ok(()),
        Err(failure) => Err(DBError::Other(failure)),
    }
}

/// First step of `get_answers`: reads the question's identifier. A malformed
/// one is refused here; otherwise the result is the key to select by.
pub fn get_answers_statement(question_uuid: &str) -> (statement: Result<Uuid, DBError>)
    ensures
        match statement {
            Ok(key) => is_uuid_text(question_uuid@) && key.value == uuid_value(question_uuid@),
            Err(error) => !is_uuid_text(question_uuid@) && error@ == get_answers_syntax_error(
                question_uuid@,
            ),
        },
{
    match Uuid::parse_str(question_uuid) {
        Ok(key) => Ok(key),
        Err(text) => Err(
            DBError::InvalidUUID(
                String::from_str("Could not parse question_uuid: ").concat(text.as_str()),
            ),
        ),
    }
}

/// Last step of `get_answers`: each selected row becomes its detail record,
/// in the order in which the storage gave the rows; any failure of the
/// storage is `Other`.
pub fn get_answers_result(outcome: Result<Vec<AnswerRow>, StorageFailure>) -> (result: Result<
    Vec<AnswerDetail>,
    DBError,
>)
    ensures
        match outcome {
            Ok(rows) => result matches Ok(details) && details.deep_view() == answer_details(
                rows.deep_view(),
            ),
            Err(failure) => result matches Err(error) && error@ == DBErrorView::Other(failure@),
        },
{
    match outcome {
        Ok(rows) => {
            let mut details: Vec<AnswerDetail> = Vec::new();
            let mut next: usize = 0;
            while next < rows.len()
                invariant
                    next <= rows.len(),
                    details.len() == next,
                    forall|i: int|
                        0 <= i < next ==> (#[trigger] details[i])@ == rows[i]@.detail(),
                decreases rows.len() - next,
            {
                details.push(answer_detail(&rows[next]));
                next = next + 1;
            }
            assert(details.deep_view() =~= answer_details(rows.deep_view()));
            Ok(details)
        },
        Err(failure) => Err(DBError::Other(failure)),
    }
}

/// The detail records of the stored answers to one question differ from one
/// another.
pub proof fn lemma_answer_details_differ(tables: Tables, question_uuid: u128)
    requires
        tables.wf(),
    ensures
        answer_details(tables.answers_of(question_uuid)).no_duplicates(),
{
    let wanted = |row: AnswerRecord| row.question_uuid == question_uuid;
    let rows = tables.answers_of(question_uuid);
    let details = answer_details(rows);
    assert(tables.answers.no_duplicates());
    lemma_filter_no_duplicates(tables.answers, wanted);
    assert forall|i: int, j: int|
        0 <= i < details.len() && 0 <= j < details.len() && i != j implies details[i]
        != details[j] by {
        assert(details[i] == rows[i].detail());
        assert(details[j] == rows[j].detail());
        if details[i] == details[j] {
            lemma_text_round_trip(rows[i].answer_uuid);
            lemma_text_round_trip(rows[j].answer_uuid);
            rows.lemma_index_contains(i);
            rows.lemma_index_contains(j);
            tables.answers.lemma_filter_contains_rev(wanted, rows[i]);
            tables.answers.lemma_filter_contains_rev(wanted, rows[j]);
            let a = choose|a: int| 0 <= a < tables.answers.len() && tables.answers[a] == rows[i];
            let b = choose|b: int| 0 <= b < tables.answers.len() && tables.answers[b] == rows[j];
            assert(tables.answers[a].answer_uuid == tables.answers[b].answer_uuid);
            assert(a == b);
            assert(rows[i] == rows[j]);
        }
    }
}

/// An answer that was created is shown by a listing, by the same question,
/// that follows. What was created has the content that was handed in, the
/// question that was named, written as that question's detail record writes
/// it, and an identifier of valid syntax. The listing shows it once.
pub proof fn lemma_created_answer_is_listed(
    before: Tables,
    answer: AnswerView,
    created: AnswerDetail,
    after: Tables,
    listed_by: Seq<char>,
    listed: Vec<AnswerDetail>,
)
    requires
        before.wf(),
        create_answer_ensures(before, answer, Ok(created), after),
        is_uuid_text(listed_by),
        uuid_value(listed_by) as u128 == uuid_value(answer.question_uuid) as u128,
        get_answers_ensures(after, listed_by, Ok(listed)),
    ensures
        created@.content == answer.content,
        uuid_value(created@.question_uuid) == uuid_value(answer.question_uuid) as u128,
        exists|i: int|
            0 <= i < before.questions.len() && created@.question_uuid == (
            #[trigger] before.questions[i]).detail().question_uuid,
        is_uuid_text(created@.answer_uuid),
        listed.deep_view().to_multiset().count(created@) == 1,
{
    let question_uuid = uuid_value(answer.question_uuid) as u128;
    let wanted = |row: AnswerRecord| row.question_uuid == question_uuid;
    let row = after.answers.last();
    let stored = answer_details(after.answers_of(question_uuid));
    let shown = listed.deep_view();
    lemma_text_round_trip(row.answer_uuid);
    lemma_text_round_trip(row.question_uuid);
    lemma_insert_answer_wf(before, row);
    lemma_answer_details_differ(after, question_uuid);
    before.answers.lemma_filter_push(row, wanted);
    stored.to_multiset_ensures();
    shown.to_multiset_ensures();
    stored.lemma_multiset_has_no_duplicates();
    assert(stored[stored.len() - 1] == created@);
    assert(stored.contains(created@));
    let at = choose|at: int|
        0 <= at < before.questions.len() && (#[trigger] before.questions[at]).question_uuid
            == question_uuid;
    assert(created@.question_uuid == before.questions[at].detail().question_uuid);
}

/// Creating an answer to a question that is not stored fails and changes
/// nothing; where the failure is `InvalidUUID`, its text names the refused
/// reference.
pub proof fn lemma_answer_needs_question(
    before: Tables,
    answer: AnswerView,
    result: Result<AnswerDetail, DBError>,
    after: Tables,
)
    requires
        is_uuid_text(answer.question_uuid),
        !before.has_question(uuid_value(answer.question_uuid) as u128),
        create_answer_ensures(before, answer, result, after),
    ensures
        result is Err,
        result matches Err(error) ==> (error is InvalidUUID ==> error@ == missing_question_error()),
        after == before,
{
}

/// Deleting by a valid identifier that no stored answer has changes
/// nothing, whether the storage reports success or failure.
pub proof fn lemma_delete_unknown_answer(
    before: Tables,
    answer_uuid: Seq<char>,
    result: Result<(), DBError>,
    after: Tables,
)
    requires
        is_uuid_text(answer_uuid),
        !before.has_answer(uuid_value(answer_uuid) as u128),
        delete_answer_ensures(before, answer_uuid, result, after),
    ensures
        after == before,
{
    lemma_delete_absent_answer(before, uuid_value(answer_uuid) as u128);
}

/// Each operation on answers refuses a text that is not valid identifier
/// syntax with `InvalidUUID`, and the two that write change nothing.
pub proof fn lemma_answers_refuse_malformed(
    before: Tables,
    malformed: Seq<char>,
    answer: AnswerView,
    created: Result<AnswerDetail, DBError>,
    after_create: Tables,
    deleted: Result<(), DBError>,
    after_delete: Tables,
    listed: Result<Vec<AnswerDetail>, DBError>,
)
    requires
        !is_uuid_text(malformed),
        answer.question_uuid == malformed,
        create_answer_ensures(before, answer, created, after_create),
        delete_answer_ensures(before, malformed, deleted, after_delete),
        get_answers_ensures(before, malformed, listed),
    ensures
        created matches Err(error) && error is InvalidUUID,
        after_create == before,
        deleted matches Err(error) && error is InvalidUUID,
        after_delete == before,
        listed matches Err(error) && error is InvalidUUID,
{
}

} // verus!
