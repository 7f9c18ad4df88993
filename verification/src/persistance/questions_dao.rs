//! Data access for questions: create, delete, list.
//!
//! Each operation is one statement against the storage. What is decided
//! before the statement (is the identifier valid, what is handed to the
//! storage) and after it (what the storage's outcome means for the caller)
//! stands here, apart from the storage itself.

use vstd::prelude::*;
use vstd::string::StringExecFns;
use crate::identifier::Uuid;
use crate::identifier::is_uuid_text;
use crate::identifier::lemma_text_round_trip;
use crate::identifier::uuid_value;
use crate::models::DBError;
use crate::models::DBErrorView;
use crate::models::Question;
use crate::models::QuestionDetail;
use crate::models::QuestionRow;
use crate::models::StorageFailure;
use crate::models::QuestionView;
use crate::models::question_details;
use crate::persistance::memory::MemoryStorage;
use crate::persistance::memory::identifiers_exhausted;
use crate::persistance::memory::reference_refused;
use crate::persistance::tables::Dao;
use crate::persistance::tables::Tables;
use crate::persistance::tables::lemma_insert_question_wf;
use crate::persistance::tables::lemma_unknown_question_is_unanswered;

verus! {

/// The error of `delete_question` for an identifier that is not valid
/// syntax: it quotes the identifier as it was given.
pub open spec fn delete_question_syntax_error(question_uuid: Seq<char>) -> DBErrorView {
    DBErrorView::InvalidUUID("Could not parse question_uuid: "@ + question_uuid)
}

/// What `create_question` owes its caller. On success one row went into the
/// questions table, under an identifier that was not in use, with the title
/// and the description as given; the result shows that row. A failure is
/// `Other`, and nothing changed.
pub open spec fn create_question_ensures(
    before: Tables,
    question: QuestionView,
    result: Result<QuestionDetail, DBError>,
    after: Tables,
) -> bool {
    match result {
        Ok(detail) => {
            let row = after.questions.last();
            &&& after == before.insert_question(row)
            &&& !before.has_question(row.question_uuid)
            &&& row.title == question.title
            &&& row.description == question.description
            &&& detail@ == row.detail()
        },
        Err(error) => error is Other && after == before,
    }
}

/// What `delete_question` owes its caller. An identifier that is not valid
/// syntax is refused with `InvalidUUID`, and nothing changed. For a valid
/// one, success means that no question has that identifier any more and
/// every other row is where it was; a failure is `Other`, and nothing
/// changed.
pub open spec fn delete_question_ensures(
    before: Tables,
    question_uuid: Seq<char>,
    result: Result<(), DBError>,
    after: Tables,
) -> bool {
    if !is_uuid_text(question_uuid) {
        &&& result matches Err(error)
        &&& error@ == delete_question_syntax_error(question_uuid)
        &&& after == before
    } else {
        match result {
            Ok(_) => after == before.delete_question(uuid_value(question_uuid) as u128),
            Err(error) => error is Other && after == before,
        }
    }
}

/// What `get_questions` owes its caller. On success the result shows every
/// stored question once, in some order. A failure is `Other`.
pub open spec fn get_questions_ensures(
    tables: Tables,
    result: Result<Vec<QuestionDetail>, DBError>,
) -> bool {
    match result {
        Ok(details) => details.deep_view().to_multiset() == question_details(
            tables.questions,
        ).to_multiset(),
        Err(error) => error is Other,
    }
}

/// Data access for questions.
pub trait QuestionsDao: Dao {
    /// Stores a new question and shows what was stored.
    fn create_question(&mut self, question: Question) -> (result: Result<QuestionDetail, DBError>)
        requires
            old(self).ready(),
        ensures
            final(self).ready(),
            create_question_ensures(old(self).rows(), question@, result, final(self).rows()),
    ;

    /// Removes the question with the given identifier. That there is none
    /// is no error.
    fn delete_question(&mut self, question_uuid: &str) -> (result: Result<(), DBError>)
        requires
            old(self).ready(),
        ensures
            final(self).ready(),
            delete_question_ensures(old(self).rows(), question_uuid@, result, final(self).rows()),
    ;

    /// Shows every stored question.
    fn get_questions(&self) -> (result: Result<Vec<QuestionDetail>, DBError>)
        requires
            self.ready(),
        ensures
            get_questions_ensures(self.rows(), result),
    ;
}

impl QuestionsDao for MemoryStorage {
    /// Fails only when no identifier is left. Otherwise the new row has the
    /// next identifier and the clock's time.
    fn create_question(&mut self, question: Question) -> (result: Result<QuestionDetail, DBError>)
        ensures
            final(self).clock() == old(self).clock(),
            match result {
                Ok(detail) => {
                    &&& old(self).next_value() < u128::MAX
                    &&& final(self).next_value() == old(self).next_value() + 1
                    &&& final(self).rows().questions.last().question_uuid == old(self).next_value()
                    &&& detail@.created_at == old(self).clock()
                    &&& detail@.modified_at == old(self).clock()
                },
                Err(error) => {
                    &&& old(self).next_value() == u128::MAX
                    &&& final(self).next_value() == old(self).next_value()
                    &&& error@ == DBErrorView::Other(identifiers_exhausted())
                },
            },
    {
        let statement = create_question_statement(question);
        let outcome = self.insert_question(statement);
        create_question_result(outcome)
    }

    /// For a valid identifier, fails exactly when an answer refers to the
    /// question; an identifier that no question has is never refused.
    fn delete_question(&mut self, question_uuid: &str) -> (result: Result<(), DBError>)
        ensures
            final(self).clock() == old(self).clock(),
            final(self).next_value() == old(self).next_value(),
            is_uuid_text(question_uuid@) ==> (result is Ok <==> !old(self).rows().is_answered(
                uuid_value(question_uuid@) as u128,
            )),
            is_uuid_text(question_uuid@) ==> (result matches Err(error) ==> error@
                == DBErrorView::Other(reference_refused())),
            is_uuid_text(question_uuid@) && !old(self).rows().has_question(
                uuid_value(question_uuid@) as u128,
            ) ==> result is Ok && final(self).rows() == old(self).rows(),
    {
        match delete_question_statement(question_uuid) {
            Err(error) => Err(error),
            Ok(key) => {
                proof {
                    if !self.rows().has_question(key.value) {
                        lemma_unknown_question_is_unanswered(self.rows(), key.value);
                    }
                }
                let outcome = self.remove_question(key);
                delete_question_result(outcome)
            },
        }
    }

    /// Never fails, and shows the questions in the order in which they were
    /// created.
    fn get_questions(&self) -> (result: Result<Vec<QuestionDetail>, DBError>)
        ensures
            result matches Ok(details) && details.deep_view() == question_details(
                self.rows().questions,
            ),
    {
        let outcome = self.select_questions();
        get_questions_result(outcome)
    }
}

/// What the storage is asked to insert for a new question.
#[derive(Debug)]
pub struct NewQuestion {
    pub title: String,
    pub description: String,
}

/// The detail record that shows a row of the questions table.
pub fn question_detail(row: &QuestionRow) -> (detail: QuestionDetail)
    ensures
        detail@ == row@.detail(),
        is_uuid_text(detail@.question_uuid),
{
    QuestionDetail {
        question_uuid: row.question_uuid.to_text(),
        title: row.title.clone(),
        description: row.description.clone(),
        created_at: row.created_at.clone(),
        modified_at: row.modified_at.clone(),
    }
}

/// First step of `create_question`: the row to insert holds the title and
/// the description as given. Nothing is refused here.
pub fn create_question_statement(question: Question) -> (statement: NewQuestion)
    ensures
        statement.title@ == question.title@,
        statement.description@ == question.description@,
{
    NewQuestion { title: question.title, description: question.description }
}

/// Last step of `create_question`: the inserted row becomes the detail
/// record; any failure of the storage is `Other`.
pub fn create_question_result(outcome: Result<QuestionRow, StorageFailure>) -> (result: Result<
    QuestionDetail,
    DBError,
>)
    ensures
        match outcome {
            Ok(row) => result matches Ok(detail) && detail@ == row@.detail(),
            Err(failure) => result matches Err(error) && error@ == DBErrorView::Other(failure@),
        },
{
    match outcome {
        Ok(row) => Ok(question_detail(&row)),
        Err(failure) => Err(DBError::Other(failure)),
    }
}

/// First step of `delete_question`: reads the question's identifier. A
/// malformed one is refused here; otherwise the result is the key to delete
/// by.
pub fn delete_question_statement(question_uuid: &str) -> (statement: Result<Uuid, DBError>)
    ensures
        match statement {
            Ok(key) => is_uuid_text(question_uuid@) && key.value == uuid_value(question_uuid@),
            Err(error) => !is_uuid_text(question_uuid@) && error@ == delete_question_syntax_error(
                question_uuid@,
            ),
        },
{
    match Uuid::parse_str(question_uuid) {
        Ok(key) => Ok(key),
        Err(_) => Err(
            DBError::InvalidUUID(
                String::from_str("Could not parse question_uuid: ").concat(question_uuid),
            ),
        ),
    }
}

/// Last step of `delete_question`: any failure of the storage is `Other`.
pub fn delete_question_result(outcome: Result<(), StorageFailure>) -> (result: Result<(), DBError>)
    ensures
        match outcome {
            Ok(_) => result is Ok,
            Err(failure) => result matches Err(error) && error@ == DBErrorView::Other(failure@),
        },
{
    match outcome {
        Ok(_) => Ok(()),
        Err(failure) => Err(DBError::Other(failure)),
    }
}

/// Last step of `get_questions`: each selected row becomes its detail
/// record, in the order in which the storage gave the rows; any failure of
/// the storage is `Other`.
pub fn get_questions_result(outcome: Result<Vec<QuestionRow>, StorageFailure>) -> (result: Result<
    Vec<QuestionDetail>,
    DBError,
>)
    ensures
        match outcome {
            Ok(rows) => result matches Ok(details) && details.deep_view() == question_details(
                rows.deep_view(),
            ),
            Err(failure) => result matches Err(error) && error@ == DBErrorView::Other(failure@),
        },
{
    match outcome {
        Ok(rows) => {
            let mut details: Vec<QuestionDetail> = Vec::new();
            let mut next: usize = 0;
            while next < rows.len()
                invariant
                    next <= rows.len(),
                    details.len() == next,
                    forall|i: int|
                        0 <= i < next ==> (#[trigger] details[i])@ == rows[i]@.detail(),
                decreases rows.len() - next,
            {
                details.push(question_detail(&rows[next]));
                next = next + 1;
            }
            assert(details.deep_view() =~= question_details(rows.deep_view()));
            Ok(details)
        },
        Err(failure) => Err(DBError::Other(failure)),
    }
}

/// The detail records of the stored questions differ from one another, and
/// so do their identifiers.
pub proof fn lemma_question_details_differ(tables: Tables)
    requires
        tables.wf(),
    ensures
        question_details(tables.questions).no_duplicates(),
        forall|i: int, j: int|
            0 <= i < tables.questions.len() && 0 <= j < tables.questions.len() && (
            #[trigger] tables.questions[i]).detail().question_uuid == (
            #[trigger] tables.questions[j]).detail().question_uuid ==> i == j,
{
    assert forall|i: int, j: int|
        0 <= i < tables.questions.len() && 0 <= j < tables.questions.len() && (
        #[trigger] tables.questions[i]).detail().question_uuid == (
        #[trigger] tables.questions[j]).detail().question_uuid implies i == j by {
        lemma_text_round_trip(tables.questions[i].question_uuid);
        lemma_text_round_trip(tables.questions[j].question_uuid);
    }
    let details = question_details(tables.questions);
    assert forall|i: int, j: int|
        0 <= i < details.len() && 0 <= j < details.len() && i != j implies details[i]
        != details[j] by {
        assert(details[i] == tables.questions[i].detail());
        assert(details[j] == tables.questions[j].detail());
    }
}

/// A question that was created is shown by a listing that follows. What was
/// created has the title and the description that were handed in, and an
/// identifier of valid syntax. The listing shows it once, and shows nothing
/// else under its identifier; where nothing was stored before, the listing
/// shows it alone.
pub proof fn lemma_created_question_is_listed(
    before: Tables,
    question: QuestionView,
    created: QuestionDetail,
    after: Tables,
    listed: Vec<QuestionDetail>,
)
    requires
        before.wf(),
        create_question_ensures(before, question, Ok(created), after),
        get_questions_ensures(after, Ok(listed)),
    ensures
        created@.title == question.title,
        created@.description == question.description,
        is_uuid_text(created@.question_uuid),
        listed.deep_view().to_multiset().count(created@) == 1,
        forall|i: int|
            0 <= i < listed.len() && (#[trigger] listed[i])@.question_uuid
                == created@.question_uuid ==> listed[i]@ == created@,
        before.questions.len() == 0 ==> listed.deep_view() == seq![created@],
{
    let row = after.questions.last();
    let stored = question_details(after.questions);
    let shown = listed.deep_view();
    let last = after.questions.len() - 1;
    lemma_text_round_trip(row.question_uuid);
    lemma_insert_question_wf(before, row);
    lemma_question_details_differ(after);
    stored.to_multiset_ensures();
    shown.to_multiset_ensures();
    stored.lemma_multiset_has_no_duplicates();
    assert(stored[last] == created@);
    assert(stored.contains(created@));
    assert forall|i: int|
        0 <= i < listed.len() && (#[trigger] listed[i])@.question_uuid
            == created@.question_uuid implies listed[i]@ == created@ by {
        assert(shown[i] == listed[i]@);
        assert(shown.contains(shown[i]));
        assert(shown.to_multiset().count(shown[i]) > 0);
        assert(stored.to_multiset().count(shown[i]) > 0);
        assert(stored.contains(shown[i]));
        let k = choose|k: int| 0 <= k < stored.len() && stored[k] == shown[i];
        assert(stored[k] == after.questions[k].detail());
        assert(after.questions[last].detail().question_uuid == after.questions[k].detail().question_uuid);
    }
    if before.questions.len() == 0 {
        assert(shown.len() == 1);
        assert(shown.contains(shown[0]));
        assert(shown.to_multiset().count(shown[0]) > 0);
        assert(stored.to_multiset().count(shown[0]) > 0);
        assert(stored.contains(shown[0]));
        assert(shown =~= seq![created@]);
    }
}

/// Deleting by a valid identifier that no stored question has changes
/// nothing, whether the storage reports success or failure.
pub proof fn lemma_delete_unknown_question(
    before: Tables,
    question_uuid: Seq<char>,
    result: Result<(), DBError>,
    after: Tables,
)
    requires
        before.wf(),
        is_uuid_text(question_uuid),
        !before.has_question(uuid_value(question_uuid) as u128),
        delete_question_ensures(before, question_uuid, result, after),
    ensures
        after == before,
{
    lemma_unknown_question_is_unanswered(before, uuid_value(question_uuid) as u128);
}

/// Deleting by a text that is not valid identifier syntax fails with
/// `InvalidUUID` and changes nothing.
pub proof fn lemma_delete_question_refuses_malformed(
    before: Tables,
    question_uuid: Seq<char>,
    result: Result<(), DBError>,
    after: Tables,
)
    requires
        !is_uuid_text(question_uuid),
        delete_question_ensures(before, question_uuid, result, after),
    ensures
        result matches Err(error) && error is InvalidUUID,
        after == before,
{
}

} // verus!
