//! A storage that keeps the two tables in memory and holds them to the
//! constraints of the schema. It assigns identifiers by counting, and stamps
//! new rows with the time it was last told.

use vstd::prelude::*;
use vstd::string::StringExecFns;
use crate::identifier::Uuid;
use crate::models::AnswerRecord;
use crate::models::AnswerRow;
use crate::models::QuestionRecord;
use crate::models::QuestionRow;
use crate::models::StorageFailure;
use crate::models::StorageFailureView;
use crate::models::postgres_error_codes::FOREIGN_KEY_VIOLATION;
use crate::persistance::answers_dao::NewAnswer;
use crate::persistance::questions_dao::NewQuestion;
use crate::persistance::tables::Dao;
use crate::persistance::tables::Tables;
use crate::persistance::tables::lemma_delete_absent_answer;
use crate::persistance::tables::lemma_delete_absent_question;
use crate::persistance::tables::lemma_delete_answer_at;
use crate::persistance::tables::lemma_delete_answer_wf;
use crate::persistance::tables::lemma_delete_question_at;
use crate::persistance::tables::lemma_delete_question_wf;
use crate::persistance::tables::lemma_insert_answer_wf;
use crate::persistance::tables::lemma_insert_question_wf;

verus! {

/// The failure with which the storage refuses a statement that would break
/// a reference.
pub open spec fn reference_refused() -> StorageFailureView {
    StorageFailureView {
        code: Some(FOREIGN_KEY_VIOLATION@),
        message: "foreign key constraint violated"@,
    }
}

/// The failure with which the storage refuses a row when it has no
/// identifier left to give.
pub open spec fn identifiers_exhausted() -> StorageFailureView {
    StorageFailureView { code: None, message: "no identifier left"@ }
}

/// The two tables, the value of the next identifier, and the time.
pub struct MemoryStorage {
    questions: Vec<QuestionRow>,
    answers: Vec<AnswerRow>,
    next_uuid: u128,
    now: String,
}

impl Dao for MemoryStorage {
    open spec fn rows(&self) -> Tables {
        self.tables()
    }

    open spec fn ready(&self) -> bool {
        self.wf()
    }

    proof fn lemma_ready_rows(&self) {
    }
}

impl MemoryStorage {
    /// The rows that the storage holds.
    pub closed spec fn tables(&self) -> Tables {
        Tables { questions: self.questions.deep_view(), answers: self.answers.deep_view() }
    }

    /// The value of the identifier that the next new row gets.
    pub closed spec fn next_value(&self) -> u128 {
        self.next_uuid
    }

    /// The time that new rows are stamped with.
    pub closed spec fn clock(&self) -> Seq<char> {
        self.now@
    }

    /// The rows meet the constraints of the schema, and every identifier in
    /// use is below the next one.
    pub open spec fn wf(&self) -> bool {
        &&& self.tables().wf()
        &&& forall|i: int|
            0 <= i < self.tables().questions.len() ==> (
            #[trigger] self.tables().questions[i]).question_uuid < self.next_value()
        &&& forall|i: int|
            0 <= i < self.tables().answers.len() ==> (
            #[trigger] self.tables().answers[i]).answer_uuid < self.next_value()
    }

    /// An empty storage whose clock shows `now`.
    pub fn new(now: String) -> (storage: MemoryStorage)
        ensures
            storage.wf(),
            storage.tables() == Tables::empty(),
            storage.next_value() == 0,
            storage.clock() == now@,
    {
        let storage = MemoryStorage {
            questions: Vec::new(),
            answers: Vec::new(),
            next_uuid: 0,
            now,
        };
        assert(storage.tables().questions =~= Seq::empty());
        assert(storage.tables().answers =~= Seq::empty());
        storage
    }

    /// Sets the clock to `now`.
    pub fn set_now(&mut self, now: String)
        ensures
            final(self).tables() == old(self).tables(),
            final(self).next_value() == old(self).next_value(),
            final(self).clock() == now@,
            old(self).wf() ==> final(self).wf(),
    {
        self.now = now;
    }

    /// Where in the questions table the row with the given key stands.
    fn position_of_question(&self, key: Uuid) -> (position: Option<usize>)
        ensures
            match position {
                Some(at) => at < self.tables().questions.len() && self.tables().questions[at as int].question_uuid
                    == key.value,
                None => !self.tables().has_question(key.value),
            },
    {
        let mut at: usize = 0;
        while at < self.questions.len()
            invariant
                at <= self.questions.len(),
                forall|i: int| 0 <= i < at ==> self.questions[i]@.question_uuid != key.value,
            decreases self.questions.len() - at,
        {
            if self.questions[at].question_uuid.value == key.value {
                return Some(at);
            }
            at = at + 1;
        }
        None
    }

    /// Where in the answers table the row with the given key stands.
    fn position_of_answer(&self, key: Uuid) -> (position: Option<usize>)
        ensures
            match position {
                Some(at) => at < self.tables().answers.len() && self.tables().answers[at as int].answer_uuid
                    == key.value,
                None => !self.tables().has_answer(key.value),
            },
    {
        let mut at: usize = 0;
        while at < self.answers.len()
            invariant
                at <= self.answers.len(),
                forall|i: int| 0 <= i < at ==> self.answers[i]@.answer_uuid != key.value,
            decreases self.answers.len() - at,
        {
            if self.answers[at].answer_uuid.value == key.value {
                return Some(at);
            }
            at = at + 1;
        }
        None
    }

    /// Whether some answer refers to the question with the given key.
    fn is_answered(&self, key: Uuid) -> (yes: bool)
        ensures
            yes == self.tables().is_answered(key.value),
    {
        let mut at: usize = 0;
        while at < self.answers.len()
            invariant
                at <= self.answers.len(),
                forall|i: int| 0 <= i < at ==> self.answers[i]@.question_uuid != key.value,
            decreases self.answers.len() - at,
        {
            if self.answers[at].question_uuid.value == key.value {
                assert(self.tables().answers[at as int].question_uuid == key.value);
                return true;
            }
            at = at + 1;
        }
        false
    }

    /// The failure for a statement that would break a reference.
    fn refuse_reference() -> (failure: StorageFailure)
        ensures
            failure@ == reference_refused(),
    {
        StorageFailure {
            code: Some(String::from_str(FOREIGN_KEY_VIOLATION)),
            message: String::from_str("foreign key constraint violated"),
        }
    }

    /// Inserts a question. The row gets the next identifier and the clock's
    /// time, as the time of its creation and of its last change. Fails only
    /// when no identifier is left, and then changes nothing.
    pub fn insert_question(&mut self, new: NewQuestion) -> (outcome: Result<
        QuestionRow,
        StorageFailure,
    >)
        requires
            old(self).wf(),
        ensures
            final(self).wf(),
            final(self).clock() == old(self).clock(),
            match outcome {
                Ok(row) => {
                    &&& old(self).next_value() < u128::MAX
                    &&& row@ == (QuestionRecord {
                        question_uuid: old(self).next_value(),
                        title: new.title@,
                        description: new.description@,
                        created_at: old(self).clock(),
                        modified_at: old(self).clock(),
                    })
                    &&& !old(self).tables().has_question(row@.question_uuid)
                    &&& final(self).tables() == old(self).tables().insert_question(row@)
                    &&& final(self).next_value() == old(self).next_value() + 1
                },
                Err(failure) => {
                    &&& old(self).next_value() == u128::MAX
                    &&& failure@ == identifiers_exhausted()
                    &&& final(self).tables() == old(self).tables()
                    &&& final(self).next_value() == old(self).next_value()
                },
            },
    {
        match self.next_uuid.checked_add(1) {
            None => Err(
                StorageFailure { code: None, message: String::from_str("no identifier left") },
            ),
            Some(next) => {
                let row = QuestionRow {
                    question_uuid: Uuid::from_u128(self.next_uuid),
                    title: new.title,
                    description: new.description,
                    created_at: self.now.clone(),
                    modified_at: self.now.clone(),
                };
                let copy = row.clone();
                proof {
                    lemma_insert_question_wf(old(self).tables(), row@);
                }
                self.questions.push(row);
                self.next_uuid = next;
                assert(self.tables().questions =~= old(self).tables().questions.push(copy@));
                Ok(copy)
            },
        }
    }

    /// Removes the question with the given key, if there is one. Refused,
    /// with nothing changed, while an answer refers to that question.
    pub fn remove_question(&mut self, key: Uuid) -> (outcome: Result<(), StorageFailure>)
        requires
            old(self).wf(),
        ensures
            final(self).wf(),
            final(self).clock() == old(self).clock(),
            final(self).next_value() == old(self).next_value(),
            match outcome {
                Ok(_) => {
                    &&& !old(self).tables().is_answered(key.value)
                    &&& final(self).tables() == old(self).tables().delete_question(key.value)
                },
                Err(failure) => {
                    &&& old(self).tables().is_answered(key.value)
                    &&& failure@ == reference_refused()
                    &&& final(self).tables() == old(self).tables()
                },
            },
    {
        if self.is_answered(key) {
            return Err(Self::refuse_reference());
        }
        proof {
            lemma_delete_question_wf(old(self).tables(), key.value);
        }
        match self.position_of_question(key) {
            Some(at) => {
                proof {
                    lemma_delete_question_at(old(self).tables(), at as int);
                }
                let _ = self.questions.remove(at);
                assert(self.tables().questions =~= old(self).tables().questions.remove(at as int));
            },
            None => {
                proof {
                    lemma_delete_absent_question(old(self).tables(), key.value);
                }
            },
        }
        proof {
            let after = old(self).tables().delete_question(key.value);
            assert forall|i: int| 0 <= i < after.questions.len() implies (
            #[trigger] after.questions[i]).question_uuid < self.next_value() by {
                after.questions.lemma_index_contains(i);
                old(self).tables().questions.lemma_filter_contains_rev(
                    |row: QuestionRecord| row.question_uuid != key.value,
                    after.questions[i],
                );
            }
        }
        Ok(())
    }

    /// All the questions, in the order in which they were inserted. Never
    /// fails.
    pub fn select_questions(&self) -> (outcome: Result<Vec<QuestionRow>, StorageFailure>)
        ensures
            outcome matches Ok(rows) && rows.deep_view() == self.tables().questions,
    {
        let mut rows: Vec<QuestionRow> = Vec::new();
        let mut next: usize = 0;
        while next < self.questions.len()
            invariant
                next <= self.questions.len(),
                rows.len() == next,
                forall|i: int| 0 <= i < next ==> (#[trigger] rows[i])@ == self.questions[i]@,
            decreases self.questions.len() - next,
        {
            rows.push(self.questions[next].clone());
            next = next + 1;
        }
        assert(rows.deep_view() =~= self.tables().questions);
        Ok(rows)
    }

    /// Inserts an answer. Refused while no question has the key that the
    /// answer refers to. Otherwise the row gets the next identifier and the
    /// clock's time, and the insert fails only when no identifier is left. A
    /// failure changes nothing.
    pub fn insert_answer(&mut self, new: NewAnswer) -> (outcome: Result<AnswerRow, StorageFailure>)
        requires
            old(self).wf(),
        ensures
            final(self).wf(),
            final(self).clock() == old(self).clock(),
            match outcome {
                Ok(row) => {
                    &&& old(self).tables().has_question(new.question_uuid.value)
                    &&& old(self).next_value() < u128::MAX
                    &&& row@ == (AnswerRecord {
                        answer_uuid: old(self).next_value(),
                        question_uuid: new.question_uuid.value,
                        content: new.content@,
                        created_at: old(self).clock(),
                        modified_at: old(self).clock(),
                    })
                    &&& !old(self).tables().has_answer(row@.answer_uuid)
                    &&& final(self).tables() == old(self).tables().insert_answer(row@)
                    &&& final(self).next_value() == old(self).next_value() + 1
                },
                Err(failure) => {
                    &&& final(self).tables() == old(self).tables()
                    &&& final(self).next_value() == old(self).next_value()
                    &&& if !old(self).tables().has_question(new.question_uuid.value) {
                        failure@ == reference_refused()
                    } else {
                        old(self).next_value() == u128::MAX && failure@ == identifiers_exhausted()
                    }
                },
            },
    {
        if self.position_of_question(new.question_uuid).is_none() {
            return Err(Self::refuse_reference());
        }
        match self.next_uuid.checked_add(1) {
            None => Err(
                StorageFailure { code: None, message: String::from_str("no identifier left") },
            ),
            Some(next) => {
                let row = AnswerRow {
                    answer_uuid: Uuid::from_u128(self.next_uuid),
                    question_uuid: new.question_uuid,
                    content: new.content,
                    created_at: self.now.clone(),
                    modified_at: self.now.clone(),
                };
                let copy = row.clone();
                proof {
                    lemma_insert_answer_wf(old(self).tables(), row@);
                }
                self.answers.push(row);
                self.next_uuid = next;
                assert(self.tables().answers =~= old(self).tables().answers.push(copy@));
                Ok(copy)
            },
        }
    }

    /// Removes the answer with the given key, if there is one. Never fails.
    pub fn remove_answer(&mut self, key: Uuid) -> (outcome: Result<(), StorageFailure>)
        requires
            old(self).wf(),
        ensures
            final(self).wf(),
            final(self).clock() == old(self).clock(),
            final(self).next_value() == old(self).next_value(),
            outcome is Ok,
            final(self).tables() == old(self).tables().delete_answer(key.value),
    {
        proof {
            lemma_delete_answer_wf(old(self).tables(), key.value);
        }
        match self.position_of_answer(key) {
            Some(at) => {
                proof {
                    lemma_delete_answer_at(old(self).tables(), at as int);
                }
                let _ = self.answers.remove(at);
                assert(self.tables().answers =~= old(self).tables().answers.remove(at as int));
            },
            None => {
                proof {
                    lemma_delete_absent_answer(old(self).tables(), key.value);
                }
            },
        }
        proof {
            let after = old(self).tables().delete_answer(key.value);
            assert forall|i: int| 0 <= i < after.answers.len() implies (
            #[trigger] after.answers[i]).answer_uuid < self.next_value() by {
                after.answers.lemma_index_contains(i);
                old(self).tables().answers.lemma_filter_contains_rev(
                    |row: AnswerRecord| row.answer_uuid != key.value,
                    after.answers[i],
                );
            }
        }
        Ok(())
    }

    /// The answers that refer to the question with the given key, in the
    /// order in which they were inserted. Never fails.
    pub fn select_answers(&self, key: Uuid) -> (outcome: Result<Vec<AnswerRow>, StorageFailure>)
        ensures
            outcome matches Ok(rows) && rows.deep_view() == self.tables().answers_of(key.value),
    {
        let ghost all = self.tables().answers;
        let ghost wanted = |row: AnswerRecord| row.question_uuid == key.value;
        let mut rows: Vec<AnswerRow> = Vec::new();
        let mut next: usize = 0;
        proof {
            reveal(Seq::filter);
            assert(all.take(0) =~= Seq::empty());
        }
        while next < self.answers.len()
            invariant
                next <= self.answers.len(),
                all == self.tables().answers,
                all.len() == self.answers.len(),
                wanted == |row: AnswerRecord| row.question_uuid == key.value,
                rows.deep_view() == all.take(next as int).filter(wanted),
            decreases self.answers.len() - next,
        {
            let ghost so_far = rows.deep_view();
            proof {
                all.take(next as int).lemma_filter_push(all[next as int], wanted);
                assert(all.take(next as int + 1) =~= all.take(next as int).push(all[next as int]));
            }
            if self.answers[next].question_uuid.value == key.value {
                rows.push(self.answers[next].clone());
                assert(rows.deep_view() =~= so_far.push(all[next as int]));
            }
            next = next + 1;
        }
        assert(all.take(next as int) =~= all);
        Ok(rows)
    }
}

} // verus!
