//! The storage as the data-access operations see it: the rows of the two
//! tables, the constraints that the schema puts on them, and what each
//! statement does to them.

use vstd::prelude::*;
use crate::models::AnswerRecord;
use crate::models::QuestionRecord;

verus! {

/// The rows of the questions table and of the answers table, each in the
/// order in which its rows were inserted.
pub struct Tables {
    pub questions: Seq<QuestionRecord>,
    pub answers: Seq<AnswerRecord>,
}

impl Tables {
    /// The storage with no row in it.
    pub open spec fn empty() -> Tables {
        Tables { questions: Seq::empty(), answers: Seq::empty() }
    }

    /// Whether a question with the given identifier is stored.
    pub open spec fn has_question(self, question_uuid: u128) -> bool {
        exists|i: int|
            0 <= i < self.questions.len() && (#[trigger] self.questions[i]).question_uuid
                == question_uuid
    }

    /// Whether an answer with the given identifier is stored.
    pub open spec fn has_answer(self, answer_uuid: u128) -> bool {
        exists|i: int|
            0 <= i < self.answers.len() && (#[trigger] self.answers[i]).answer_uuid == answer_uuid
    }

    /// Whether some stored answer refers to the question with the given
    /// identifier.
    pub open spec fn is_answered(self, question_uuid: u128) -> bool {
        exists|i: int|
            0 <= i < self.answers.len() && (#[trigger] self.answers[i]).question_uuid
                == question_uuid
    }

    /// The constraints of the schema: an identifier is the key of at most
    /// one row of its table, and every answer refers to a stored question.
    pub open spec fn wf(self) -> bool {
        &&& forall|i: int, j: int|
            0 <= i < j < self.questions.len() ==> (#[trigger] self.questions[i]).question_uuid != (
            #[trigger] self.questions[j]).question_uuid
        &&& forall|i: int, j: int|
            0 <= i < j < self.answers.len() ==> (#[trigger] self.answers[i]).answer_uuid != (
            #[trigger] self.answers[j]).answer_uuid
        &&& forall|i: int|
            0 <= i < self.answers.len() ==> self.has_question(
                (#[trigger] self.answers[i]).question_uuid,
            )
    }

    /// The storage after the given row went into the questions table.
    pub open spec fn insert_question(self, row: QuestionRecord) -> Tables {
        Tables { questions: self.questions.push(row), answers: self.answers }
    }

    /// The storage after every question with the given identifier left the
    /// questions table.
    pub open spec fn delete_question(self, question_uuid: u128) -> Tables {
        Tables {
            questions: self.questions.filter(
                |row: QuestionRecord| row.question_uuid != question_uuid,
            ),
            answers: self.answers,
        }
    }

    /// The storage after the given row went into the answers table.
    pub open spec fn insert_answer(self, row: AnswerRecord) -> Tables {
        Tables { questions: self.questions, answers: self.answers.push(row) }
    }

    /// The storage after every answer with the given identifier left the
    /// answers table.
    pub open spec fn delete_answer(self, answer_uuid: u128) -> Tables {
        Tables {
            questions: self.questions,
            answers: self.answers.filter(|row: AnswerRecord| row.answer_uuid != answer_uuid),
        }
    }

    /// The answers that refer to the question with the given identifier.
    pub open spec fn answers_of(self, question_uuid: u128) -> Seq<AnswerRecord> {
        self.answers.filter(|row: AnswerRecord| row.question_uuid == question_uuid)
    }
}

/// What the data-access components have in common: a storage behind them.
pub trait Dao {
    /// The rows of the storage behind the component.
    spec fn rows(&self) -> Tables;

    /// Whether the component is fit for use. Constructors establish it, and
    /// every operation keeps it.
    spec fn ready(&self) -> bool;

    /// The rows behind a component that is fit for use meet the constraints
    /// of the schema.
    proof fn lemma_ready_rows(&self)
        requires
            self.ready(),
        ensures
            self.rows().wf(),
    ;
}

/// Where the element at `i` stood before the element at `at` was removed.
pub open spec fn place_before_removal(i: int, at: int) -> int {
    if i < at {
        i
    } else {
        i + 1
    }
}

/// A filter that every element passes leaves the sequence as it is.
pub proof fn lemma_filter_keeps_all<A>(s: Seq<A>, pred: spec_fn(A) -> bool)
    requires
        forall|i: int| 0 <= i < s.len() ==> pred(#[trigger] s[i]),
    ensures
        s.filter(pred) == s,
    decreases s.len(),
{
    reveal(Seq::filter);
    if s.len() > 0 {
        lemma_filter_keeps_all(s.drop_last(), pred);
        assert(s.drop_last().push(s.last()) =~= s);
    }
}

/// A filter that every element but the one at `at` passes removes that
/// element.
pub proof fn lemma_filter_drops_one<A>(s: Seq<A>, pred: spec_fn(A) -> bool, at: int)
    requires
        0 <= at < s.len(),
        !pred(s[at]),
        forall|i: int| 0 <= i < s.len() && i != at ==> pred(#[trigger] s[i]),
    ensures
        s.filter(pred) == s.remove(at),
    decreases s.len(),
{
    reveal(Seq::filter);
    if at == s.len() - 1 {
        lemma_filter_keeps_all(s.drop_last(), pred);
        assert(s.remove(at) =~= s.drop_last());
    } else {
        lemma_filter_drops_one(s.drop_last(), pred, at);
        assert(s.drop_last().remove(at).push(s.last()) =~= s.remove(at));
    }
}

/// What a filter lets through holds nothing twice if the sequence held
/// nothing twice.
pub proof fn lemma_filter_no_duplicates<A>(s: Seq<A>, pred: spec_fn(A) -> bool)
    requires
        s.no_duplicates(),
    ensures
        s.filter(pred).no_duplicates(),
    decreases s.len(),
{
    reveal(Seq::filter);
    if s.len() > 0 {
        let rest = s.drop_last();
        lemma_filter_no_duplicates(rest, pred);
        if rest.filter(pred).contains(s.last()) {
            rest.lemma_filter_contains_rev(pred, s.last());
            assert(false);
        }
    }
}

/// Under the constraints, no answer refers to an identifier that is the key
/// of no question.
pub proof fn lemma_unknown_question_is_unanswered(tables: Tables, question_uuid: u128)
    requires
        tables.wf(),
        !tables.has_question(question_uuid),
    ensures
        !tables.is_answered(question_uuid),
        tables.delete_question(question_uuid) == tables,
{
    lemma_delete_absent_question(tables, question_uuid);
}

/// Deleting by an identifier that is the key of no question changes nothing.
pub proof fn lemma_delete_absent_question(tables: Tables, question_uuid: u128)
    requires
        !tables.has_question(question_uuid),
    ensures
        tables.delete_question(question_uuid) == tables,
{
    lemma_filter_keeps_all(
        tables.questions,
        |row: QuestionRecord| row.question_uuid != question_uuid,
    );
}

/// Deleting by an identifier that is the key of no answer changes nothing.
pub proof fn lemma_delete_absent_answer(tables: Tables, answer_uuid: u128)
    requires
        !tables.has_answer(answer_uuid),
    ensures
        tables.delete_answer(answer_uuid) == tables,
{
    lemma_filter_keeps_all(tables.answers, |row: AnswerRecord| row.answer_uuid != answer_uuid);
}

/// Deleting the question at `at` by its identifier removes that one row.
pub proof fn lemma_delete_question_at(tables: Tables, at: int)
    requires
        tables.wf(),
        0 <= at < tables.questions.len(),
    ensures
        tables.delete_question(tables.questions[at].question_uuid).questions
            == tables.questions.remove(at),
{
    let key = tables.questions[at].question_uuid;
    lemma_filter_drops_one(tables.questions, |row: QuestionRecord| row.question_uuid != key, at);
}

/// Deleting the answer at `at` by its identifier removes that one row.
pub proof fn lemma_delete_answer_at(tables: Tables, at: int)
    requires
        tables.wf(),
        0 <= at < tables.answers.len(),
    ensures
        tables.delete_answer(tables.answers[at].answer_uuid).answers == tables.answers.remove(at),
{
    let key = tables.answers[at].answer_uuid;
    lemma_filter_drops_one(tables.answers, |row: AnswerRecord| row.answer_uuid != key, at);
}

/// A question under a new identifier keeps the constraints.
pub proof fn lemma_insert_question_wf(tables: Tables, row: QuestionRecord)
    requires
        tables.wf(),
        !tables.has_question(row.question_uuid),
    ensures
        tables.insert_question(row).wf(),
{
    let after = tables.insert_question(row);
    assert forall|i: int| 0 <= i < after.answers.len() implies after.has_question(
        (#[trigger] after.answers[i]).question_uuid,
    ) by {
        let k = choose|k: int|
            0 <= k < tables.questions.len() && (#[trigger] tables.questions[k]).question_uuid
                == tables.answers[i].question_uuid;
        assert(after.questions[k] == tables.questions[k]);
    }
}

/// An answer under a new identifier, to a stored question, keeps the
/// constraints.
pub proof fn lemma_insert_answer_wf(tables: Tables, row: AnswerRecord)
    requires
        tables.wf(),
        !tables.has_answer(row.answer_uuid),
        tables.has_question(row.question_uuid),
    ensures
        tables.insert_answer(row).wf(),
{
    let after = tables.insert_answer(row);
    assert forall|i: int, j: int| 0 <= i < j < after.answers.len() implies (
    #[trigger] after.answers[i]).answer_uuid != (#[trigger] after.answers[j]).answer_uuid by {
        assert(after.answers[i] == tables.answers[i]);
        if j < tables.answers.len() {
            assert(after.answers[j] == tables.answers[j]);
        }
    }
    assert forall|i: int| 0 <= i < after.answers.len() implies after.has_question(
        (#[trigger] after.answers[i]).question_uuid,
    ) by {
        let key = after.answers[i].question_uuid;
        if i < tables.answers.len() {
            assert(after.answers[i] == tables.answers[i]);
        }
        assert(tables.has_question(key));
        let k = choose|k: int|
            0 <= k < tables.questions.len() && (#[trigger] tables.questions[k]).question_uuid
                == key;
        assert(after.questions[k].question_uuid == key);
    }
}

/// Deleting a question that no answer refers to keeps the constraints.
pub proof fn lemma_delete_question_wf(tables: Tables, question_uuid: u128)
    requires
        tables.wf(),
        !tables.is_answered(question_uuid),
    ensures
        tables.delete_question(question_uuid).wf(),
        !tables.delete_question(question_uuid).has_question(question_uuid),
{
    let after = tables.delete_question(question_uuid);
    if tables.has_question(question_uuid) {
        let at = choose|at: int|
            0 <= at < tables.questions.len() && (#[trigger] tables.questions[at]).question_uuid
                == question_uuid;
        lemma_delete_question_at(tables, at);
        assert forall|i: int| 0 <= i < after.answers.len() implies after.has_question(
            (#[trigger] after.answers[i]).question_uuid,
        ) by {
            let k = choose|k: int|
                0 <= k < tables.questions.len() && (#[trigger] tables.questions[k]).question_uuid
                    == tables.answers[i].question_uuid;
            assert(k != at);
            if k < at {
                assert(after.questions[k] == tables.questions[k]);
            } else {
                assert(after.questions[k - 1] == tables.questions[k]);
            }
        }
    } else {
        lemma_delete_absent_question(tables, question_uuid);
    }
}

/// Deleting an answer keeps the constraints.
pub proof fn lemma_delete_answer_wf(tables: Tables, answer_uuid: u128)
    requires
        tables.wf(),
    ensures
        tables.delete_answer(answer_uuid).wf(),
        !tables.delete_answer(answer_uuid).has_answer(answer_uuid),
{
    if tables.has_answer(answer_uuid) {
        let at = choose|at: int|
            0 <= at < tables.answers.len() && (#[trigger] tables.answers[at]).answer_uuid
                == answer_uuid;
        lemma_delete_answer_at(tables, at);
        let after = tables.delete_answer(answer_uuid);
        assert forall|i: int| 0 <= i < after.answers.len() implies after.has_question(
            (#[trigger] after.answers[i]).question_uuid,
        ) by {
            let key = tables.answers[place_before_removal(i, at)].question_uuid;
            assert(tables.has_question(key));
            let k = choose|k: int|
                0 <= k < tables.questions.len() && (#[trigger] tables.questions[k]).question_uuid
                    == key;
            assert(after.questions[k].question_uuid == key);
        }
        assert forall|i: int, j: int| 0 <= i < j < after.answers.len() implies (
        #[trigger] after.answers[i]).answer_uuid != (#[trigger] after.answers[j]).answer_uuid by {
            assert(after.answers[i] == tables.answers[place_before_removal(i, at)]);
            assert(after.answers[j] == tables.answers[place_before_removal(j, at)]);
        }
        assert forall|i: int| 0 <= i < after.answers.len() implies (
        #[trigger] after.answers[i]).answer_uuid != answer_uuid by {
            assert(after.answers[i] == tables.answers[place_before_removal(i, at)]);
        }
    } else {
        lemma_delete_absent_answer(tables, answer_uuid);
    }
}

} // verus!
