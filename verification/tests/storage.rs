use qa_api::identifier::Uuid;
use qa_api::models::Answer;
use qa_api::models::DBError;
use qa_api::models::Question;
use qa_api::persistance::answers_dao::AnswersDao;
use qa_api::persistance::answers_dao::NewAnswer;
use qa_api::persistance::memory::MemoryStorage;
use qa_api::persistance::questions_dao::NewQuestion;
use qa_api::persistance::questions_dao::QuestionsDao;

fn storage() -> MemoryStorage {
    MemoryStorage::new("2024-01-02 03:04:05.0".to_string())
}

fn question(title: &str, description: &str) -> Question {
    Question { title: title.to_string(), description: description.to_string() }
}

fn answer(question_uuid: &str, content: &str) -> Answer {
    Answer { question_uuid: question_uuid.to_string(), content: content.to_string() }
}

const UNKNOWN: &str = "67e55044-10b1-426f-9247-bb680e5fe0c8";

#[test]
fn question_and_answer_come_and_go() {
    let mut db = storage();
    let q = db.create_question(question("T", "D")).unwrap();
    assert!(!q.question_uuid.is_empty());
    assert_eq!(q.title, "T");
    assert_eq!(q.description, "D");
    let a = db.create_answer(answer(&q.question_uuid, "C")).unwrap();
    assert_eq!(a.content, "C");
    assert_eq!(a.question_uuid, q.question_uuid);
    db.delete_answer(&a.answer_uuid).unwrap();
    assert!(db.get_answers(&q.question_uuid).unwrap().is_empty());
    db.delete_question(&q.question_uuid).unwrap();
    assert!(!db.get_questions().unwrap().contains(&q));
    assert!(db.get_questions().unwrap().is_empty());
}

#[test]
fn created_question_is_the_one_listed() {
    let mut db = storage();
    let created = db.create_question(question("How?", "I wonder.")).unwrap();
    let listed = db.get_questions().unwrap();
    assert_eq!(listed, vec![created.clone()]);
    assert_eq!(created.title, "How?");
    assert_eq!(created.description, "I wonder.");
    assert!(Uuid::parse_str(&created.question_uuid).is_ok());
    assert_eq!(created.created_at, "2024-01-02 03:04:05.0");
    assert_eq!(created.modified_at, "2024-01-02 03:04:05.0");
}

#[test]
fn equal_questions_are_stored_apart() {
    let mut db = storage();
    let first = db.create_question(question("T", "D")).unwrap();
    let second = db.create_question(question("T", "D")).unwrap();
    assert_ne!(first.question_uuid, second.question_uuid);
    let listed = db.get_questions().unwrap();
    assert_eq!(listed, vec![first.clone(), second.clone()]);
    assert_eq!(listed.iter().filter(|d| d.question_uuid == second.question_uuid).count(), 1);
}

#[test]
fn identifiers_are_counted_up() {
    let mut db = storage();
    let q = db.create_question(question("T", "D")).unwrap();
    assert_eq!(q.question_uuid, "00000000-0000-0000-0000-000000000000");
    let a = db.create_answer(answer(&q.question_uuid, "C")).unwrap();
    assert_eq!(a.answer_uuid, "00000000-0000-0000-0000-000000000001");
    let r = db.create_question(question("U", "E")).unwrap();
    assert_eq!(r.question_uuid, "00000000-0000-0000-0000-000000000002");
}

#[test]
fn new_rows_bear_the_time_of_the_clock() {
    let mut db = storage();
    let q = db.create_question(question("T", "D")).unwrap();
    db.set_now("2025-06-07 08:09:10.0".to_string());
    let a = db.create_answer(answer(&q.question_uuid, "C")).unwrap();
    assert_eq!(q.created_at, "2024-01-02 03:04:05.0");
    assert_eq!(a.created_at, "2025-06-07 08:09:10.0");
    assert_eq!(a.modified_at, "2025-06-07 08:09:10.0");
    assert_eq!(db.get_questions().unwrap()[0].created_at, "2024-01-02 03:04:05.0");
}

#[test]
fn empty_storage_lists_nothing() {
    let db = storage();
    assert!(db.get_questions().unwrap().is_empty());
    assert!(db.get_answers(UNKNOWN).unwrap().is_empty());
}

#[test]
fn deleting_what_is_not_stored_succeeds() {
    let mut db = storage();
    let q = db.create_question(question("T", "D")).unwrap();
    let a = db.create_answer(answer(&q.question_uuid, "C")).unwrap();
    assert!(db.delete_question(UNKNOWN).is_ok());
    assert!(db.delete_answer(UNKNOWN).is_ok());
    assert!(db.delete_answer(UNKNOWN).is_ok());
    assert_eq!(db.get_questions().unwrap(), vec![q.clone()]);
    assert_eq!(db.get_answers(&q.question_uuid).unwrap(), vec![a]);
}

#[test]
fn deleting_twice_succeeds_twice() {
    let mut db = storage();
    let q = db.create_question(question("T", "D")).unwrap();
    assert!(db.delete_question(&q.question_uuid).is_ok());
    assert!(db.delete_question(&q.question_uuid).is_ok());
    assert!(db.get_questions().unwrap().is_empty());
}

#[test]
fn malformed_identifiers_are_refused_and_change_nothing() {
    let mut db = storage();
    let q = db.create_question(question("T", "D")).unwrap();
    let a = db.create_answer(answer(&q.question_uuid, "C")).unwrap();
    for text in ["", "not-a-uuid", "67e55044-10b1-426f-9247-bb680e5fe0c", "{}", "123"] {
        assert!(matches!(db.delete_question(text), Err(DBError::InvalidUUID(_))));
        assert!(matches!(db.create_answer(answer(text, "C")), Err(DBError::InvalidUUID(_))));
        assert!(matches!(db.get_answers(text), Err(DBError::InvalidUUID(_))));
        assert!(matches!(db.delete_answer(text), Err(DBError::InvalidUUID(_))));
    }
    assert_eq!(db.get_questions().unwrap(), vec![q.clone()]);
    assert_eq!(db.get_answers(&q.question_uuid).unwrap(), vec![a]);
}

#[test]
fn answer_to_unknown_question_is_refused() {
    let mut db = storage();
    let q = db.create_question(question("T", "D")).unwrap();
    match db.create_answer(answer(UNKNOWN, "C")) {
        Err(DBError::InvalidUUID(reason)) => assert_eq!(reason, "Foreign key violation: 23503"),
        other => panic!("unexpected: {:?}", other),
    }
    assert!(db.get_answers(UNKNOWN).unwrap().is_empty());
    assert!(db.get_answers(&q.question_uuid).unwrap().is_empty());
}

#[test]
fn created_answer_is_listed_under_its_question() {
    let mut db = storage();
    let q = db.create_question(question("T", "D")).unwrap();
    let other = db.create_question(question("U", "E")).unwrap();
    let a = db.create_answer(answer(&q.question_uuid, "first")).unwrap();
    let b = db.create_answer(answer(&other.question_uuid, "elsewhere")).unwrap();
    let c = db.create_answer(answer(&q.question_uuid, "second")).unwrap();
    assert_eq!(db.get_answers(&q.question_uuid).unwrap(), vec![a.clone(), c.clone()]);
    assert_eq!(db.get_answers(&other.question_uuid).unwrap(), vec![b]);
    assert_eq!(c.content, "second");
    assert_eq!(c.question_uuid, q.question_uuid);
}

#[test]
fn question_is_named_in_any_accepted_form() {
    let mut db = storage();
    let q = db.create_question(question("T", "D")).unwrap();
    let braced = format!("{{{}}}", q.question_uuid.to_uppercase());
    let a = db.create_answer(answer(&braced, "C")).unwrap();
    assert_eq!(a.question_uuid, q.question_uuid);
    let urn = format!("urn:uuid:{}", q.question_uuid);
    assert_eq!(db.get_answers(&urn).unwrap(), vec![a]);
}

#[test]
fn answered_question_cannot_be_deleted() {
    let mut db = storage();
    let q = db.create_question(question("T", "D")).unwrap();
    let a = db.create_answer(answer(&q.question_uuid, "C")).unwrap();
    match db.delete_question(&q.question_uuid) {
        Err(DBError::Other(cause)) => assert_eq!(cause.code.as_deref(), Some("23503")),
        other => panic!("unexpected: {:?}", other),
    }
    assert_eq!(db.get_questions().unwrap(), vec![q.clone()]);
    db.delete_answer(&a.answer_uuid).unwrap();
    assert!(db.delete_question(&q.question_uuid).is_ok());
    assert!(db.get_questions().unwrap().is_empty());
}

#[test]
fn deleting_leaves_the_other_rows_in_order() {
    let mut db = storage();
    let a = db.create_question(question("a", "")).unwrap();
    let b = db.create_question(question("b", "")).unwrap();
    let c = db.create_question(question("c", "")).unwrap();
    db.delete_question(&b.question_uuid).unwrap();
    assert_eq!(db.get_questions().unwrap(), vec![a, c]);
}

#[test]
fn statements_go_to_the_storage_directly() {
    let mut db = storage();
    let row = db
        .insert_question(NewQuestion { title: "T".to_string(), description: "D".to_string() })
        .unwrap();
    assert_eq!(row.question_uuid, Uuid::from_u128(0));
    let refused = db
        .insert_answer(NewAnswer { question_uuid: Uuid::from_u128(9), content: "C".to_string() })
        .unwrap_err();
    assert_eq!(refused.code.as_deref(), Some("23503"));
    let stored = db
        .insert_answer(NewAnswer { question_uuid: row.question_uuid, content: "C".to_string() })
        .unwrap();
    assert_eq!(stored.answer_uuid, Uuid::from_u128(1));
    assert_eq!(db.select_answers(row.question_uuid).unwrap().len(), 1);
    assert_eq!(db.remove_question(row.question_uuid).unwrap_err().code.as_deref(), Some("23503"));
    assert!(db.remove_answer(stored.answer_uuid).is_ok());
    assert!(db.remove_question(row.question_uuid).is_ok());
    assert!(db.select_questions().unwrap().is_empty());
}
