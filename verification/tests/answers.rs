use qa_api::identifier::Uuid;
use qa_api::models::Answer;
use qa_api::models::AnswerDetail;
use qa_api::models::AnswerRow;
use qa_api::models::DBError;
use qa_api::models::StorageFailure;
use qa_api::persistance::answers_dao::answer_detail;
use qa_api::persistance::answers_dao::create_answer_result;
use qa_api::persistance::answers_dao::create_answer_statement;
use qa_api::persistance::answers_dao::delete_answer_result;
use qa_api::persistance::answers_dao::delete_answer_statement;
use qa_api::persistance::answers_dao::get_answers_result;
use qa_api::persistance::answers_dao::get_answers_statement;

fn answer_row(value: u128, question: u128, content: &str) -> AnswerRow {
    AnswerRow {
        answer_uuid: Uuid::from_u128(value),
        question_uuid: Uuid::from_u128(question),
        content: content.to_string(),
        created_at: "2024-01-02 03:04:05.0".to_string(),
        modified_at: "2024-01-02 03:04:06.0".to_string(),
    }
}

fn failed(code: Option<&str>) -> StorageFailure {
    StorageFailure { code: code.map(|c| c.to_string()), message: "it broke".to_string() }
}

#[test]
fn answer_row_becomes_detail() {
    let detail = answer_detail(&answer_row(0xabc, 0x67e55044_10b1_426f_9247_bb680e5fe0c8, "So."));
    assert_eq!(
        detail,
        AnswerDetail {
            answer_uuid: "00000000-0000-0000-0000-000000000abc".to_string(),
            question_uuid: "67e55044-10b1-426f-9247-bb680e5fe0c8".to_string(),
            content: "So.".to_string(),
            created_at: "2024-01-02 03:04:05.0".to_string(),
            modified_at: "2024-01-02 03:04:06.0".to_string(),
        }
    );
}

#[test]
fn create_answer_reads_the_question() {
    let statement = create_answer_statement(Answer {
        question_uuid: "{67E55044-10B1-426F-9247-BB680E5FE0C8}".to_string(),
        content: "C".to_string(),
    })
    .unwrap();
    assert_eq!(statement.question_uuid.as_u128(), 0x67e55044_10b1_426f_9247_bb680e5fe0c8);
    assert_eq!(statement.content, "C");
}

#[test]
fn create_answer_refuses_a_malformed_question() {
    let refused = create_answer_statement(Answer {
        question_uuid: "not-a-uuid".to_string(),
        content: "C".to_string(),
    });
    match refused {
        Err(DBError::InvalidUUID(reason)) => {
            assert_eq!(reason, "invalid character: found `n` at 0")
        }
        other => panic!("unexpected: {:?}", other),
    }
}

#[test]
fn create_answer_shows_the_inserted_row() {
    let detail = create_answer_result(Ok(answer_row(2, 1, "C"))).unwrap();
    assert_eq!(detail.answer_uuid, "00000000-0000-0000-0000-000000000002");
    assert_eq!(detail.question_uuid, "00000000-0000-0000-0000-000000000001");
    assert_eq!(detail.content, "C");
}

#[test]
fn create_answer_turns_a_refused_reference_into_invalid_uuid() {
    match create_answer_result(Err(failed(Some("23503")))) {
        Err(DBError::InvalidUUID(reason)) => assert_eq!(reason, "Foreign key violation: 23503"),
        other => panic!("unexpected: {:?}", other),
    }
}

#[test]
fn create_answer_leaves_other_failures_as_other() {
    match create_answer_result(Err(failed(Some("23505")))) {
        Err(DBError::Other(cause)) => assert_eq!(cause.code.as_deref(), Some("23505")),
        other => panic!("unexpected: {:?}", other),
    }
    match create_answer_result(Err(failed(None))) {
        Err(DBError::Other(cause)) => {
            assert_eq!(cause.code, None);
            assert_eq!(cause.message, "it broke");
        }
        other => panic!("unexpected: {:?}", other),
    }
}

#[test]
fn delete_answer_reads_the_identifier() {
    let key = delete_answer_statement("67e5504410b1426f9247bb680e5fe0c8").unwrap();
    assert_eq!(key.as_u128(), 0x67e55044_10b1_426f_9247_bb680e5fe0c8);
}

#[test]
fn delete_answer_refuses_a_malformed_identifier() {
    match delete_answer_statement("67e5504410b1426f9247bb680e5fe0c") {
        Err(DBError::InvalidUUID(reason)) => {
            assert_eq!(reason, "Could not parse answer_uuid: invalid length: found 31")
        }
        other => panic!("unexpected: {:?}", other),
    }
}

#[test]
fn delete_answer_failure_is_other() {
    assert!(delete_answer_result(Ok(())).is_ok());
    assert!(matches!(delete_answer_result(Err(failed(Some("23503")))), Err(DBError::Other(_))));
}

#[test]
fn get_answers_reads_the_identifier() {
    let key = get_answers_statement("urn:uuid:67e55044-10b1-426f-9247-bb680e5fe0c8").unwrap();
    assert_eq!(key.as_u128(), 0x67e55044_10b1_426f_9247_bb680e5fe0c8);
}

#[test]
fn get_answers_refuses_a_malformed_identifier() {
    match get_answers_statement("") {
        Err(DBError::InvalidUUID(reason)) => {
            assert_eq!(reason, "Could not parse question_uuid: invalid length: found 0")
        }
        other => panic!("unexpected: {:?}", other),
    }
}

#[test]
fn get_answers_shows_each_row_in_order() {
    let details =
        get_answers_result(Ok(vec![answer_row(5, 1, "later"), answer_row(3, 1, "sooner")]))
            .unwrap();
    assert_eq!(details.len(), 2);
    assert_eq!(details[0], answer_detail(&answer_row(5, 1, "later")));
    assert_eq!(details[1], answer_detail(&answer_row(3, 1, "sooner")));
}

#[test]
fn get_answers_of_nothing_is_empty() {
    assert_eq!(get_answers_result(Ok(Vec::new())).unwrap(), Vec::new());
}

#[test]
fn get_answers_failure_is_other() {
    assert!(matches!(get_answers_result(Err(failed(None))), Err(DBError::Other(_))));
}
