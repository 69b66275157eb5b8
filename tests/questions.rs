use quiz_api::handlers::{
    after_update, reject_empty_id, reply_created, reply_deleted, reply_error, reply_found,
    reply_listed, HttpReply, ReplyBody, UpdateStep,
};
use quiz_api::object_id::QuestionId;
use quiz_api::question::Question;
use quiz_api::repository::{
    document_to_insert, found_question, parse_id, replacement_document, RepoError,
};

fn strings(items: &[&str]) -> Vec<String> {
    items.iter().map(|s| s.to_string()).collect()
}

fn math_question() -> Question {
    Question::new("math".to_string(), "2+2?".to_string(), "4".to_string(), strings(&["3", "5"]))
}

fn message(reply: &HttpReply) -> &str {
    match &reply.body {
        ReplyBody::Message(m) => m.as_str(),
        other => panic!("expected a message, got {:?}", other),
    }
}

fn document(reply: &HttpReply) -> &Question {
    match &reply.body {
        ReplyBody::Document(q) => q,
        other => panic!("expected a document, got {:?}", other),
    }
}

fn same_fields(a: &Question, b: &Question) -> bool {
    a.category == b.category
        && a.text == b.text
        && a.response == b.response
        && a.suggestions == b.suggestions
}

#[test]
fn id_parses_into_its_bytes() {
    let id = QuestionId::parse("507f1f77bcf86cd799439011").unwrap();
    assert_eq!(id.bytes, [0x50, 0x7f, 0x1f, 0x77, 0xbc, 0xf8, 0x6c, 0xd7, 0x99, 0x43, 0x90, 0x11]);
}

#[test]
fn id_text_is_lower_case() {
    let id = QuestionId { bytes: [0xAB, 0xCD, 0xEF, 0, 1, 2, 3, 4, 5, 6, 7, 0xFF] };
    assert_eq!(id.to_hex(), "abcdef0001020304050607ff");
}

#[test]
fn upper_case_id_reads_and_writes_back_in_lower_case() {
    let id = QuestionId::parse("507F1F77BCF86CD799439011").unwrap();
    assert_eq!(id.to_hex(), "507f1f77bcf86cd799439011");
}

#[test]
fn id_round_trips_through_its_text() {
    let id = QuestionId { bytes: [9, 8, 7, 6, 5, 4, 3, 2, 1, 0, 255, 128] };
    assert_eq!(QuestionId::parse(&id.to_hex()), Some(id));
}

#[test]
fn malformed_ids_are_invalid() {
    for text in ["not-an-id", "", "507f1f77bcf86cd79943901", "507f1f77bcf86cd7994390111",
        "507f1f77bcf86cd79943901g", "507f1f77bcf86cd79943901é"] {
        assert!(matches!(parse_id(text), Err(RepoError::InvalidId)), "{}", text);
    }
}

#[test]
fn malformed_id_replies_bad_request() {
    let reply = match parse_id("not-an-id") {
        Ok(_) => panic!("accepted a malformed id"),
        Err(e) => reply_error(e),
    };
    assert_eq!(reply.status, 400);
    assert_eq!(message(&reply), "invalid ID");
}

#[test]
fn empty_id_is_refused_before_anything_else() {
    let reply = reject_empty_id("").unwrap();
    assert_eq!(reply.status, 400);
    assert_eq!(message(&reply), "invalid ID");
    assert!(reject_empty_id("507f1f77bcf86cd799439011").is_none());
    assert!(reject_empty_id("not-an-id").is_none());
}

#[test]
fn document_to_insert_drops_the_callers_id() {
    let mut q = math_question();
    q.id = QuestionId::parse("507f1f77bcf86cd799439011");
    let doc = document_to_insert(q);
    assert!(doc.id.is_none());
    assert!(same_fields(&doc, &math_question()));
}

#[test]
fn replacement_document_takes_the_path_id() {
    let id = QuestionId::parse("507f1f77bcf86cd799439011").unwrap();
    let doc = replacement_document(id, math_question());
    assert_eq!(doc.id, Some(id));
    assert!(same_fields(&doc, &math_question()));
}

#[test]
fn lookup_without_document_is_not_found() {
    assert!(matches!(found_question(None), Err(RepoError::NotFound)));
    let reply = reply_found(found_question(None));
    assert_eq!(reply.status, 404);
    assert_eq!(message(&reply), "No question found with specified ID");
}

#[test]
fn lookup_with_document_returns_it() {
    let found = found_question(Some(math_question())).unwrap();
    assert!(same_fields(&found, &math_question()));
}

#[test]
fn store_failure_replies_with_its_text() {
    let reply = reply_error(RepoError::store("connection refused".to_string()));
    assert_eq!(reply.status, 500);
    assert_eq!(message(&reply), "connection refused");
}

#[test]
fn created_reply_carries_the_assigned_id() {
    let id = QuestionId::parse("64b7f0a1c2d3e4f5a6b7c8d9").unwrap();
    let reply = reply_created(document_to_insert(math_question()), Ok(id));
    assert_eq!(reply.status, 200);
    assert_eq!(document(&reply).id, Some(id));
    assert!(same_fields(document(&reply), &math_question()));
}

#[test]
fn failed_create_replies_server_error() {
    let reply = reply_created(math_question(), Err(RepoError::store("write refused".to_string())));
    assert_eq!(reply.status, 500);
    assert_eq!(message(&reply), "write refused");
}

#[test]
fn update_that_matched_fetches_again() {
    assert!(matches!(after_update(Ok(1)), UpdateStep::Refetch));
}

#[test]
fn update_that_matched_nothing_is_not_found() {
    match after_update(Ok(0)) {
        UpdateStep::Reply(reply) => {
            assert_eq!(reply.status, 404);
            assert_eq!(message(&reply), "No question found with specified ID");
        }
        UpdateStep::Refetch => panic!("refetched after no match"),
    }
}

#[test]
fn failed_update_replies_with_its_error() {
    match after_update(Err(RepoError::InvalidId)) {
        UpdateStep::Reply(reply) => assert_eq!(reply.status, 400),
        UpdateStep::Refetch => panic!("refetched after an error"),
    }
    match after_update(Err(RepoError::store("timeout".to_string()))) {
        UpdateStep::Reply(reply) => assert_eq!(reply.status, 500),
        UpdateStep::Refetch => panic!("refetched after an error"),
    }
}

#[test]
fn update_then_get_shows_new_fields_under_old_id() {
    let id = QuestionId::parse("64b7f0a1c2d3e4f5a6b7c8d9").unwrap();
    let new_fields = Question::new("history".to_string(), "1066?".to_string(),
        "Hastings".to_string(), strings(&["Agincourt"]));
    let parsed = parse_id(&id.to_hex()).unwrap();
    let stored = replacement_document(parsed, new_fields);
    assert!(matches!(after_update(Ok(1)), UpdateStep::Refetch));
    let reply = reply_found(found_question(Some(stored)));
    assert_eq!(reply.status, 200);
    assert_eq!(document(&reply).id, Some(id));
    assert_eq!(document(&reply).category, "history");
    assert_eq!(document(&reply).suggestions, strings(&["Agincourt"]));
}

#[test]
fn delete_of_one_question_confirms() {
    let reply = reply_deleted(Ok(1));
    assert_eq!(reply.status, 200);
    assert_eq!(message(&reply), "Question successfully deleted!");
}

#[test]
fn delete_of_missing_id_is_not_found() {
    let reply = reply_deleted(Ok(0));
    assert_eq!(reply.status, 404);
    assert_eq!(message(&reply), "no question matches the specified ID");
}

#[test]
fn failed_delete_replies_with_its_error() {
    assert_eq!(reply_deleted(Err(RepoError::store("down".to_string()))).status, 500);
    assert_eq!(reply_deleted(Err(RepoError::InvalidId)).status, 400);
}

#[test]
fn empty_listing_is_ok_and_empty() {
    let reply = reply_listed(Ok(Vec::new()));
    assert_eq!(reply.status, 200);
    assert!(matches!(&reply.body, ReplyBody::Documents(list) if list.is_empty()));
}

#[test]
fn listing_keeps_every_question() {
    let reply = reply_listed(Ok(vec![math_question(), math_question()]));
    assert_eq!(reply.status, 200);
    assert!(matches!(&reply.body, ReplyBody::Documents(list) if list.len() == 2));
    assert_eq!(reply_listed(Err(RepoError::store("down".to_string()))).status, 500);
}

#[test]
fn create_get_delete_get_scenario() {
    // POST: the store is handed the fields without an id and assigns one.
    let to_store = document_to_insert(math_question());
    assert!(to_store.id.is_none());
    let assigned = QuestionId::parse("64b7f0a1c2d3e4f5a6b7c8d9").unwrap();
    let created = reply_created(to_store, Ok(assigned));
    assert_eq!(created.status, 200);
    let created_doc = document(&created).clone();
    assert_eq!(created_doc.id, Some(assigned));

    // GET by the returned id: the same fields come back.
    let path = created_doc.id.unwrap().to_hex();
    assert!(reject_empty_id(&path).is_none());
    let id = parse_id(&path).unwrap();
    assert_eq!(id, assigned);
    let fetched = reply_found(found_question(Some(created_doc.clone())));
    assert_eq!(fetched.status, 200);
    assert!(same_fields(document(&fetched), &math_question()));
    assert_eq!(document(&fetched).category, "math");
    assert_eq!(document(&fetched).text, "2+2?");
    assert_eq!(document(&fetched).response, "4");
    assert_eq!(document(&fetched).suggestions, strings(&["3", "5"]));

    // DELETE that id: one question removed.
    assert_eq!(reply_deleted(Ok(1)).status, 200);

    // GET again: not found, not a crash.
    let again = reply_found(found_question(None));
    assert_eq!(again.status, 404);
}
