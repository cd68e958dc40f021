use chrono::{NaiveDate, NaiveDateTime};
use function_lifecycle::codec::encode_code;
use function_lifecycle::lifecycle::{
    create, create_at, create_query, create_reply, delete_function, fetch_failed, get,
    list_functions, publish, publish_at, publish_reply, select_code, show, test_reply,
    update, update_at, update_reply, UpdateStep,
};
use function_lifecycle::name::FunctionName;
use function_lifecycle::record::{
    copy_text, decode_function, CreateFunctionRequest, Function, LifecycleError, Stage, TestParam,
    UpdateFunctionRequest,
};
use function_lifecycle::store::StoreFault;

fn at(hour: u32) -> NaiveDateTime {
    NaiveDate::from_ymd_opt(2024, 5, 17).unwrap().and_hms_opt(hour, 30, 0).unwrap()
}

fn name(text: &str) -> FunctionName {
    FunctionName::validate_data(text.to_string()).unwrap()
}

fn create_request(function_name: &str, code: &str) -> CreateFunctionRequest {
    CreateFunctionRequest {
        function_name: name(function_name),
        function: code.to_string(),
        runtime_version: "1.0.0".to_string(),
        description: "checks a value".to_string(),
        change_reason: "first version".to_string(),
    }
}

fn stored_record(function_name: &str, code: &str) -> Function {
    Function {
        function_name: function_name.to_string(),
        draft_code: encode_code(code),
        draft_runtime_version: "1.0.0".to_string(),
        draft_edited_by: "author@example.com".to_string(),
        draft_edited_at: at(9),
        published_code: None,
        published_at: None,
        published_by: None,
        published_runtime_version: None,
        function_description: "checks a value".to_string(),
    }
}

fn published_stored_record(function_name: &str, draft: &str, published: &str) -> Function {
    let mut record = stored_record(function_name, draft);
    record.published_code = Some(encode_code(published));
    record.published_at = Some(at(10));
    record.published_by = Some("publisher@example.com".to_string());
    record.published_runtime_version = Some("0.9.0".to_string());
    record
}

fn no_change() -> UpdateFunctionRequest {
    UpdateFunctionRequest {
        draft_code: None,
        draft_runtime_version: None,
        description: None,
        change_reason: "touch".to_string(),
    }
}

#[test]
fn create_asks_the_gate_about_the_requested_code() {
    let request = create_request("isEven", "return value % 2 === 0;");
    let query = create_query(&request);
    assert_eq!(query.code, "return value % 2 === 0;");
    assert_eq!(query.function_name, "isEven");
}

#[test]
fn create_makes_a_draft_only_record() {
    let request = create_request("isEven", "return value % 2 === 0;");
    let record = create_at(request, "author@example.com".to_string(), at(9), Ok(())).unwrap();
    assert_eq!(record.function_name, "isEven");
    assert_eq!(record.draft_code, "cmV0dXJuIHZhbHVlICUgMiA9PT0gMDs=");
    assert_eq!(record.draft_runtime_version, "1.0.0");
    assert_eq!(record.draft_edited_by, "author@example.com");
    assert_eq!(record.draft_edited_at, at(9));
    assert_eq!(record.function_description, "checks a value");
    assert_eq!(record.published_code, None);
    assert_eq!(record.published_at, None);
    assert_eq!(record.published_by, None);
    assert_eq!(record.published_runtime_version, None);
}

#[test]
fn create_relays_the_diagnostic_of_a_rejection() {
    let request = create_request("bad", "not valid syntax");
    let verdict = Err("SyntaxError: Unexpected identifier 'valid'".to_string());
    let err = create_at(request, "author@example.com".to_string(), at(9), verdict).unwrap_err();
    match err {
        LifecycleError::GateRejected(diagnostic) => {
            assert_eq!(diagnostic, "SyntaxError: Unexpected identifier 'valid'")
        }
        other => panic!("{:?}", other),
    }
}

#[test]
fn create_stamps_the_current_time() {
    let before = chrono::Utc::now().naive_utc();
    let request = create_request("isEven", "return true;");
    let record = create(request, "author@example.com".to_string(), Ok(())).unwrap();
    let after = chrono::Utc::now().naive_utc();
    assert!(before <= record.draft_edited_at && record.draft_edited_at <= after);
    assert_eq!(record.draft_code, encode_code("return true;"));
    assert_eq!(record.draft_edited_by, "author@example.com");
    let rejected = create(
        create_request("isEven", "return true;"),
        "author@example.com".to_string(),
        Err("no".to_string()),
    );
    assert!(matches!(rejected, Err(LifecycleError::GateRejected(d)) if d == "no"));
}

#[test]
fn create_reply_shows_the_inserted_record_decoded() {
    let reply = create_reply(Ok(stored_record("isEven", "return true;"))).unwrap();
    assert_eq!(reply.draft_code, "return true;");
    assert_eq!(reply.function_name, "isEven");
    assert_eq!(reply.published_code, None);
}

#[test]
fn create_reply_tells_a_taken_name_from_other_faults() {
    assert!(matches!(
        create_reply(Err(StoreFault::UniqueViolation)),
        Err(LifecycleError::NameConflict)
    ));
    assert!(matches!(create_reply(Err(StoreFault::Other)), Err(LifecycleError::Internal)));
    assert!(matches!(create_reply(Err(StoreFault::NotFound)), Err(LifecycleError::Internal)));
}

#[test]
fn create_reply_reports_stored_code_that_does_not_decode() {
    let mut record = stored_record("isEven", "return true;");
    record.draft_code = "@@@".to_string();
    assert!(matches!(create_reply(Ok(record)), Err(LifecycleError::DecodeFailure)));
}

#[test]
fn update_of_a_missing_function_is_not_found() {
    let r = update_at(
        "ghost".to_string(),
        no_change(),
        "editor@example.com".to_string(),
        at(11),
        Err(StoreFault::NotFound),
    );
    assert!(matches!(r, Err(LifecycleError::NotFound)));
    let r = update_at(
        "ghost".to_string(),
        no_change(),
        "editor@example.com".to_string(),
        at(11),
        Err(StoreFault::Other),
    );
    assert!(matches!(r, Err(LifecycleError::Internal)));
}

#[test]
fn update_without_code_skips_the_gate_and_keeps_the_draft() {
    let existing = published_stored_record("isEven", "return true;", "return false;");
    let request = UpdateFunctionRequest {
        draft_code: None,
        draft_runtime_version: None,
        description: Some("x".to_string()),
        change_reason: "describe".to_string(),
    };
    let step = update_at(
        "isEven".to_string(),
        request,
        "editor@example.com".to_string(),
        at(11),
        Ok(existing),
    )
    .unwrap();
    let record = match step {
        UpdateStep::Write(record) => record,
        other => panic!("{:?}", other),
    };
    assert_eq!(record.function_name, "isEven");
    assert_eq!(record.draft_code, encode_code("return true;"));
    assert_eq!(record.function_description, "x");
    assert_eq!(record.draft_runtime_version, "1.0.0");
    assert_eq!(record.draft_edited_by, "editor@example.com");
    assert_eq!(record.draft_edited_at, at(11));
    assert_eq!(record.published_code, Some(encode_code("return false;")));
    assert_eq!(record.published_at, Some(at(10)));
    assert_eq!(record.published_by, Some("publisher@example.com".to_string()));
    assert_eq!(record.published_runtime_version, Some("0.9.0".to_string()));
}

#[test]
fn update_with_code_asks_the_gate_first() {
    let existing = stored_record("isEven", "return true;");
    let request = UpdateFunctionRequest {
        draft_code: Some("return value % 2 === 0;".to_string()),
        draft_runtime_version: Some("2.0.0".to_string()),
        description: None,
        change_reason: "real check".to_string(),
    };
    let step = update_at(
        "isEven".to_string(),
        request,
        "editor@example.com".to_string(),
        at(11),
        Ok(existing),
    )
    .unwrap();
    let (query, pending) = match step {
        UpdateStep::Check { query, pending } => (query, pending),
        other => panic!("{:?}", other),
    };
    assert_eq!(query.code, "return value % 2 === 0;");
    assert_eq!(query.function_name, "isEven");
    let record = pending.resolve_at(at(12), Ok(())).unwrap();
    assert_eq!(record.function_name, "isEven");
    assert_eq!(record.draft_code, encode_code("return value % 2 === 0;"));
    assert_eq!(record.draft_runtime_version, "2.0.0");
    assert_eq!(record.function_description, "checks a value");
    assert_eq!(record.draft_edited_by, "editor@example.com");
    assert_eq!(record.draft_edited_at, at(12));
    assert_eq!(record.published_code, None);
}

#[test]
fn update_with_rejected_code_writes_nothing() {
    let existing = stored_record("isEven", "return true;");
    let request = UpdateFunctionRequest {
        draft_code: Some("return (".to_string()),
        draft_runtime_version: None,
        description: Some("broken".to_string()),
        change_reason: "oops".to_string(),
    };
    let step = update_at(
        "isEven".to_string(),
        request,
        "editor@example.com".to_string(),
        at(11),
        Ok(existing),
    )
    .unwrap();
    let pending = match step {
        UpdateStep::Check { pending, .. } => pending,
        other => panic!("{:?}", other),
    };
    let err = pending.resolve_at(at(12), Err("SyntaxError: Unexpected end".to_string()));
    assert!(matches!(err, Err(LifecycleError::GateRejected(d)) if d == "SyntaxError: Unexpected end"));
}

#[test]
fn update_stamps_the_current_time() {
    let before = chrono::Utc::now().naive_utc();
    let step = update(
        "isEven".to_string(),
        no_change(),
        "editor@example.com".to_string(),
        Ok(stored_record("isEven", "return true;")),
    )
    .unwrap();
    let record = match step {
        UpdateStep::Write(record) => record,
        other => panic!("{:?}", other),
    };
    let after = chrono::Utc::now().naive_utc();
    assert!(before <= record.draft_edited_at && record.draft_edited_at <= after);
    assert_eq!(record.draft_code, encode_code("return true;"));

    let request = UpdateFunctionRequest {
        draft_code: Some("return 1;".to_string()),
        draft_runtime_version: None,
        description: None,
        change_reason: "new".to_string(),
    };
    let step = update(
        "isEven".to_string(),
        request,
        "editor@example.com".to_string(),
        Ok(stored_record("isEven", "return true;")),
    )
    .unwrap();
    let pending = match step {
        UpdateStep::Check { pending, .. } => pending,
        other => panic!("{:?}", other),
    };
    let before = chrono::Utc::now().naive_utc();
    let record = pending.resolve(Ok(())).unwrap();
    let after = chrono::Utc::now().naive_utc();
    assert!(before <= record.draft_edited_at && record.draft_edited_at <= after);
    assert_eq!(record.draft_code, encode_code("return 1;"));
}

#[test]
fn update_reply_shows_the_written_record_decoded() {
    let reply =
        update_reply(Ok(published_stored_record("isEven", "return 1;", "return 2;"))).unwrap();
    assert_eq!(reply.draft_code, "return 1;");
    assert_eq!(reply.published_code, Some("return 2;".to_string()));
    assert!(matches!(update_reply(Err(StoreFault::NotFound)), Err(LifecycleError::Internal)));
    assert!(matches!(update_reply(Err(StoreFault::Other)), Err(LifecycleError::Internal)));
    assert!(matches!(
        update_reply(Err(StoreFault::UniqueViolation)),
        Err(LifecycleError::Internal)
    ));
}

#[test]
fn publish_copies_the_draft_into_the_published_slot() {
    let existing = published_stored_record("isEven", "return 1;", "return 0;");
    let record =
        publish_at("publisher2@example.com".to_string(), at(13), Ok(existing)).unwrap();
    assert_eq!(record.published_code, Some(encode_code("return 1;")));
    assert_eq!(record.published_runtime_version, Some("1.0.0".to_string()));
    assert_eq!(record.published_by, Some("publisher2@example.com".to_string()));
    assert_eq!(record.published_at, Some(at(13)));
    assert_eq!(record.draft_code, encode_code("return 1;"));
    assert_eq!(record.draft_edited_by, "author@example.com");
    assert_eq!(record.draft_edited_at, at(9));
    assert_eq!(record.function_name, "isEven");
    assert_eq!(record.function_description, "checks a value");
}

#[test]
fn publish_does_not_decode_or_check_the_draft() {
    let mut existing = stored_record("isEven", "x");
    existing.draft_code = "@@ not base64 @@".to_string();
    let record = publish_at("p@example.com".to_string(), at(13), Ok(existing)).unwrap();
    assert_eq!(record.published_code, Some("@@ not base64 @@".to_string()));
}

#[test]
fn publish_twice_only_stamps_anew() {
    let once = publish_at("a@example.com".to_string(), at(13), Ok(stored_record("f", "c"))).unwrap();
    let twice = publish_at("b@example.com".to_string(), at(14), Ok(once)).unwrap();
    let direct = publish_at("b@example.com".to_string(), at(14), Ok(stored_record("f", "c"))).unwrap();
    assert_eq!(twice.published_code, direct.published_code);
    assert_eq!(twice.published_by, Some("b@example.com".to_string()));
    assert_eq!(twice.published_at, Some(at(14)));
    assert_eq!(twice.published_runtime_version, direct.published_runtime_version);
    assert_eq!(twice.draft_code, direct.draft_code);
}

#[test]
fn publish_of_a_missing_function_is_not_found() {
    let r = publish_at("p@example.com".to_string(), at(13), Err(StoreFault::NotFound));
    assert!(matches!(r, Err(LifecycleError::NotFound)));
    let r = publish_at("p@example.com".to_string(), at(13), Err(StoreFault::Other));
    assert!(matches!(r, Err(LifecycleError::Internal)));
}

#[test]
fn publish_stamps_the_current_time() {
    let before = chrono::Utc::now().naive_utc();
    let record = publish("p@example.com".to_string(), Ok(stored_record("f", "c"))).unwrap();
    let after = chrono::Utc::now().naive_utc();
    let stamped = record.published_at.unwrap();
    assert!(before <= stamped && stamped <= after);
    assert_eq!(record.published_code, Some(encode_code("c")));
    assert!(matches!(
        publish("p@example.com".to_string(), Err(StoreFault::NotFound)),
        Err(LifecycleError::NotFound)
    ));
}

#[test]
fn publish_reply_gives_the_time_of_publication() {
    let written = published_stored_record("f", "c", "c");
    assert_eq!(publish_reply(Ok(written)).unwrap(), at(10));
    assert!(matches!(
        publish_reply(Ok(stored_record("f", "c"))),
        Err(LifecycleError::Internal)
    ));
    assert!(matches!(publish_reply(Err(StoreFault::Other)), Err(LifecycleError::Internal)));
    assert!(matches!(publish_reply(Err(StoreFault::NotFound)), Err(LifecycleError::Internal)));
}

#[test]
fn stage_routes_to_its_slot() {
    let record = published_stored_record("f", "draft text", "published text");
    assert_eq!(select_code(&record, Stage::Draft), Some(&encode_code("draft text")));
    assert_eq!(select_code(&record, Stage::Published), Some(&encode_code("published text")));
    let unpublished = stored_record("f", "draft text");
    assert_eq!(select_code(&unpublished, Stage::Draft), Some(&encode_code("draft text")));
    assert_eq!(select_code(&unpublished, Stage::Published), None);
}

#[test]
fn test_runs_the_code_of_the_stage() {
    let record = published_stored_record("isEven", "draft text", "published text");
    let param = TestParam { function_name: name("isEven"), stage: Stage::Draft };
    let run = function_lifecycle::lifecycle::test(param, serde_json::Value::from(4), Ok(record)).unwrap();
    assert_eq!(run.code, "draft text");
    assert_eq!(run.function_name, "isEven");
    assert_eq!(run.input, serde_json::Value::from(4));

    let record = published_stored_record("isEven", "draft text", "published text");
    let param = TestParam { function_name: name("isEven"), stage: Stage::Published };
    let input = serde_json::Value::String("seven".to_string());
    let run = function_lifecycle::lifecycle::test(param, input.clone(), Ok(record)).unwrap();
    assert_eq!(run.code, "published text");
    assert_eq!(run.function_name, "isEven");
    assert_eq!(run.input, input);
}

#[test]
fn test_of_an_unpublished_function_does_not_fall_back_to_the_draft() {
    let param = TestParam { function_name: name("isEven"), stage: Stage::Published };
    let r = function_lifecycle::lifecycle::test(param, serde_json::Value::Null, Ok(stored_record("isEven", "draft text")));
    assert!(matches!(r, Err(LifecycleError::NotPublished)));
}

#[test]
fn test_of_a_missing_function_is_not_found() {
    let param = TestParam { function_name: name("ghost"), stage: Stage::Draft };
    let r = function_lifecycle::lifecycle::test(param, serde_json::Value::Null, Err(StoreFault::NotFound));
    assert!(matches!(r, Err(LifecycleError::NotFound)));
    let param = TestParam { function_name: name("ghost"), stage: Stage::Draft };
    let r = function_lifecycle::lifecycle::test(param, serde_json::Value::Null, Err(StoreFault::Other));
    assert!(matches!(r, Err(LifecycleError::Internal)));
}

#[test]
fn test_decodes_only_the_slot_it_runs() {
    let mut record = published_stored_record("f", "draft text", "published text");
    record.published_code = Some("@@@".to_string());
    let param = TestParam { function_name: name("f"), stage: Stage::Draft };
    let run = function_lifecycle::lifecycle::test(param, serde_json::Value::Null, Ok(record)).unwrap();
    assert_eq!(run.code, "draft text");

    let mut record = published_stored_record("f", "draft text", "published text");
    record.published_code = Some("@@@".to_string());
    let param = TestParam { function_name: name("f"), stage: Stage::Published };
    let r = function_lifecycle::lifecycle::test(param, serde_json::Value::Null, Ok(record));
    assert!(matches!(r, Err(LifecycleError::DecodeFailure)));

    let mut record = stored_record("f", "draft text");
    record.draft_code = "//4=".to_string();
    let param = TestParam { function_name: name("f"), stage: Stage::Draft };
    let r = function_lifecycle::lifecycle::test(param, serde_json::Value::Null, Ok(record));
    assert!(matches!(r, Err(LifecycleError::DecodeFailure)));
}

#[test]
fn test_reply_relays_the_outcome_unchanged() {
    assert_eq!(test_reply(Ok("line 1\nline 2\n".to_string())).unwrap(), "line 1\nline 2\n");
    assert_eq!(test_reply(Ok(String::new())).unwrap(), "");
    match test_reply(Err(("TypeError: x is not a function".to_string(), Some("so far".to_string())))) {
        Err(LifecycleError::ExecutionFailure { message, output }) => {
            assert_eq!(message, "TypeError: x is not a function");
            assert_eq!(output, Some("so far".to_string()));
        }
        other => panic!("{:?}", other),
    }
    match test_reply(Err(("timed out".to_string(), None))) {
        Err(LifecycleError::ExecutionFailure { message, output }) => {
            assert_eq!(message, "timed out");
            assert_eq!(output, None);
        }
        other => panic!("{:?}", other),
    }
}

#[test]
fn get_shows_the_record_decoded() {
    let reply = get(Ok(published_stored_record("f", "draft text", "published text"))).unwrap();
    assert_eq!(reply.draft_code, "draft text");
    assert_eq!(reply.published_code, Some("published text".to_string()));
    assert_eq!(reply.function_name, "f");
    assert_eq!(reply.published_at, Some(at(10)));
    assert!(matches!(get(Err(StoreFault::NotFound)), Err(LifecycleError::NotFound)));
    assert!(matches!(get(Err(StoreFault::Other)), Err(LifecycleError::Internal)));
    let mut corrupt = stored_record("f", "x");
    corrupt.draft_code = "*".to_string();
    assert!(matches!(get(Ok(corrupt)), Err(LifecycleError::DecodeFailure)));
}

#[test]
fn list_shows_every_record_decoded_in_order() {
    let list = vec![
        stored_record("a", "code a"),
        published_stored_record("b", "code b", "old b"),
        stored_record("c", "code c"),
    ];
    let reply = list_functions(Ok(list)).unwrap();
    assert_eq!(reply.len(), 3);
    assert_eq!(reply[0].function_name, "a");
    assert_eq!(reply[0].draft_code, "code a");
    assert_eq!(reply[1].function_name, "b");
    assert_eq!(reply[1].draft_code, "code b");
    assert_eq!(reply[1].published_code, Some("old b".to_string()));
    assert_eq!(reply[2].function_name, "c");
    assert_eq!(reply[2].draft_code, "code c");
    assert_eq!(list_functions(Ok(Vec::new())).unwrap().len(), 0);
}

#[test]
fn list_fails_as_a_whole_on_one_corrupt_record() {
    let mut corrupt = stored_record("b", "code b");
    corrupt.draft_code = "%".to_string();
    let list = vec![stored_record("a", "code a"), corrupt, stored_record("c", "code c")];
    assert!(matches!(list_functions(Ok(list)), Err(LifecycleError::DecodeFailure)));
    assert!(matches!(list_functions(Err(StoreFault::Other)), Err(LifecycleError::Internal)));
    assert!(matches!(list_functions(Err(StoreFault::NotFound)), Err(LifecycleError::Internal)));
}

#[test]
fn delete_of_nothing_is_not_found() {
    assert!(matches!(delete_function(Ok(0)), Err(LifecycleError::NotFound)));
    assert!(matches!(delete_function(Ok(1)), Ok(())));
    assert!(matches!(delete_function(Ok(2)), Ok(())));
    assert!(matches!(delete_function(Err(StoreFault::Other)), Err(LifecycleError::Internal)));
}

#[test]
fn fetch_faults_map_to_errors() {
    assert!(matches!(fetch_failed(StoreFault::NotFound), LifecycleError::NotFound));
    assert!(matches!(fetch_failed(StoreFault::Other), LifecycleError::Internal));
    assert!(matches!(fetch_failed(StoreFault::UniqueViolation), LifecycleError::Internal));
}

#[test]
fn decode_function_decodes_both_slots() {
    let mut record = published_stored_record("f", "draft text", "published text");
    assert!(decode_function(&mut record).is_ok());
    assert_eq!(record.draft_code, "draft text");
    assert_eq!(record.published_code, Some("published text".to_string()));
    assert_eq!(record.function_name, "f");
    assert_eq!(record.published_by, Some("publisher@example.com".to_string()));
}

#[test]
fn decode_function_leaves_a_corrupt_record_as_it_was() {
    let mut record = published_stored_record("f", "draft text", "published text");
    record.published_code = Some("@@@".to_string());
    assert!(matches!(decode_function(&mut record), Err(LifecycleError::DecodeFailure)));
    assert_eq!(record.draft_code, encode_code("draft text"));
    assert_eq!(record.published_code, Some("@@@".to_string()));

    let mut record = stored_record("f", "draft text");
    record.draft_code = "@".to_string();
    assert!(matches!(decode_function(&mut record), Err(LifecycleError::DecodeFailure)));
    assert_eq!(record.draft_code, "@");
}

#[test]
fn show_is_decode_by_value() {
    let shown = show(stored_record("f", "draft text")).unwrap();
    assert_eq!(shown.draft_code, "draft text");
}

#[test]
fn records_and_texts_can_be_copied() {
    let record = published_stored_record("f", "draft text", "published text");
    let copy = record.duplicate();
    assert_eq!(copy.function_name, record.function_name);
    assert_eq!(copy.draft_code, record.draft_code);
    assert_eq!(copy.draft_runtime_version, record.draft_runtime_version);
    assert_eq!(copy.draft_edited_by, record.draft_edited_by);
    assert_eq!(copy.draft_edited_at, record.draft_edited_at);
    assert_eq!(copy.published_code, record.published_code);
    assert_eq!(copy.published_at, record.published_at);
    assert_eq!(copy.published_by, record.published_by);
    assert_eq!(copy.published_runtime_version, record.published_runtime_version);
    assert_eq!(copy.function_description, record.function_description);
    assert_eq!(copy_text(&Some("t".to_string())), Some("t".to_string()));
    assert_eq!(copy_text(&None), None);
}
