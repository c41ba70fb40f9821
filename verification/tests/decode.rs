use es_bulk::action::ActionType;
use es_bulk::error::{DecodeError, EsError, Field};
use es_bulk::result::{ActionResult, ActionResultInner, BulkResult, ShardCountResult};
use serde_json::Value;

fn json(text: &str) -> Value {
    serde_json::from_str(text).unwrap()
}

const INNER: &str = r#"{"_index":"x","_type":"y","_version":1,"status":201,"_shards":{"total":2,"successful":1,"failed":0},"found":true}"#;

fn inner() -> ActionResultInner {
    ActionResultInner {
        index: "x".to_string(),
        doc_type: "y".to_string(),
        version: 1,
        status: 201,
        shards: ShardCountResult { total: 2, successful: 1, failed: 0 },
        found: true,
    }
}

fn item(key: &str) -> String {
    format!("{{\"{}\":{}}}", key, INNER)
}

fn response(items: &[String]) -> String {
    format!("{{\"took\":5,\"errors\":false,\"items\":[{}]}}", items.join(","))
}

fn decode_error(body: &str) -> DecodeError {
    match BulkResult::from_body(body) {
        Err(EsError::DecodeError { error }) => error,
        other => panic!("unexpected: {:?}", other),
    }
}

#[test]
fn response_with_one_index_item() {
    let body = r#"{"took":5,"errors":false,"items":[{"index":{"_index":"x","_type":"y","_version":1,"status":201,"_shards":{"total":2,"successful":1,"failed":0},"found":true}}]}"#;
    let result = BulkResult::from_body(body).unwrap();
    assert_eq!(result.took, 5);
    assert!(!result.errors);
    assert_eq!(result.items.len(), 1);
    assert_eq!(result.items[0].action, ActionType::Index);
    assert_eq!(result.items[0].inner.version, 1);
    assert_eq!(result.items[0].inner.status, 201);
    assert_eq!(result.items[0].inner.index, "x");
    assert_eq!(result.items[0].inner.doc_type, "y");
    assert_eq!(
        result.items[0].inner.shards,
        ShardCountResult { total: 2, successful: 1, failed: 0 }
    );
    assert!(result.items[0].inner.found);
    assert_eq!(
        result,
        BulkResult {
            errors: false,
            items: vec![ActionResult { action: ActionType::Index, inner: inner() }],
            took: 5,
        }
    );
}

#[test]
fn response_through_status_200() {
    let body = response(&[item("delete")]);
    let result = BulkResult::from_response(200, &body).unwrap();
    assert_eq!(result.items.len(), 1);
    assert_eq!(result.items[0].action, ActionType::Delete);
}

#[test]
fn items_keep_their_order() {
    let body = response(&[item("create"), item("delete"), item("update"), item("index")]);
    let result = BulkResult::from_body(&body).unwrap();
    let verbs: Vec<ActionType> = result.items.iter().map(|i| i.action).collect();
    assert_eq!(
        verbs,
        vec![ActionType::Create, ActionType::Delete, ActionType::Update, ActionType::Index]
    );
}

#[test]
fn empty_items() {
    let result = BulkResult::from_body(r#"{"items":[],"errors":false,"took":0}"#).unwrap();
    assert_eq!(result, BulkResult { errors: false, items: vec![], took: 0 });
}

#[test]
fn store_reported_failures_are_a_result() {
    let failed = r#"{"delete":{"_index":"x","_type":"y","_version":3,"status":404,"_shards":{"total":2,"successful":0,"failed":2},"found":false}}"#;
    let body = format!("{{\"took\":12,\"errors\":true,\"items\":[{},{}]}}", item("index"), failed);
    let result = BulkResult::from_response(200, &body).unwrap();
    assert!(result.errors);
    assert_eq!(result.took, 12);
    assert_eq!(result.items[1].action, ActionType::Delete);
    assert_eq!(result.items[1].inner.status, 404);
    assert!(!result.items[1].inner.found);
    assert_eq!(result.items[1].inner.shards.failed, 2);
}

#[test]
fn unknown_members_are_passed_over() {
    let body = r#"{"took":1,"extra":[1,2],"errors":false,"items":[{"index":{"_id":"1","_index":"x","_type":"y","_version":1,"status":200,"_shards":{"total":1,"successful":1,"failed":0,"skipped":0},"found":false,"result":"created"}}]}"#;
    let result = BulkResult::from_body(body).unwrap();
    assert_eq!(result.items[0].inner.status, 200);
}

#[test]
fn item_without_a_key_fails() {
    let body = response(&["{}".to_string()]);
    assert_eq!(decode_error(&body), DecodeError::MissingField { field: Field::Verb });
}

#[test]
fn item_with_two_keys_fails() {
    let two = format!("{{\"index\":{},\"delete\":{}}}", INNER, INNER);
    let body = response(&[two]);
    assert_eq!(decode_error(&body), DecodeError::MissingField { field: Field::Verb });
}

#[test]
fn item_with_three_keys_fails() {
    let three = format!("{{\"index\":{},\"delete\":{},\"bogus\":1}}", INNER, INNER);
    assert_eq!(
        ActionResult::from_json(&json(&three)),
        Err(DecodeError::MissingField { field: Field::Verb })
    );
}

#[test]
fn bad_item_fails_at_every_place() {
    for place in 0..4 {
        let mut items = vec![item("index"), item("create"), item("delete"), item("update")];
        items[place] = "{}".to_string();
        assert_eq!(
            decode_error(&response(&items)),
            DecodeError::MissingField { field: Field::Verb }
        );
        items[place] = format!("{{\"index\":{},\"update\":{}}}", INNER, INNER);
        assert_eq!(
            decode_error(&response(&items)),
            DecodeError::MissingField { field: Field::Verb }
        );
        items[place] = item("upsert");
        assert_eq!(
            decode_error(&response(&items)),
            DecodeError::UnrecognizedVerb { key: "upsert".to_string() }
        );
    }
}

#[test]
fn unknown_verb_fails() {
    let body = response(&[item("index"), item("remove")]);
    assert_eq!(decode_error(&body), DecodeError::UnrecognizedVerb { key: "remove".to_string() });
    assert_eq!(
        ActionResult::from_json(&json(&item("INDEX"))),
        Err(DecodeError::UnrecognizedVerb { key: "INDEX".to_string() })
    );
    assert_eq!(
        ActionResult::from_json(&json(&item(""))),
        Err(DecodeError::UnrecognizedVerb { key: "".to_string() })
    );
}

#[test]
fn verb_is_checked_before_the_report() {
    assert_eq!(
        ActionResult::from_json(&json(r#"{"bogus":{}}"#)),
        Err(DecodeError::UnrecognizedVerb { key: "bogus".to_string() })
    );
    assert_eq!(
        ActionResult::from_json(&json(r#"{"index":{}}"#)),
        Err(DecodeError::MissingField { field: Field::Index })
    );
}

#[test]
fn first_bad_item_decides_the_error() {
    let body = response(&[item("index"), item("bogus"), "{}".to_string()]);
    assert_eq!(decode_error(&body), DecodeError::UnrecognizedVerb { key: "bogus".to_string() });
    let body = response(&["{}".to_string(), item("bogus")]);
    assert_eq!(decode_error(&body), DecodeError::MissingField { field: Field::Verb });
}

#[test]
fn item_that_is_no_object_fails() {
    assert_eq!(
        ActionResult::from_json(&json("[]")),
        Err(DecodeError::InvalidType { field: Field::Item })
    );
    assert_eq!(
        decode_error(&response(&["7".to_string()])),
        DecodeError::InvalidType { field: Field::Item }
    );
    assert_eq!(
        ActionResult::from_json(&json(r#"{"index":"x"}"#)),
        Err(DecodeError::InvalidType { field: Field::Verb })
    );
}

#[test]
fn missing_members_of_the_response() {
    assert_eq!(
        decode_error(r#"{"took":5,"items":[]}"#),
        DecodeError::MissingField { field: Field::Errors }
    );
    assert_eq!(
        decode_error(r#"{"took":5,"errors":false}"#),
        DecodeError::MissingField { field: Field::Items }
    );
    assert_eq!(
        decode_error(r#"{"errors":false,"items":[]}"#),
        DecodeError::MissingField { field: Field::Took }
    );
    assert_eq!(decode_error("{}"), DecodeError::MissingField { field: Field::Errors });
}

#[test]
fn wrong_types_in_the_response() {
    assert_eq!(decode_error("[]"), DecodeError::InvalidType { field: Field::Response });
    assert_eq!(decode_error("null"), DecodeError::InvalidType { field: Field::Response });
    assert_eq!(
        decode_error(r#"{"took":5,"errors":"no","items":[]}"#),
        DecodeError::InvalidType { field: Field::Errors }
    );
    assert_eq!(
        decode_error(r#"{"took":5,"errors":false,"items":{}}"#),
        DecodeError::InvalidType { field: Field::Items }
    );
    assert_eq!(
        decode_error(r#"{"took":"5","errors":false,"items":[]}"#),
        DecodeError::InvalidType { field: Field::Took }
    );
}

#[test]
fn malformed_numbers() {
    assert_eq!(
        decode_error(r#"{"took":-5,"errors":false,"items":[]}"#),
        DecodeError::InvalidType { field: Field::Took }
    );
    assert_eq!(
        decode_error(r#"{"took":5.5,"errors":false,"items":[]}"#),
        DecodeError::InvalidType { field: Field::Took }
    );
    assert_eq!(
        decode_error(r#"{"took":18446744073709551616,"errors":false,"items":[]}"#),
        DecodeError::InvalidType { field: Field::Took }
    );
    let result =
        BulkResult::from_body(r#"{"took":18446744073709551615,"errors":false,"items":[]}"#)
            .unwrap();
    assert_eq!(result.took, u64::MAX);
}

fn inner_without(member: &str) -> Value {
    let mut value = json(INNER);
    value.as_object_mut().unwrap().shift_remove(member).unwrap();
    value
}

fn inner_with(member: &str, replacement: &str) -> Value {
    let mut value = json(INNER);
    value.as_object_mut().unwrap().insert(member.to_string(), json(replacement));
    value
}

#[test]
fn report_is_read() {
    assert_eq!(ActionResultInner::from_json(&json(INNER)), Ok(inner()));
}

#[test]
fn missing_members_of_the_report() {
    let cases = [
        ("_index", Field::Index),
        ("_type", Field::DocType),
        ("_version", Field::Version),
        ("status", Field::Status),
        ("_shards", Field::Shards),
        ("found", Field::Found),
    ];
    for (member, field) in cases {
        assert_eq!(
            ActionResultInner::from_json(&inner_without(member)),
            Err(DecodeError::MissingField { field })
        );
    }
}

#[test]
fn wrong_types_in_the_report() {
    let cases = [
        ("_index", "1", Field::Index),
        ("_type", "null", Field::DocType),
        ("_version", "\"1\"", Field::Version),
        ("status", "-1", Field::Status),
        ("_shards", "3", Field::Shards),
        ("found", "\"true\"", Field::Found),
    ];
    for (member, replacement, field) in cases {
        assert_eq!(
            ActionResultInner::from_json(&inner_with(member, replacement)),
            Err(DecodeError::InvalidType { field })
        );
    }
    assert_eq!(
        ActionResultInner::from_json(&json("[]")),
        Err(DecodeError::InvalidType { field: Field::Verb })
    );
}

#[test]
fn first_missing_member_of_the_report_decides() {
    assert_eq!(
        ActionResultInner::from_json(&json(r#"{"found":true,"status":1}"#)),
        Err(DecodeError::MissingField { field: Field::Index })
    );
    assert_eq!(
        ActionResultInner::from_json(&json(r#"{"_index":"x","_type":"y","status":"bad"}"#)),
        Err(DecodeError::MissingField { field: Field::Version })
    );
}

#[test]
fn shard_counts() {
    assert_eq!(
        ShardCountResult::from_json(&json(r#"{"failed":3,"total":1,"successful":2}"#)),
        Ok(ShardCountResult { total: 1, successful: 2, failed: 3 })
    );
    assert_eq!(
        ShardCountResult::from_json(&json(r#"{"successful":2,"failed":3}"#)),
        Err(DecodeError::MissingField { field: Field::ShardsTotal })
    );
    assert_eq!(
        ShardCountResult::from_json(&json(r#"{"total":1,"failed":3}"#)),
        Err(DecodeError::MissingField { field: Field::ShardsSuccessful })
    );
    assert_eq!(
        ShardCountResult::from_json(&json(r#"{"total":1,"successful":2}"#)),
        Err(DecodeError::MissingField { field: Field::ShardsFailed })
    );
    assert_eq!(
        ShardCountResult::from_json(&json(r#"{"total":1,"successful":2,"failed":true}"#)),
        Err(DecodeError::InvalidType { field: Field::ShardsFailed })
    );
    assert_eq!(
        ShardCountResult::from_json(&json(r#"{"total":"1","successful":2,"failed":0}"#)),
        Err(DecodeError::InvalidType { field: Field::ShardsTotal })
    );
    assert_eq!(
        ShardCountResult::from_json(&json("true")),
        Err(DecodeError::InvalidType { field: Field::Shards })
    );
}

#[test]
fn body_that_is_not_json() {
    assert!(matches!(BulkResult::from_body("{\"took\":"), Err(EsError::JsonError { .. })));
    assert!(matches!(BulkResult::from_body(""), Err(EsError::JsonError { .. })));
    assert!(matches!(BulkResult::from_response(200, "<html>"), Err(EsError::JsonError { .. })));
}

#[test]
fn status_503_is_a_server_error_with_the_raw_body() {
    let body = "{\"error\":\"shards unavailable\"}";
    let error = BulkResult::from_response(503, body).unwrap_err();
    assert_eq!(
        error.details(),
        Some("503 - {\"error\":\"shards unavailable\"}".to_string())
    );
    match error {
        EsError::EsServerError { status, body: raw } => {
            assert_eq!(status, 503);
            assert_eq!(raw, Some(body.to_string()));
        }
        other => panic!("unexpected: {:?}", other),
    }
}

#[test]
fn non_success_is_never_read_as_a_result() {
    let body = response(&[item("index")]);
    for status in [0u16, 100, 199, 300, 301, 400, 404, 429, 500, 503, 65535] {
        match BulkResult::from_response(status, &body) {
            Err(EsError::EsServerError { status: s, body: raw }) => {
                assert_eq!(s, status);
                assert_eq!(raw, Some(body.clone()));
            }
            other => panic!("unexpected: {:?}", other),
        }
    }
}

#[test]
fn success_other_than_200_is_unexpected() {
    let body = response(&[item("index")]);
    for status in [201u16, 202, 204, 299] {
        match BulkResult::from_response(status, &body) {
            Err(EsError::EsError { details }) => {
                assert_eq!(details, format!("Unexpected status: {}", status))
            }
            other => panic!("unexpected: {:?}", other),
        }
    }
}

#[test]
fn server_error_from_a_response() {
    let error = EsError::from_response(502, Some("bad gateway"));
    assert_eq!(error.details(), Some("502 - bad gateway".to_string()));
    assert!(matches!(
        error,
        EsError::EsServerError { status: 502, body: Some(ref raw) } if raw == "bad gateway"
    ));
    let error = EsError::from_response(500, None);
    assert_eq!(error.details(), Some("500 - cannot read response".to_string()));
    assert!(matches!(error, EsError::EsServerError { status: 500, body: None }));
}

#[test]
fn details_of_the_other_errors() {
    let internal = EsError::EsError { details: "x".to_string() };
    assert_eq!(internal.details(), Some("x".to_string()));
    let decoding = BulkResult::from_body("{}").unwrap_err();
    assert_eq!(decoding.details(), None);
    let reading = BulkResult::from_body("{").unwrap_err();
    assert_eq!(reading.details(), None);
}
