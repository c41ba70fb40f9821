use es_bulk::action::{Action, ActionSource, ActionType};
use es_bulk::error::EsError;
use es_bulk::request::BulkOperation;
use es_bulk::units::{Duration, DurationUnit};
use serde_json::Value;

fn json(text: &str) -> Value {
    serde_json::from_str(text).unwrap()
}

fn body_of(actions: &[Action]) -> String {
    BulkOperation::new(actions).format_actions().unwrap()
}

fn command_of(action: &Action) -> String {
    action.command().unwrap()
}

fn keys_of(object: &Value) -> Vec<String> {
    object.as_object().unwrap().keys().cloned().collect()
}

#[test]
fn index_with_id_then_delete() {
    let document = json(r#"{"name":"A","n":1}"#);
    let actions = vec![Action::index(document).with_id("1"), Action::delete("2")];
    assert_eq!(
        body_of(&actions),
        "{\"index\":{\"_id\":\"1\"}}\n{\"name\":\"A\",\"n\":1}\n{\"delete\":{\"_id\":\"2\"}}\n"
    );
}

#[test]
fn empty_batch_has_empty_body() {
    let actions: Vec<Action> = Vec::new();
    assert_eq!(body_of(&actions), "");
}

#[test]
fn index_without_metadata_has_empty_envelope() {
    let action = Action::index(json("{}"));
    assert_eq!(command_of(&action), "{\"index\":{}}");
    assert_eq!(action.payload().unwrap(), Some("{}".to_string()));
}

#[test]
fn create_is_written_under_its_verb() {
    let actions = vec![Action::create(json(r#"{"a":[1,2,3]}"#)).with_id("7")];
    assert_eq!(body_of(&actions), "{\"create\":{\"_id\":\"7\"}}\n{\"a\":[1,2,3]}\n");
}

#[test]
fn all_metadata_in_wire_order() {
    let action = Action::index(json("1"))
        .with_retry_on_conflict(3)
        .with_ttl(Duration::new(5, DurationUnit::Minute))
        .with_timestamp("2016-01-01")
        .with_parent("p")
        .with_routing("r")
        .with_version(42)
        .with_id("i")
        .with_doc_type("t")
        .with_index("x");
    assert_eq!(
        command_of(&action),
        "{\"index\":{\"_index\":\"x\",\"_type\":\"t\",\"_id\":\"i\",\"_version\":42,\
         \"_routing\":\"r\",\"_parent\":\"p\",\"_timestamp\":\"2016-01-01\",\"_ttl\":\"5m\",\
         \"_retry_on_conflict\":3}}"
    );
}

#[test]
fn unset_metadata_never_appears_as_a_key() {
    let action = Action::delete("9").with_index("logs").with_version(0);
    let command = json(&command_of(&action));
    let envelope = &command["delete"];
    assert_eq!(keys_of(envelope), vec!["_index", "_id", "_version"]);
    assert_eq!(envelope["_index"], Value::from("logs"));
    assert_eq!(envelope["_id"], Value::from("9"));
    assert_eq!(envelope["_version"], Value::from(0u64));
    assert!(envelope.get("_type").is_none());
    assert!(envelope.get("_routing").is_none());
    assert!(envelope.get("_parent").is_none());
    assert!(envelope.get("_timestamp").is_none());
    assert!(envelope.get("_ttl").is_none());
    assert!(envelope.get("_retry_on_conflict").is_none());
    assert!(!command_of(&action).contains("null"));
}

#[test]
fn setting_a_field_twice_keeps_the_last_value() {
    let action = Action::delete("1").with_id("2");
    assert_eq!(command_of(&action), "{\"delete\":{\"_id\":\"2\"}}");
}

#[test]
fn command_line_has_one_key_which_is_the_verb() {
    let source = ActionSource::new().with_script("ctx._source.n += 1");
    let actions = vec![
        (Action::index(json("{}")), "index"),
        (Action::create(json("{}")), "create"),
        (Action::delete("1"), "delete"),
        (Action::update("1", source).unwrap(), "update"),
    ];
    for (action, verb) in actions.iter() {
        let command = json(&command_of(action));
        assert_eq!(keys_of(&command), vec![verb.to_string()]);
        assert!(command[*verb].is_object());
        assert_eq!(action.action_type().to_string(), *verb);
    }
}

#[test]
fn strings_are_escaped_as_json() {
    let action = Action::delete("a\"b\\c\nd");
    assert_eq!(command_of(&action), "{\"delete\":{\"_id\":\"a\\\"b\\\\c\\nd\"}}");
    let command = json(&command_of(&action));
    assert_eq!(command["delete"]["_id"], Value::from("a\"b\\c\nd"));
}

#[test]
fn delete_has_no_payload_line() {
    let action = Action::delete("2");
    assert_eq!(action.payload().unwrap(), None);
    let mut text = String::new();
    action.add(&mut text).unwrap();
    assert_eq!(text, "{\"delete\":{\"_id\":\"2\"}}\n");
    assert_eq!(text.lines().count(), 1);
}

#[test]
fn index_and_create_have_one_payload_line_after_the_command() {
    let document = r#"{"title":"x","tags":["a","b"],"nested":{"k":null}}"#;
    for action in [Action::index(json(document)), Action::create(json(document))] {
        let mut text = String::from("before\n");
        action.add(&mut text).unwrap();
        let lines: Vec<&str> = text.lines().collect();
        assert_eq!(lines.len(), 3);
        assert_eq!(lines[0], "before");
        assert_eq!(lines[1], command_of(&action));
        assert_eq!(lines[2], document);
        assert!(text.ends_with('\n'));
    }
}

#[test]
fn payload_is_written_on_one_line() {
    let document = json("{\n  \"text\": \"line one\\nline two\",\n  \"n\": [ 1, 2 ]\n}");
    let actions = vec![Action::index(document)];
    assert_eq!(
        body_of(&actions),
        "{\"index\":{}}\n{\"text\":\"line one\\nline two\",\"n\":[1,2]}\n"
    );
}

#[test]
fn line_count_is_actions_plus_payloads() {
    let all_delete = vec![Action::delete("1"), Action::delete("2"), Action::delete("3")];
    assert_eq!(body_of(&all_delete).lines().count(), 3);

    let all_payload = vec![
        Action::index(json("{}")),
        Action::create(json("{}")),
        Action::index(json("[]")),
    ];
    assert_eq!(body_of(&all_payload).lines().count(), 6);

    let mixed = vec![
        Action::index(json("{\"a\":1}")),
        Action::delete("1"),
        Action::create(json("{\"b\":2}")),
        Action::delete("2"),
        Action::delete("3"),
    ];
    let body = body_of(&mixed);
    assert_eq!(body.lines().count(), 5 + 2);
    assert_eq!(body.matches('\n').count(), 7);
    let commands: Vec<&str> = body.lines().filter(|l| {
        l.starts_with("{\"index\":") || l.starts_with("{\"create\":") || l.starts_with("{\"delete\":")
    }).collect();
    assert_eq!(commands.len(), 5);
}

#[test]
fn body_is_the_actions_in_order() {
    let first = Action::delete("1");
    let second = Action::index(json("true")).with_id("2");
    let mut expected = String::new();
    first.add(&mut expected).unwrap();
    second.add(&mut expected).unwrap();
    let actions = vec![first, second];
    assert_eq!(body_of(&actions), expected);
}

#[test]
fn encoding_twice_gives_the_same_bytes() {
    let actions = vec![
        Action::index(json(r#"{"z":1,"a":2,"m":{"y":0,"b":1}}"#)).with_index("x").with_id("1"),
        Action::delete("2").with_routing("r"),
    ];
    let operation = BulkOperation::new(&actions)
        .with_index("i")
        .with_refresh("true")
        .with_consistency("one");
    let first = operation.request().unwrap();
    let second = operation.request().unwrap();
    assert_eq!(first.body.as_bytes(), second.body.as_bytes());
    assert_eq!(first.url.as_bytes(), second.url.as_bytes());
    assert_eq!(first, second);
    assert_eq!(
        first.body,
        "{\"index\":{\"_index\":\"x\",\"_id\":\"1\"}}\n{\"z\":1,\"a\":2,\"m\":{\"y\":0,\"b\":1}}\n\
         {\"delete\":{\"_id\":\"2\",\"_routing\":\"r\"}}\n"
    );
}

#[test]
fn update_with_a_partial_document() {
    let source = ActionSource::new().with_doc(json(r#"{"n":2}"#)).with_doc_as_upsert(true);
    let action = Action::update("5", source).unwrap().with_retry_on_conflict(2);
    let mut text = String::new();
    action.add(&mut text).unwrap();
    assert_eq!(
        text,
        "{\"update\":{\"_id\":\"5\",\"_retry_on_conflict\":2}}\n\
         {\"doc\":{\"n\":2},\"doc_as_upsert\":true}\n"
    );
}

#[test]
fn update_with_a_script() {
    let source = ActionSource::new()
        .with_script("ctx._source.n += p")
        .with_params(json(r#"{"p":1}"#))
        .with_lang("painless");
    let action = Action::update("5", source).unwrap();
    assert_eq!(
        action.payload().unwrap(),
        Some("{\"lang\":\"painless\",\"params\":{\"p\":1},\"script\":\"ctx._source.n += p\"}".to_string())
    );
}

#[test]
fn update_with_an_upsert() {
    let source = ActionSource::new().with_upsert(json(r#"{"n":0}"#)).with_doc_as_upsert(false);
    let action = Action::update("5", source).unwrap();
    assert_eq!(
        action.payload().unwrap(),
        Some("{\"doc_as_upsert\":false,\"upsert\":{\"n\":0}}".to_string())
    );
    assert_eq!(action.action_type(), ActionType::Update);
    assert!(action.source().unwrap().is_unambiguous());
    assert_eq!(action.document(), None);
}

#[test]
fn update_without_a_choice_is_refused() {
    let source = ActionSource::new().with_lang("painless").with_doc_as_upsert(true);
    assert!(!source.is_unambiguous());
    match Action::update("5", source) {
        Err(EsError::EsError { details }) => {
            assert_eq!(details, "an update takes exactly one of doc, upsert and script")
        }
        other => panic!("unexpected: {:?}", other),
    }
    assert!(matches!(Action::update("5", ActionSource::new()), Err(EsError::EsError { .. })));
}

#[test]
fn update_with_two_choices_is_refused() {
    let source = ActionSource::new().with_doc(json("{}")).with_script("x");
    assert!(matches!(Action::update("5", source), Err(EsError::EsError { .. })));
    let source = ActionSource::new().with_doc(json("{}")).with_upsert(json("{}"));
    assert!(matches!(Action::update("5", source), Err(EsError::EsError { .. })));
    let source = ActionSource::new()
        .with_doc(json("{}"))
        .with_upsert(json("{}"))
        .with_script("x");
    assert!(matches!(Action::update("5", source), Err(EsError::EsError { .. })));
}

#[test]
fn source_object_holds_only_what_was_set() {
    assert_eq!(ActionSource::new().to_json().unwrap(), "{}");
    assert_eq!(ActionSource::default(), ActionSource::new());
    let source = ActionSource::new().with_script("s");
    assert_eq!(source.to_json().unwrap(), "{\"script\":\"s\"}");
}

#[test]
fn action_types_by_name() {
    assert_eq!(ActionType::Index.to_string(), "index");
    assert_eq!(ActionType::Create.to_string(), "create");
    assert_eq!(ActionType::Delete.to_string(), "delete");
    assert_eq!(ActionType::Update.to_string(), "update");
    assert_eq!(ActionType::parse("index"), Some(ActionType::Index));
    assert_eq!(ActionType::parse("create"), Some(ActionType::Create));
    assert_eq!(ActionType::parse("delete"), Some(ActionType::Delete));
    assert_eq!(ActionType::parse("update"), Some(ActionType::Update));
    assert_eq!(ActionType::parse("Index"), None);
    assert_eq!(ActionType::parse(""), None);
    assert_eq!(ActionType::parse("indexes"), None);
    assert_eq!(ActionType::from(&"delete".to_string()), ActionType::Delete);
    assert_eq!(ActionType::from(&"update".to_string()), ActionType::Update);
    assert_eq!(ActionType::from(&"index".to_string()), ActionType::Index);
    assert_eq!(ActionType::from(&"create".to_string()), ActionType::Create);
}

#[test]
fn url_without_defaults() {
    let actions: Vec<Action> = Vec::new();
    assert_eq!(BulkOperation::new(&actions).format_url(), "/_bulk");
}

#[test]
fn url_with_index_and_type() {
    let actions: Vec<Action> = Vec::new();
    let operation = BulkOperation::new(&actions).with_index("logs");
    assert_eq!(operation.format_url(), "/logs/_bulk");
    let operation = operation.with_doc_type("event");
    assert_eq!(operation.format_url(), "/logs/event/_bulk");
    let operation = BulkOperation::new(&actions).with_doc_type("event");
    assert_eq!(operation.format_url(), "/event/_bulk");
}

#[test]
fn url_with_options_in_the_order_given() {
    let actions: Vec<Action> = Vec::new();
    let operation = BulkOperation::new(&actions)
        .with_index("logs")
        .with_consistency("quorum")
        .with_refresh("true");
    assert_eq!(operation.format_url(), "/logs/_bulk?consistency=quorum&refresh=true");
    let operation = BulkOperation::new(&actions).with_refresh("false").with_consistency("all");
    assert_eq!(operation.format_url(), "/_bulk?refresh=false&consistency=all");
}

#[test]
fn request_holds_url_and_body() {
    let actions = vec![Action::delete("1")];
    let request = BulkOperation::new(&actions).with_index("x").with_doc_type("y").request().unwrap();
    assert_eq!(request.url, "/x/y/_bulk");
    assert_eq!(request.body, "{\"delete\":{\"_id\":\"1\"}}\n");
}
