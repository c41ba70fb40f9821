use es_bulk::action::{Action, ActionOptions, ActionSource};
use serde_json::Value;

fn json(text: &str) -> Value {
    serde_json::from_str(text).unwrap()
}

#[test]
fn envelope_of_default_options_is_empty() {
    assert_eq!(ActionOptions::default().envelope().unwrap(), "{}");
}

#[test]
fn envelope_through_the_action() {
    let action = Action::delete("7").with_parent("3");
    assert_eq!(action.options().envelope().unwrap(), "{\"_id\":\"7\",\"_parent\":\"3\"}");
    assert_eq!(action.document(), None);
    assert!(action.source().is_none());
    let document = json("{\"a\":1}");
    let action = Action::create(document.clone());
    assert_eq!(action.document(), Some(&document));
}

#[test]
fn members_of_each_kind() {
    let source = ActionSource::new()
        .with_doc(json("[1, {\"k\": null}]"))
        .with_doc_as_upsert(false)
        .with_lang("a b")
        .with_params(json("18446744073709551615"))
        .with_script("")
        .with_upsert(json("\"s\""));
    assert_eq!(
        source.to_json().unwrap(),
        "{\"doc\":[1,{\"k\":null}],\"doc_as_upsert\":false,\"lang\":\"a b\",\
         \"params\":18446744073709551615,\"script\":\"\",\"upsert\":\"s\"}"
    );
    let action = Action::delete("1").with_version(18446744073709551615).with_retry_on_conflict(0);
    assert_eq!(
        action.options().envelope().unwrap(),
        "{\"_id\":\"1\",\"_version\":18446744073709551615,\"_retry_on_conflict\":0}"
    );
}

#[test]
fn text_members_are_escaped() {
    let text = "tab\there \u{1} \"q\" \u{e9}";
    let written = Action::delete(text).options().envelope().unwrap();
    assert_eq!(written, "{\"_id\":\"tab\\there \\u0001 \\\"q\\\" \u{e9}\"}");
    assert_eq!(json(&written)["_id"], Value::from(text));
}
