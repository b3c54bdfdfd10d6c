use std::collections::HashMap;
use wit_owo::entities::{DynamicEntity, EntityValue};
use wit_owo::message::MessageQuery;

#[test]
fn with_tag_sets_tag() {
    let mq = MessageQuery::new("test".into()).with_tag("tagged".into());
    assert_eq!(mq.tag.as_deref(), Some("tagged"));
}

#[test]
fn with_limit_sets_n() {
    let mq = MessageQuery::new("test".into()).with_limit(5);
    assert_eq!(mq.n, Some(5));
}

#[test]
fn from_string_and_str() {
    let mq1: MessageQuery = "foo".into();
    let mq2 = MessageQuery::new("foo".into());
    assert_eq!(mq1.q, mq2.q);

    let s = "bar".to_string();
    let mq3: MessageQuery = s.clone().into();
    assert_eq!(mq3.q, "bar");
}

#[test]
fn to_url_only_query() {
    let mq = MessageQuery::new("hello world".into());
    let url = mq.to_url().unwrap();
    assert!(url.path().ends_with("/message"));
    let pairs: HashMap<_, _> = url.query_pairs().into_owned().collect();
    assert_eq!(pairs.get("q"), Some(&"hello world".to_string()));
    assert!(!pairs.contains_key("tag"));
    assert!(!pairs.contains_key("n"));
    assert!(!pairs.contains_key("entities"));
}

#[test]
fn to_url_with_tag_and_limit() {
    let mq = MessageQuery::new("hello".into())
        .with_tag("greeting".into())
        .with_limit(2);
    let url = mq.to_url().unwrap();
    let pairs: HashMap<_, _> = url.query_pairs().into_owned().collect();
    assert_eq!(pairs.get("q"), Some(&"hello".to_string()));
    assert_eq!(pairs.get("tag"), Some(&"greeting".to_string()));
    assert_eq!(pairs.get("n"), Some(&"2".to_string()));
}

#[test]
fn to_params_orders_parameters() {
    let mq = MessageQuery::new("hi".into())
        .with_tag("t".into())
        .with_limit(3);
    let params = mq.to_params();
    assert_eq!(params.len(), 3);
    assert_eq!(params[0], ("q".to_string(), "hi".to_string()));
    assert_eq!(params[1], ("tag".to_string(), "t".to_string()));
    assert_eq!(params[2], ("n".to_string(), "3".to_string()));
}

#[test]
fn dynamic_entity_builds_values() {
    let mut entity = DynamicEntity::new("color".to_string());
    entity.add_value(EntityValue {
        keyword: "purple".to_string(),
        synonyms: vec!["violet".to_string(), "magenta".to_string()],
    });
    assert_eq!(entity.name, "color");
    assert_eq!(entity.values.len(), 1);
    assert_eq!(entity.values[0].keyword, "purple");
    assert_eq!(entity.values[0].synonyms, vec!["violet", "magenta"]);
}

#[test]
fn entities_render_as_json() {
    let mut color = DynamicEntity::new("color".to_string());
    color.add_value(EntityValue {
        keyword: "purple".to_string(),
        synonyms: vec!["violet".to_string(), "magenta".to_string()],
    });
    let rendered = wit_owo::entities::dynamic_entities_json(&vec![color]);
    assert_eq!(
        rendered,
        r#"{"color":{"values":[{"keyword":"purple","synonyms":["violet","magenta"]}]}}"#
    );
    // The rendering is valid JSON.
    let parsed: serde_json::Value = serde_json::from_str(&rendered).unwrap();
    assert_eq!(
        parsed["color"]["values"][0]["keyword"],
        serde_json::Value::String("purple".to_string())
    );
}

#[test]
fn entities_json_last_name_wins() {
    let mut first = DynamicEntity::new("color".to_string());
    first.add_value(EntityValue { keyword: "red".to_string(), synonyms: vec![] });
    let mut second = DynamicEntity::new("color".to_string());
    second.add_value(EntityValue { keyword: "blue".to_string(), synonyms: vec![] });
    let rendered = wit_owo::entities::dynamic_entities_json(&vec![first, second]);
    assert_eq!(rendered, r#"{"color":{"values":[{"keyword":"blue","synonyms":[]}]}}"#);
}

#[test]
fn entities_json_escapes_strings() {
    let mut e = DynamicEntity::new("say".to_string());
    e.add_value(EntityValue { keyword: "a\"b\\c\n".to_string(), synonyms: vec![] });
    let rendered = wit_owo::entities::dynamic_entities_json(&vec![e]);
    assert_eq!(rendered, "{\"say\":{\"values\":[{\"keyword\":\"a\\\"b\\\\c\\n\",\"synonyms\":[]}]}}");
    assert!(serde_json::from_str::<serde_json::Value>(&rendered).is_ok());
}

#[test]
fn to_url_with_entities_encodes_them() {
    let mut color = DynamicEntity::new("color".to_string());
    color.add_value(EntityValue { keyword: "purple".to_string(), synonyms: vec![] });
    let mq = MessageQuery::new("hello".into()).with_dynamic_entities(vec![color]);
    let url = mq.to_url().unwrap();
    let pairs: HashMap<_, _> = url.query_pairs().into_owned().collect();
    // The parameter value is the percent-encoded JSON; decoding the query
    // once gives the encoded text back.
    let entities = pairs.get("entities").unwrap();
    assert!(entities.contains("purple"));
}
