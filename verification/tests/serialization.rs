use pagerduty::{Context, Requestable, TriggerEvent, UpdateEvent};

fn parse(s: &str) -> serde_json::Value {
    serde_json::from_str(s).expect("expected is valid json")
}

#[test]
fn context_to_json() {
    let expected = parse(r#"{"type":"image","src":"https://www.example.com"}"#);

    let context = Context::image("https://www.example.com", None, None);
    let json_string = context.to_json();
    let actual: serde_json::Value = serde_json::from_str(&json_string).unwrap();

    assert_eq!(actual, expected);
}

#[test]
fn trigger_event_to_json() {
    let expected = parse(
        r#"{
        "event_type": "trigger",
        "service_key": "the service key",
        "description": "Houston, we have a problem"
    }"#,
    );

    let event = TriggerEvent::new("the service key", "Houston, we have a problem");
    let json_string = event.to_json();
    let actual: serde_json::Value = serde_json::from_str(&json_string).unwrap();

    assert_eq!(actual, expected);
}

#[test]
fn trigger_event_with_contexts_to_json() {
    let expected = parse(
        r#"{
        "event_type": "trigger",
        "service_key": "the service key",
        "description": "Houston, we have a problem",
        "contexts": [
            {
                "type": "image",
                "src": "https://www.example.com"
            },
            {
                "type": "link",
                "href": "https://www.example.com",
                "text": "a link"
            }
        ],
        "details": {
            "last_delivery_time": 10
        },
        "incident_key": "KEY123"
    }"#,
    );

    let event = TriggerEvent::new("the service key", "Houston, we have a problem")
        .set_incident_key("KEY123")
        .set_details(r#"{"last_delivery_time":10}"#)
        .expect("details are valid json")
        .add_context(Context::image("https://www.example.com", None, None))
        .add_context(Context::link("https://www.example.com", "a link"));

    let json_string = event.to_json();
    let actual: serde_json::Value = serde_json::from_str(&json_string).unwrap();

    assert_eq!(actual, expected);
}

#[test]
fn trigger_event_minimal_exact_text() {
    let event = TriggerEvent::new("the service key", "Houston, we have a problem");
    assert_eq!(
        event.to_json(),
        r#"{"service_key":"the service key","event_type":"trigger","description":"Houston, we have a problem"}"#
    );
}

#[test]
fn unset_optional_fields_are_omitted() {
    let event = TriggerEvent::new("k", "d");
    let actual = parse(&event.to_json());
    let obj = actual.as_object().unwrap();
    assert_eq!(obj.len(), 3);
    assert!(obj.contains_key("service_key"));
    assert!(obj.contains_key("event_type"));
    assert!(obj.contains_key("description"));
    assert!(!obj.contains_key("incident_key"));
    assert!(!obj.contains_key("client"));
    assert!(!obj.contains_key("client_url"));
    assert!(!obj.contains_key("details"));
    assert!(!obj.contains_key("contexts"));

    let resolve = UpdateEvent::resolve("k", "i");
    let actual = parse(&resolve.to_json());
    let obj = actual.as_object().unwrap();
    assert_eq!(obj.len(), 3);
    assert!(obj.contains_key("service_key"));
    assert!(obj.contains_key("event_type"));
    assert!(obj.contains_key("incident_key"));
    assert!(!obj.contains_key("description"));
    assert!(!obj.contains_key("details"));
}

#[test]
fn set_optional_fields_are_present() {
    let event = TriggerEvent::new("k", "d")
        .set_incident_key("i")
        .set_client("c")
        .set_client_url("https://c.example.com")
        .set_details(r#"{"a":1}"#)
        .expect("details are valid json");
    let actual = parse(&event.to_json());
    assert_eq!(actual["service_key"], parse(r#""k""#));
    assert_eq!(actual["event_type"], parse(r#""trigger""#));
    assert_eq!(actual["description"], parse(r#""d""#));
    assert_eq!(actual["incident_key"], parse(r#""i""#));
    assert_eq!(actual["client"], parse(r#""c""#));
    assert_eq!(actual["client_url"], parse(r#""https://c.example.com""#));
    assert_eq!(actual["details"], parse(r#"{"a":1}"#));
}

#[test]
fn image_context_never_contains_text() {
    let bare = parse(&Context::image("s", None, None).to_json());
    let obj = bare.as_object().unwrap();
    assert_eq!(obj.len(), 2);
    assert!(!obj.contains_key("text"));
    assert!(!obj.contains_key("href"));
    assert!(!obj.contains_key("alt"));

    let full = parse(&Context::image("s", Some("h"), Some("a")).to_json());
    let obj = full.as_object().unwrap();
    assert_eq!(obj.len(), 4);
    assert_eq!(obj["src"], parse(r#""s""#));
    assert_eq!(obj["href"], parse(r#""h""#));
    assert_eq!(obj["alt"], parse(r#""a""#));
    assert!(!obj.contains_key("text"));
}

#[test]
fn link_context_never_contains_src_or_alt() {
    let link = parse(&Context::link("https://www.example.com", "a link").to_json());
    let obj = link.as_object().unwrap();
    assert_eq!(obj.len(), 3);
    assert_eq!(obj["type"], parse(r#""link""#));
    assert_eq!(obj["href"], parse(r#""https://www.example.com""#));
    assert_eq!(obj["text"], parse(r#""a link""#));
    assert!(!obj.contains_key("src"));
    assert!(!obj.contains_key("alt"));
}

#[test]
fn attachment_order_and_details_are_preserved() {
    let event = TriggerEvent::new("k", "d")
        .add_context(Context::image("https://img.example.com", None, None))
        .add_context(Context::link("https://www.example.com", "a link"))
        .set_details(r#"{"last_delivery_time":10,"nested":{"x":[1,2,3]}}"#)
        .expect("details are valid json");
    let actual = parse(&event.to_json());
    let contexts = actual["contexts"].as_array().unwrap();
    assert_eq!(contexts.len(), 2);
    assert_eq!(contexts[0]["type"], parse(r#""image""#));
    assert_eq!(contexts[1]["type"], parse(r#""link""#));
    assert_eq!(
        actual["details"],
        parse(r#"{"last_delivery_time":10,"nested":{"x":[1,2,3]}}"#)
    );
}

#[test]
fn update_event_serialization() {
    let resolve = UpdateEvent::resolve("the service key", "KEY123")
        .set_description("fixed")
        .set_details(r#"{"fixed_by":"me"}"#)
        .expect("details are valid json");
    let actual = parse(&resolve.to_json());
    assert_eq!(actual["event_type"], parse(r#""resolve""#));
    assert_eq!(actual["service_key"], parse(r#""the service key""#));
    assert_eq!(actual["incident_key"], parse(r#""KEY123""#));
    assert_eq!(actual["description"], parse(r#""fixed""#));
    assert_eq!(actual["details"], parse(r#"{"fixed_by":"me"}"#));

    let ack = UpdateEvent::acknowledge("the service key", "KEY123");
    let actual = parse(&ack.to_json());
    assert_eq!(actual["event_type"], parse(r#""acknowledge""#));
    assert_eq!(
        ack.to_json(),
        r#"{"service_key":"the service key","event_type":"acknowledge","incident_key":"KEY123"}"#
    );
}

#[test]
fn string_escaping_round_trips() {
    let tricky = "a \"quoted\" string with \\ backslash,\nnewline, tab\t and \u{1} control";
    let event = TriggerEvent::new("k", tricky);
    let actual = parse(&event.to_json());
    assert_eq!(actual["description"].as_str().unwrap(), tricky);

    let ctx = Context::link("https://example.com/?q=\"x\"", "text\r\nwith breaks");
    let parsed = parse(&ctx.to_json());
    assert_eq!(parsed["href"].as_str().unwrap(), "https://example.com/?q=\"x\"");
    assert_eq!(parsed["text"].as_str().unwrap(), "text\r\nwith breaks");
}

#[test]
fn requestable_contract_surface() {
    let event = TriggerEvent::new("k", "d");
    assert_eq!(
        event.url(),
        "https://events.pagerduty.com/generic/2010-04-15/create_event.json"
    );
    assert_eq!(event.body(), event.to_json());
    assert!(event.headers().is_empty());

    let resolve = UpdateEvent::resolve("k", "i");
    assert_eq!(resolve.body(), resolve.to_json());
}

#[test]
fn details_must_encode_one_json_value() {
    assert!(TriggerEvent::new("k", "d").set_details("not json").is_none());
    assert!(TriggerEvent::new("k", "d")
        .set_details(r#"1,"incident_key":"X""#)
        .is_none());
    assert!(TriggerEvent::new("k", "d").set_details(r#"{"a":"#).is_none());
    // A bare scalar is a JSON value; the remote schema check is not this
    // library's concern.
    assert!(TriggerEvent::new("k", "d").set_details("10").is_some());
    assert!(UpdateEvent::resolve("k", "i").set_details("not json").is_none());
    assert!(UpdateEvent::resolve("k", "i").set_details(r#"{"a":1}"#).is_some());
}
