use openai_rs::completion::CompletionBody;
use openai_rs::completion::Tenths;

fn parsed(wire: &str) -> serde_json::Value {
    serde_json::from_str::<serde_json::Value>(wire).expect("wire form must be valid JSON")
}

#[test]
fn test_completion_body_builder() {
    let body = CompletionBody::builder("text-davinci-003".to_string())
        .prompt(vec!["Hello, my name is".to_string()])
        .max_tokens(10)
        .temperature(Tenths::new(5))
        .top_p(Tenths::new(10))
        .n(1)
        .stream(false)
        .presence_penalty(Tenths::new(0))
        .frequency_penalty(Tenths::new(0))
        .build();

    let mut expected = serde_json::Map::new();
    expected.insert(
        "model".to_string(),
        serde_json::Value::String("text-davinci-003".to_string()),
    );
    expected.insert(
        "prompt".to_string(),
        serde_json::Value::Array(vec![serde_json::Value::String(
            "Hello, my name is".to_string(),
        )]),
    );
    expected.insert(
        "max_tokens".to_string(),
        serde_json::Value::Number(serde_json::Number::from(10u64)),
    );
    expected.insert(
        "temperature".to_string(),
        serde_json::Value::Number(serde_json::Number::from_f64(0.5).unwrap()),
    );
    expected.insert(
        "top_p".to_string(),
        serde_json::Value::Number(serde_json::Number::from_f64(1.0).unwrap()),
    );
    expected.insert(
        "n".to_string(),
        serde_json::Value::Number(serde_json::Number::from(1u64)),
    );
    expected.insert("stream".to_string(), serde_json::Value::Bool(false));
    expected.insert(
        "presence_penalty".to_string(),
        serde_json::Value::Number(serde_json::Number::from_f64(0.0).unwrap()),
    );
    expected.insert(
        "frequency_penalty".to_string(),
        serde_json::Value::Number(serde_json::Number::from_f64(0.0).unwrap()),
    );

    assert_eq!(parsed(&body.wire_form()), serde_json::Value::Object(expected));
}

#[test]
fn test_completion_body_builder_default() {
    let body = CompletionBody::builder("text-davinci-003".to_string()).build();
    assert_eq!(body.wire_form(), "{\"model\":\"text-davinci-003\"}");
}

#[test]
fn model_only_wire_is_exact() {
    let body = CompletionBody::builder("X".to_string()).build();
    assert_eq!(body.wire_form(), "{\"model\":\"X\"}");
}

#[test]
fn unset_fields_never_appear() {
    let wire = CompletionBody::new().wire_form();
    assert_eq!(wire, "{\"model\":\"davinci\"}");
    assert!(!wire.contains("stream"));
    assert!(!wire.contains("temperature"));
    assert!(!wire.contains("prompt"));
}

#[test]
fn falsy_values_still_appear() {
    let wire = CompletionBody::new().stream(false).wire_form();
    assert!(wire.contains("\"stream\":false"));
    let v = parsed(&wire);
    assert_eq!(v.get("stream"), Some(&serde_json::Value::Bool(false)));
}

#[test]
fn last_setter_call_wins() {
    let wire = CompletionBody::new()
        .temperature(Tenths::new(5))
        .temperature(Tenths::new(7))
        .wire_form();
    let v = parsed(&wire);
    assert_eq!(
        v.get("temperature"),
        Some(&serde_json::Value::Number(
            serde_json::Number::from_f64(0.7).unwrap()
        ))
    );
    let wire2 = CompletionBody::new()
        .model("first".to_string())
        .model("second".to_string())
        .wire_form();
    let v2 = parsed(&wire2);
    assert_eq!(
        v2.get("model"),
        Some(&serde_json::Value::String("second".to_string()))
    );
}

#[test]
fn fluent_setters_cover_every_field() {
    let wire = CompletionBody::new()
        .model("m".to_string())
        .prompt(vec!["a".to_string(), "b".to_string()])
        .suffix("s".to_string())
        .max_tokens(65535)
        .temperature(Tenths::new(-15))
        .top_p(Tenths::new(10))
        .n(2)
        .stream(true)
        .logprobs(3)
        .echo(false)
        .stop(vec!["\n".to_string()])
        .presence_penalty(Tenths::new(20))
        .frequency_penalty(Tenths::new(-20))
        .best_of(4)
        .logit_bias(vec![(50256, -100), (11, 5)])
        .user("u".to_string())
        .wire_form();
    let v = parsed(&wire);
    assert_eq!(v.get("model"), Some(&serde_json::Value::String("m".to_string())));
    assert_eq!(
        v.get("prompt"),
        Some(&serde_json::Value::Array(vec![
            serde_json::Value::String("a".to_string()),
            serde_json::Value::String("b".to_string()),
        ]))
    );
    assert_eq!(v.get("suffix"), Some(&serde_json::Value::String("s".to_string())));
    assert_eq!(
        v.get("max_tokens"),
        Some(&serde_json::Value::Number(serde_json::Number::from(65535u64)))
    );
    assert_eq!(
        v.get("temperature"),
        Some(&serde_json::Value::Number(
            serde_json::Number::from_f64(-1.5).unwrap()
        ))
    );
    assert_eq!(
        v.get("top_p"),
        Some(&serde_json::Value::Number(
            serde_json::Number::from_f64(1.0).unwrap()
        ))
    );
    assert_eq!(
        v.get("n"),
        Some(&serde_json::Value::Number(serde_json::Number::from(2u64)))
    );
    assert_eq!(v.get("stream"), Some(&serde_json::Value::Bool(true)));
    assert_eq!(
        v.get("logprobs"),
        Some(&serde_json::Value::Number(serde_json::Number::from(3u64)))
    );
    assert_eq!(v.get("echo"), Some(&serde_json::Value::Bool(false)));
    assert_eq!(
        v.get("stop"),
        Some(&serde_json::Value::Array(vec![serde_json::Value::String(
            "\n".to_string()
        )]))
    );
    assert_eq!(
        v.get("presence_penalty"),
        Some(&serde_json::Value::Number(
            serde_json::Number::from_f64(2.0).unwrap()
        ))
    );
    assert_eq!(
        v.get("frequency_penalty"),
        Some(&serde_json::Value::Number(
            serde_json::Number::from_f64(-2.0).unwrap()
        ))
    );
    assert_eq!(
        v.get("best_of"),
        Some(&serde_json::Value::Number(serde_json::Number::from(4u64)))
    );
    let mut bias = serde_json::Map::new();
    bias.insert(
        "50256".to_string(),
        serde_json::Value::Number(serde_json::Number::from(-100i64)),
    );
    bias.insert(
        "11".to_string(),
        serde_json::Value::Number(serde_json::Number::from(5i64)),
    );
    assert_eq!(v.get("logit_bias"), Some(&serde_json::Value::Object(bias)));
    assert_eq!(v.get("user"), Some(&serde_json::Value::String("u".to_string())));
}

#[test]
fn wire_form_escapes_strings() {
    let tricky = "a\"b\\c\nd\te\rf\u{1}g";
    let wire = CompletionBody::new().model(tricky.to_string()).wire_form();
    let v = parsed(&wire);
    assert_eq!(v.get("model"), Some(&serde_json::Value::String(tricky.to_string())));
}
