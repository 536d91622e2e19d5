use stock_scanner::json::{read_json, JsonError};
use stock_scanner::llm::{parse_reply, reply_content, reply_explanation, ReplyError};
use stock_scanner::market::{check_chart, MarketError};

#[test]
fn reply_object_is_read() {
    let v = parse_reply("Here you go: {\"score\": 7.5, \"explanation\": \"steady\"} thanks").unwrap();
    assert_eq!(v["score"].as_f64(), Some(7.5));
    assert_eq!(v["explanation"].as_str(), Some("steady"));
}

#[test]
fn reply_without_braces() {
    assert_eq!(parse_reply("score: 8").unwrap_err(), ReplyError::NoJson);
    assert_eq!(parse_reply("{ open only").unwrap_err(), ReplyError::NoJson);
    assert_eq!(ReplyError::NoJson.message(), "No JSON");
}

#[test]
fn reply_with_broken_object() {
    let expected = serde_json::from_str::<serde_json::Value>("{score: 8}").unwrap_err().to_string();
    assert_eq!(parse_reply("{score: 8}").unwrap_err(), ReplyError::Malformed(expected));
    let err = parse_reply("}{").unwrap_err();
    let expected = serde_json::from_str::<serde_json::Value>("").unwrap_err().to_string();
    assert_eq!(err, ReplyError::Malformed(expected.clone()));
    assert_eq!(err.message(), expected);
}

#[test]
fn json_documents() {
    assert_eq!(read_json(" [1, 2] ").unwrap()[1].as_u64(), Some(2));
    let JsonError::Malformed(m) = read_json("{\"a\": 1} x").unwrap_err();
    assert_eq!(m, serde_json::from_str::<serde_json::Value>("{\"a\": 1} x").unwrap_err().to_string());
    assert!(!m.is_empty());
    let expected = serde_json::from_str::<serde_json::Value>("").unwrap_err().to_string();
    assert_eq!(read_json("").unwrap_err(), JsonError::Malformed(expected));
}

#[test]
fn documents_are_what_the_text_says() {
    let text = "{\"x\": {\"y\": [1, 2]}}";
    let v = read_json(text).unwrap();
    assert_eq!(v, serde_json::from_str::<serde_json::Value>(text).unwrap());
    assert_eq!(v["x"]["y"][1].as_u64(), Some(2));
    let r = parse_reply("ok {\"score\": 90} bye").unwrap();
    assert_eq!(r["score"].as_u64(), Some(90));
}

#[test]
fn message_content_of_a_chat_response() {
    let resp = read_json("{\"message\": {\"role\": \"assistant\", \"content\": \"{}\"}}").unwrap();
    assert_eq!(reply_content(&resp).unwrap(), "{}");
    let none = read_json("{\"message\": {\"content\": 3}}").unwrap();
    assert_eq!(reply_content(&none).unwrap_err(), ReplyError::NoContent);
    assert_eq!(ReplyError::NoContent.message(), "No LLM content");
    let missing = read_json("{}").unwrap();
    assert_eq!(reply_content(&missing).unwrap_err(), ReplyError::NoContent);
}

#[test]
fn explanation_of_a_reply() {
    let d = read_json("{\"score\": 5, \"explanation\": \"flat\"}").unwrap();
    assert_eq!(reply_explanation(&d), "flat");
    let n = read_json("{\"score\": 5, \"explanation\": 7}").unwrap();
    assert_eq!(reply_explanation(&n), "No explanation");
    let m = read_json("{\"score\": 5}").unwrap();
    assert_eq!(reply_explanation(&m), "No explanation");
}

fn chart_with(series: &str) -> serde_json::Value {
    let text = format!("{{\"chart\": {{\"result\": [{{\"indicators\": {{\"quote\": [{}]}}}}]}}}}", series);
    read_json(&text).unwrap()
}

fn numbers(n: usize) -> String {
    (0..n).map(|i| format!("{}.5", i)).collect::<Vec<_>>().join(", ")
}

#[test]
fn chart_series_checks() {
    assert_eq!(check_chart(&chart_with("{}")), Err(MarketError::NoClosePrices));
    assert_eq!(check_chart(&chart_with("{\"close\": 4}")), Err(MarketError::NoClosePrices));
    let full = format!("{{\"close\": [{}]}}", numbers(200));
    assert_eq!(check_chart(&chart_with(&full)), Ok(()));
    let short = format!("{{\"close\": [{}]}}", numbers(199));
    assert_eq!(check_chart(&chart_with(&short)), Err(MarketError::NotEnoughData));
    let gaps = format!("{{\"close\": [{}, null, \"x\"]}}", numbers(199));
    assert_eq!(check_chart(&chart_with(&gaps)), Err(MarketError::NotEnoughData));
    let mixed = format!("{{\"close\": [null, {}, 7]}}", numbers(199));
    assert_eq!(check_chart(&chart_with(&mixed)), Ok(()));
    let keyed = read_json(&format!(
        "{{\"chart\": {{\"result\": {{\"0\": {{\"indicators\": {{\"quote\": [{{\"close\": [{}]}}]}}}}}}}}}}",
        numbers(250)
    ))
    .unwrap();
    assert_eq!(check_chart(&keyed), Err(MarketError::NoClosePrices));
}
