use stock_scanner::llm::{explanation_or_default, extract_json_object, json_bounds};
use stock_scanner::market::{chart_url, check_closes, MarketError, MIN_CLOSES};
use stock_scanner::report::{format_row, scan_file_path};

#[test]
fn rows_match_the_format_string() {
    let r = format_row("BBCA.JK", "DEPLOY", 85, "uptrend");
    assert_eq!(r, format!("{:<8} | {:<6} | {:>3} | {}", "BBCA.JK", "DEPLOY", 85u8, "uptrend"));
    assert_eq!(r, "BBCA.JK  | DEPLOY |  85 | uptrend");
    let long = format_row("VERYLONGTICKER", "REJECT", 7, "");
    assert_eq!(long, "VERYLONGTICKER | REJECT |   7 | ");
    let wide = format_row("é", "WATCH", 100, "ok");
    assert_eq!(wide, format!("{:<8} | {:<6} | {:>3} | {}", "é", "WATCH", 100u8, "ok"));
}

#[test]
fn scan_file_path_joins_dir_and_stamp() {
    assert_eq!(scan_file_path("results", "20240101_093000"), "results/scan_20240101_093000.jsonl");
}

#[test]
fn chart_url_for_ticker() {
    assert_eq!(
        chart_url("TLKM.JK"),
        "https://query1.finance.yahoo.com/v8/finance/chart/TLKM.JK?interval=1d&range=1y"
    );
}

#[test]
fn close_series_checks() {
    assert_eq!(check_closes(false, 500), Err(MarketError::NoClosePrices));
    assert_eq!(check_closes(true, 199), Err(MarketError::NotEnoughData));
    assert_eq!(check_closes(true, MIN_CLOSES), Ok(()));
    assert_eq!(MarketError::NotEnoughData.message(), "Not enough price data");
    assert_eq!(MarketError::NoClosePrices.message(), "No close prices");
}

#[test]
fn json_object_is_cut_from_first_open_to_last_close() {
    let reply = "Sure! {\"score\": 8, \"explanation\": \"{nested}\"} done";
    assert_eq!(json_bounds(reply), Some((6, 44)));
    assert_eq!(
        extract_json_object(reply).unwrap(),
        "{\"score\": 8, \"explanation\": \"{nested}\"}"
    );
    assert_eq!(extract_json_object("no braces"), None);
    assert_eq!(extract_json_object("only { open"), None);
    assert_eq!(json_bounds("} then {"), Some((7, 0)));
    assert_eq!(extract_json_object("}{").unwrap(), "");
    let accented = "é{x}";
    assert_eq!(json_bounds(accented), Some((1, 3)));
    assert_eq!(extract_json_object(accented).unwrap(), "{x}");
}

#[test]
fn explanation_defaults() {
    assert_eq!(explanation_or_default(Some("why".to_string())), "why");
    assert_eq!(explanation_or_default(None), "No explanation");
}
