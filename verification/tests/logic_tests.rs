use stock_scanner::config::Config;
use stock_scanner::logic::{classify, decide_action, decision, Decision};
use stock_scanner::standalone;

fn cfg(deploy: u8, watch: u8) -> Config {
    Config {
        tickers: vec!["A".to_string()],
        ollama_url: String::new(),
        ollama_model: String::new(),
        ema_fast: 50,
        ema_slow: 200,
        atr_max_pct_text: "3.0".to_string(),
        deploy_score_min: deploy,
        watch_score_min: watch,
        output_dir: "results".to_string(),
        scan_interval_secs: 60,
    }
}

#[test]
fn classify_uses_configured_thresholds() {
    let c = cfg(80, 65);
    assert_eq!(classify(80, &c), "DEPLOY");
    assert_eq!(classify(255, &c), "DEPLOY");
    assert_eq!(classify(79, &c), "WATCH");
    assert_eq!(classify(65, &c), "WATCH");
    assert_eq!(classify(64, &c), "REJECT");
    assert_eq!(classify(0, &c), "REJECT");
}

#[test]
fn classify_with_inverted_thresholds() {
    let c = cfg(50, 70);
    assert_eq!(classify(60, &c), "DEPLOY");
    assert_eq!(classify(49, &c), "REJECT");
    assert_eq!(decision(60, &c), Decision::Deploy);
}

#[test]
fn risk_gate_caps_at_watch() {
    let c = cfg(80, 65);
    assert_eq!(decide_action(true, 90, &c), "DEPLOY");
    assert_eq!(decide_action(false, 90, &c), "WATCH");
    assert_eq!(decide_action(false, 65, &c), "WATCH");
    assert_eq!(decide_action(false, 64, &c), "REJECT");
    assert_eq!(decide_action(true, 70, &c), "WATCH");
    assert_eq!(decide_action(true, 10, &c), "REJECT");
}

#[test]
fn decisions_never_worsen_as_score_rises() {
    let c = cfg(80, 65);
    let rank = |v: Decision| match v {
        Decision::Reject => 0,
        Decision::Watch => 1,
        Decision::Deploy => 2,
    };
    let mut prev = 0;
    for s in 0..=255u8 {
        let r = rank(decision(s, &c));
        assert!(r >= prev);
        prev = r;
        assert_ne!(decide_action(false, s, &c), "DEPLOY");
    }
}

#[test]
fn labels() {
    assert_eq!(Decision::Deploy.label(), "DEPLOY");
    assert_eq!(Decision::Watch.label(), "WATCH");
    assert_eq!(Decision::Reject.label(), "REJECT");
}

#[test]
fn fixed_thresholds() {
    assert_eq!(standalone::classify(100), "DEPLOY");
    assert_eq!(standalone::classify(80), "DEPLOY");
    assert_eq!(standalone::classify(79), "WATCH");
    assert_eq!(standalone::classify(65), "WATCH");
    assert_eq!(standalone::classify(64), "REJECT");
    assert_eq!(standalone::classify(101), "REJECT");
    assert_eq!(standalone::classify(255), "REJECT");
}

#[test]
fn fixed_thresholds_agree_with_defaults_up_to_100() {
    let c = cfg(80, 65);
    for s in 0..=100u8 {
        assert_eq!(standalone::classify(s), classify(s, &c));
    }
    assert_eq!(classify(150, &c), "DEPLOY");
    assert_eq!(standalone::classify(150), "REJECT");
}

#[test]
fn single_shot_report() {
    let r = standalone::report_for("TLKM.JK", true, 85, "strong trend".to_string());
    assert_eq!(r, ("TLKM.JK".to_string(), "DEPLOY".to_string(), 85, "strong trend".to_string()));
    let g = standalone::report_for("TLKM.JK", false, 85, "strong trend".to_string());
    assert_eq!(g, ("TLKM.JK".to_string(), "REJECT".to_string(), 85, "Risk gate failed".to_string()));
}
