use stock_scanner::config::{config_from_vars, ConfigError, ConfigVars, Setting};

fn vars(tickers: Option<&str>, model: Option<&str>) -> ConfigVars {
    ConfigVars {
        tickers: tickers.map(|s| s.to_string()),
        ollama_url: None,
        ollama_model: model.map(|s| s.to_string()),
        ema_fast: None,
        ema_slow: None,
        atr_max_pct: None,
        deploy_score_min: None,
        watch_score_min: None,
        output_dir: None,
        scan_interval_secs: None,
    }
}

#[test]
fn defaults_apply_when_unset() {
    let cfg = config_from_vars(&vars(Some("BBCA.JK"), Some("llama3"))).unwrap();
    assert_eq!(cfg.tickers, vec!["BBCA.JK".to_string()]);
    assert_eq!(cfg.ollama_url, "http://localhost:11434/api/chat");
    assert_eq!(cfg.ollama_model, "llama3");
    assert_eq!(cfg.ema_fast, 50);
    assert_eq!(cfg.ema_slow, 200);
    assert_eq!(cfg.atr_max_pct_text, "3.0");
    assert_eq!(cfg.deploy_score_min, 80);
    assert_eq!(cfg.watch_score_min, 65);
    assert_eq!(cfg.output_dir, "results");
    assert_eq!(cfg.scan_interval_secs, 60);
}

#[test]
fn set_values_override_defaults() {
    let mut v = vars(Some("A"), Some("m"));
    v.ollama_url = Some("http://host/api".to_string());
    v.ema_fast = Some("12".to_string());
    v.ema_slow = Some("+26".to_string());
    v.atr_max_pct = Some("2.5".to_string());
    v.deploy_score_min = Some("90".to_string());
    v.watch_score_min = Some("0070".to_string());
    v.output_dir = Some("out".to_string());
    v.scan_interval_secs = Some("18446744073709551615".to_string());
    let cfg = config_from_vars(&v).unwrap();
    assert_eq!(cfg.ollama_url, "http://host/api");
    assert_eq!(cfg.ema_fast, 12);
    assert_eq!(cfg.ema_slow, 26);
    assert_eq!(cfg.atr_max_pct_text, "2.5");
    assert_eq!(cfg.deploy_score_min, 90);
    assert_eq!(cfg.watch_score_min, 70);
    assert_eq!(cfg.output_dir, "out");
    assert_eq!(cfg.scan_interval_secs, u64::MAX);
}

#[test]
fn tickers_are_split_on_commas_and_trimmed() {
    let cfg = config_from_vars(&vars(Some(" TLKM.JK, BBCA.JK ,\tASII.JK,"), Some("m"))).unwrap();
    assert_eq!(
        cfg.tickers,
        vec!["TLKM.JK".to_string(), "BBCA.JK".to_string(), "ASII.JK".to_string(), String::new()]
    );
    let empty = config_from_vars(&vars(Some(""), Some("m"))).unwrap();
    assert_eq!(empty.tickers, vec![String::new()]);
}

#[test]
fn missing_required_settings_are_errors() {
    assert_eq!(
        config_from_vars(&vars(None, Some("m"))).unwrap_err(),
        ConfigError::Missing(Setting::Tickers)
    );
    assert_eq!(
        config_from_vars(&vars(Some("A"), None)).unwrap_err(),
        ConfigError::Missing(Setting::OllamaModel)
    );
    assert_eq!(
        config_from_vars(&vars(None, None)).unwrap_err(),
        ConfigError::Missing(Setting::Tickers)
    );
}

#[test]
fn invalid_numbers_are_errors_in_reading_order() {
    let mut v = vars(Some("A"), Some("m"));
    v.deploy_score_min = Some("256".to_string());
    assert_eq!(config_from_vars(&v).unwrap_err(), ConfigError::Invalid(Setting::DeployScoreMin));
    v.ema_slow = Some("-1".to_string());
    assert_eq!(config_from_vars(&v).unwrap_err(), ConfigError::Invalid(Setting::EmaSlow));
    v.ema_fast = Some(" 5".to_string());
    assert_eq!(config_from_vars(&v).unwrap_err(), ConfigError::Invalid(Setting::EmaFast));

    let mut w = vars(Some("A"), Some("m"));
    w.watch_score_min = Some("".to_string());
    assert_eq!(config_from_vars(&w).unwrap_err(), ConfigError::Invalid(Setting::WatchScoreMin));
    let mut x = vars(Some("A"), Some("m"));
    x.scan_interval_secs = Some("18446744073709551616".to_string());
    assert_eq!(config_from_vars(&x).unwrap_err(), ConfigError::Invalid(Setting::ScanIntervalSecs));
}

#[test]
fn the_ceiling_text_is_not_read_as_a_number() {
    let mut v = vars(Some("A"), Some("m"));
    v.atr_max_pct = Some("not a number".to_string());
    assert_eq!(config_from_vars(&v).unwrap().atr_max_pct_text, "not a number");
}

#[test]
fn setting_names_are_the_variables() {
    let all = [
        (Setting::Tickers, "TICKERS"),
        (Setting::OllamaUrl, "OLLAMA_URL"),
        (Setting::OllamaModel, "OLLAMA_MODEL"),
        (Setting::EmaFast, "EMA_FAST"),
        (Setting::EmaSlow, "EMA_SLOW"),
        (Setting::AtrMaxPct, "ATR_MAX_PCT"),
        (Setting::DeployScoreMin, "DEPLOY_SCORE_MIN"),
        (Setting::WatchScoreMin, "WATCH_SCORE_MIN"),
        (Setting::OutputDir, "OUTPUT_DIR"),
        (Setting::ScanIntervalSecs, "SCAN_INTERVAL_SECS"),
    ];
    for (s, name) in all {
        assert_eq!(s.name(), name);
    }
}
