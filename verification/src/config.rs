//! The scanner's settings, read from the values of its environment variables.

use vstd::prelude::*;
use crate::numbers::{parse_unsigned, parsed_unsigned};
use crate::text::{split_trimmed, split_on, trimmed};

verus! {

/// The environment variables that configure the scanner.
#[derive(Clone, Copy, Debug, PartialEq, Eq, Structural)]
pub enum Setting {
    Tickers,
    OllamaUrl,
    OllamaModel,
    EmaFast,
    EmaSlow,
    AtrMaxPct,
    DeployScoreMin,
    WatchScoreMin,
    OutputDir,
    ScanIntervalSecs,
}

/// The name of a setting's environment variable.
pub open spec fn setting_name(s: Setting) -> Seq<char> {
    match s {
        Setting::Tickers => "TICKERS"@,
        Setting::OllamaUrl => "OLLAMA_URL"@,
        Setting::OllamaModel => "OLLAMA_MODEL"@,
        Setting::EmaFast => "EMA_FAST"@,
        Setting::EmaSlow => "EMA_SLOW"@,
        Setting::AtrMaxPct => "ATR_MAX_PCT"@,
        Setting::DeployScoreMin => "DEPLOY_SCORE_MIN"@,
        Setting::WatchScoreMin => "WATCH_SCORE_MIN"@,
        Setting::OutputDir => "OUTPUT_DIR"@,
        Setting::ScanIntervalSecs => "SCAN_INTERVAL_SECS"@,
    }
}

impl Setting {
    /// The name of this setting's environment variable.
    pub fn name(&self) -> (r: &'static str)
        ensures
            r@ == setting_name(*self),
    {
        match self {
            Setting::Tickers => "TICKERS",
            Setting::OllamaUrl => "OLLAMA_URL",
            Setting::OllamaModel => "OLLAMA_MODEL",
            Setting::EmaFast => "EMA_FAST",
            Setting::EmaSlow => "EMA_SLOW",
            Setting::AtrMaxPct => "ATR_MAX_PCT",
            Setting::DeployScoreMin => "DEPLOY_SCORE_MIN",
            Setting::WatchScoreMin => "WATCH_SCORE_MIN",
            Setting::OutputDir => "OUTPUT_DIR",
            Setting::ScanIntervalSecs => "SCAN_INTERVAL_SECS",
        }
    }
}

/// Why the settings could not be read.
#[derive(Clone, Copy, Debug, PartialEq, Eq, Structural)]
pub enum ConfigError {
    /// A setting without a default was not set.
    Missing(Setting),
    /// A numeric setting did not hold a number of its type.
    Invalid(Setting),
}

/// The raw value of each environment variable, where it is set.
#[derive(Clone, Debug)]
pub struct ConfigVars {
    pub tickers: Option<String>,
    pub ollama_url: Option<String>,
    pub ollama_model: Option<String>,
    pub ema_fast: Option<String>,
    pub ema_slow: Option<String>,
    pub atr_max_pct: Option<String>,
    pub deploy_score_min: Option<String>,
    pub watch_score_min: Option<String>,
    pub output_dir: Option<String>,
    pub scan_interval_secs: Option<String>,
}

/// The scanner's settings. The ATR ceiling is a fraction; it is kept as the
/// text it was given in, and read as a number where the risk gate applies it.
#[derive(Clone, Debug)]
pub struct Config {
    pub tickers: Vec<String>,
    pub ollama_url: String,
    pub ollama_model: String,
    pub ema_fast: usize,
    pub ema_slow: usize,
    pub atr_max_pct_text: String,
    pub deploy_score_min: u8,
    pub watch_score_min: u8,
    pub output_dir: String,
    pub scan_interval_secs: u64,
}

/// The chat endpoint used when `OLLAMA_URL` is not set.
pub open spec fn default_ollama_url() -> Seq<char> {
    "http://localhost:11434/api/chat"@
}

/// The ATR ceiling text used when `ATR_MAX_PCT` is not set.
pub open spec fn default_atr_max_pct() -> Seq<char> {
    "3.0"@
}

/// The output directory used when `OUTPUT_DIR` is not set.
pub open spec fn default_output_dir() -> Seq<char> {
    "results"@
}

/// A text setting: its value where set, else the default.
pub open spec fn text_setting(v: Option<String>, default: Seq<char>) -> Seq<char> {
    match v {
        Some(t) => t@,
        None => default,
    }
}

/// A numeric setting: its value read as an unsigned number no larger than
/// `max` where set (nothing where that fails), else the default.
pub open spec fn number_setting(v: Option<String>, default: nat, max: nat) -> Option<nat> {
    match v {
        Some(t) => parsed_unsigned(t@, max),
        None => Some(default),
    }
}

/// The fast EMA length: `EMA_FAST`, 50 by default, a `usize`.
pub open spec fn ema_fast_setting(v: ConfigVars) -> Option<nat> {
    number_setting(v.ema_fast, 50, usize::MAX as nat)
}

/// The slow EMA length: `EMA_SLOW`, 200 by default, a `usize`.
pub open spec fn ema_slow_setting(v: ConfigVars) -> Option<nat> {
    number_setting(v.ema_slow, 200, usize::MAX as nat)
}

/// The deploy threshold: `DEPLOY_SCORE_MIN`, 80 by default, a `u8`.
pub open spec fn deploy_setting(v: ConfigVars) -> Option<nat> {
    number_setting(v.deploy_score_min, 80, u8::MAX as nat)
}

/// The watch threshold: `WATCH_SCORE_MIN`, 65 by default, a `u8`.
pub open spec fn watch_setting(v: ConfigVars) -> Option<nat> {
    number_setting(v.watch_score_min, 65, u8::MAX as nat)
}

/// The pause between scans in seconds: `SCAN_INTERVAL_SECS`, 60 by
/// default, a `u64`.
pub open spec fn interval_setting(v: ConfigVars) -> Option<nat> {
    number_setting(v.scan_interval_secs, 60, u64::MAX as nat)
}

/// The first setting, in reading order, that cannot be read, if any.
pub open spec fn first_config_error(v: ConfigVars) -> Option<ConfigError> {
    if v.tickers is None {
        Some(ConfigError::Missing(Setting::Tickers))
    } else if v.ollama_model is None {
        Some(ConfigError::Missing(Setting::OllamaModel))
    } else if ema_fast_setting(v) is None {
        Some(ConfigError::Invalid(Setting::EmaFast))
    } else if ema_slow_setting(v) is None {
        Some(ConfigError::Invalid(Setting::EmaSlow))
    } else if deploy_setting(v) is None {
        Some(ConfigError::Invalid(Setting::DeployScoreMin))
    } else if watch_setting(v) is None {
        Some(ConfigError::Invalid(Setting::WatchScoreMin))
    } else if interval_setting(v) is None {
        Some(ConfigError::Invalid(Setting::ScanIntervalSecs))
    } else {
        None
    }
}

/// Each numeric setting that is not set takes its documented default: 50
/// and 200 for the EMA lengths, 80 and 65 for the thresholds, 60 seconds
/// between scans; one that is set takes the number its text denotes, and
/// no default.
pub proof fn lemma_setting_defaults(v: ConfigVars)
    ensures
        v.ema_fast is None ==> ema_fast_setting(v) == Some(50nat),
        v.ema_slow is None ==> ema_slow_setting(v) == Some(200nat),
        v.deploy_score_min is None ==> deploy_setting(v) == Some(80nat),
        v.watch_score_min is None ==> watch_setting(v) == Some(65nat),
        v.scan_interval_secs is None ==> interval_setting(v) == Some(60nat),
        v.ema_fast matches Some(t) ==> ema_fast_setting(v) == parsed_unsigned(t@, usize::MAX as nat),
        v.ema_slow matches Some(t) ==> ema_slow_setting(v) == parsed_unsigned(t@, usize::MAX as nat),
        v.deploy_score_min matches Some(t) ==> deploy_setting(v) == parsed_unsigned(t@, 255),
        v.watch_score_min matches Some(t) ==> watch_setting(v) == parsed_unsigned(t@, 255),
        v.scan_interval_secs matches Some(t) ==> interval_setting(v) == parsed_unsigned(t@, u64::MAX as nat),
        v.ollama_url is None ==> text_setting(v.ollama_url, default_ollama_url()) == "http://localhost:11434/api/chat"@,
        v.atr_max_pct is None ==> text_setting(v.atr_max_pct, default_atr_max_pct()) == "3.0"@,
        v.output_dir is None ==> text_setting(v.output_dir, default_output_dir()) == "results"@,
{
}

/// The tickers of a `TICKERS` value: the comma-separated pieces, each
/// trimmed of white space.
pub open spec fn tickers_of(t: Seq<char>) -> Seq<Seq<char>> {
    split_on(t, ',').map_values(|p: Seq<char>| trimmed(p))
}

/// Whether `c` holds what the variables `v` say, each setting by its rule.
pub open spec fn config_matches(c: Config, v: ConfigVars) -> bool {
    &&& v.tickers matches Some(t) && c.tickers@.map_values(|s: String| s@) == tickers_of(t@)
    &&& c.ollama_url@ == text_setting(v.ollama_url, default_ollama_url())
    &&& v.ollama_model matches Some(m) && c.ollama_model@ == m@
    &&& ema_fast_setting(v) == Some(c.ema_fast as nat)
    &&& ema_slow_setting(v) == Some(c.ema_slow as nat)
    &&& c.atr_max_pct_text@ == text_setting(v.atr_max_pct, default_atr_max_pct())
    &&& deploy_setting(v) == Some(c.deploy_score_min as nat)
    &&& watch_setting(v) == Some(c.watch_score_min as nat)
    &&& c.output_dir@ == text_setting(v.output_dir, default_output_dir())
    &&& interval_setting(v) == Some(c.scan_interval_secs as nat)
}

fn text_or(v: &Option<String>, default: &str) -> (r: String)
    ensures
        r@ == match v {
            Some(t) => t@,
            None => default@,
        },
{
    match v {
        Some(t) => t.clone(),
        None => default.to_string(),
    }
}

fn number_or(v: &Option<String>, default: u64, max: u64) -> (r: Option<u64>)
    requires
        default <= max,
    ensures
        r matches Some(n) ==> number_setting(*v, default as nat, max as nat) == Some(n as nat),
        r is None ==> number_setting(*v, default as nat, max as nat) is None,
        r matches Some(n) ==> n <= max,
{
    match v {
        Some(t) => parse_unsigned(t.as_str(), max),
        None => Some(default),
    }
}

/// Reads the settings from the values of their environment variables.
/// `TICKERS` and `OLLAMA_MODEL` must be set; every other setting falls
/// back to its default where it is not set. The first setting, in the
/// order of `first_config_error`, that is missing or not a number of its
/// type is the error.
pub fn config_from_vars(v: &ConfigVars) -> (r: Result<Config, ConfigError>)
    ensures
        r is Ok <==> first_config_error(*v) is None,
        r matches Err(e) ==> first_config_error(*v) == Some(e),
        r matches Ok(c) ==> config_matches(c, *v),
{
    let tickers_text = match &v.tickers {
        Some(t) => t,
        None => return Err(ConfigError::Missing(Setting::Tickers)),
    };
    let tickers = split_trimmed(tickers_text.as_str(), ',');
    let ollama_url = text_or(&v.ollama_url, "http://localhost:11434/api/chat");
    let ollama_model = match &v.ollama_model {
        Some(m) => m.clone(),
        None => return Err(ConfigError::Missing(Setting::OllamaModel)),
    };
    let ema_fast = match number_or(&v.ema_fast, 50, usize::MAX as u64) {
        Some(n) => n as usize,
        None => return Err(ConfigError::Invalid(Setting::EmaFast)),
    };
    let ema_slow = match number_or(&v.ema_slow, 200, usize::MAX as u64) {
        Some(n) => n as usize,
        None => return Err(ConfigError::Invalid(Setting::EmaSlow)),
    };
    let atr_max_pct_text = text_or(&v.atr_max_pct, "3.0");
    let deploy_score_min = match number_or(&v.deploy_score_min, 80, 255) {
        Some(n) => n as u8,
        None => return Err(ConfigError::Invalid(Setting::DeployScoreMin)),
    };
    let watch_score_min = match number_or(&v.watch_score_min, 65, 255) {
        Some(n) => n as u8,
        None => return Err(ConfigError::Invalid(Setting::WatchScoreMin)),
    };
    let output_dir = text_or(&v.output_dir, "results");
    let scan_interval_secs = match number_or(&v.scan_interval_secs, 60, u64::MAX) {
        Some(n) => n,
        None => return Err(ConfigError::Invalid(Setting::ScanIntervalSecs)),
    };
    assert(tickers@.map_values(|s: String| s@) =~= tickers_of(tickers_text@));
    Ok(Config {
        tickers,
        ollama_url,
        ollama_model,
        ema_fast,
        ema_slow,
        atr_max_pct_text,
        deploy_score_min,
        watch_score_min,
        output_dir,
        scan_interval_secs,
    })
}

} // verus!
