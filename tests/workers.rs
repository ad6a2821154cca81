use divvun_api::config::{Config, TomlConfig};
use divvun_api::error::ApiError;
use divvun_api::kind::DataFileType;
use divvun_api::preferences::parse_preferences;
use divvun_api::registry::Registry;
use divvun_api::worker::{
    check_text, grammar_request_line, hyphenation_result, parse_hyphenation_output, select_worker,
    RestartAction, Supervision,
};

const CHECKER_OUTPUT: &str = "Available modes:\n\
  default\n\
==== Toggles: ====\n\
==== Toggles: ====\n\
- [ ] typo                     Čállinmeattáhusat\n\
- [x] [regex]                  Regular expression\n\
- [ ] space                    Sátnegaskameattáhusat\n\
- [ ] typo                     Typo again\n\
\n\
- [ ] after                    Not a toggle any more\n";

#[test]
fn preferences_are_read_after_the_second_separator() {
    let prefs = parse_preferences(CHECKER_OUTPUT);
    assert_eq!(prefs.len(), 2);
    assert_eq!(prefs.get("typo").map(|s| s.as_str()), Some("Typo again"));
    assert_eq!(prefs.get("space").map(|s| s.as_str()), Some("Sátnegaskameattáhusat"));
    assert!(!prefs.contains("[regex]"));
    assert!(!prefs.contains("after"));
}

#[test]
fn preferences_need_both_separators() {
    let once = "==== Toggles: ====\n- [ ] typo   Typo\n";
    assert_eq!(parse_preferences(once).len(), 0);
    assert_eq!(parse_preferences("").len(), 0);
    assert_eq!(parse_preferences("- [ ] typo   Typo\n").len(), 0);
}

#[test]
fn preference_tags_stop_at_white_space() {
    let out = "==== Toggles: ====\n==== Toggles: ====\n- [x] msyn-compound\tWrong compound\n";
    let prefs = parse_preferences(out);
    assert_eq!(prefs.get("msyn-compound").map(|s| s.as_str()), Some("Wrong compound"));
}

#[test]
fn grammar_request_is_the_first_line() {
    assert_eq!(grammar_request_line("sup  ney").unwrap(), "sup  ney\n");
    assert_eq!(grammar_request_line("first\nsecond\n").unwrap(), "first\n");
    assert_eq!(grammar_request_line("\nsecond").unwrap(), "\n");
}

#[test]
fn empty_text_is_bad_input() {
    let e = grammar_request_line("").err().unwrap();
    assert_eq!(e.message, "Invalid input: the text is empty");
    assert!(check_text("").is_err());
    assert!(check_text("pákhat").is_ok());
}

#[test]
fn hyphenation_output_gives_analysis_and_weight() {
    let out = "ođasmahttinministtar\to^đas^maht^tin#mi^nist^tar\t60.000000\n\
ođasmahttinministtar\to^đas^mah^t^tin#mi^nist^tar\t70.000000\n\n";
    let patterns = parse_hyphenation_output(out).ok().unwrap();
    assert_eq!(patterns.len(), 2);
    assert_eq!(patterns[0].value, "o^đas^maht^tin#mi^nist^tar");
    assert_eq!(patterns[0].weight, "60.000000");
    assert_eq!(patterns[0].weight.parse::<f64>().unwrap(), 60.0);
    assert_eq!(patterns[1].value, "o^đas^mah^t^tin#mi^nist^tar");
}

#[test]
fn hyphenation_output_with_too_few_columns_is_a_protocol_error() {
    let e = parse_hyphenation_output("word\tw^ord\n").err().unwrap();
    assert_eq!(e.message, "hfst-lookup returned an unexpected number of tokens per word");
}

#[test]
fn empty_hyphenation_output_has_no_patterns() {
    assert_eq!(parse_hyphenation_output("  \n").ok().unwrap().len(), 0);
}

#[test]
fn hyphenation_result_names_the_word() {
    let r = hyphenation_result("sátni", "sátni\tsát^ni\t10\n").ok().unwrap();
    assert_eq!(r.word, "sátni");
    assert_eq!(r.patterns.len(), 1);
    assert_eq!(r.patterns[0].value, "sát^ni");
    assert_eq!(r.patterns[0].weight, "10");
}

#[test]
fn missing_language_is_not_found() {
    let mut spellers: Registry<u32> = Registry::new();
    spellers.insert("se".to_string(), 7);
    let e = select_worker(&spellers, DataFileType::Spelling, "xx").err().unwrap();
    assert_eq!(e.message, "No speller available for language xx");
    assert_eq!(*select_worker(&spellers, DataFileType::Spelling, "se").ok().unwrap(), 7);
    let g: Registry<u32> = Registry::new();
    let e = select_worker(&g, DataFileType::Grammar, "se").err().unwrap();
    assert_eq!(e.message, "No grammar checker available for language se");
}

#[test]
fn delivery_errors_name_the_language() {
    let e = ApiError::delivery("se", "Mailbox has closed");
    assert_eq!(
        e.message,
        "Something failed in the message delivery process for language se: Mailbox has closed"
    );
}

#[test]
fn stopped_workers_stay_down() {
    let mut s = Supervision::new();
    assert_eq!(s.on_failure(), RestartAction::Respawn);
    s.stop();
    assert_eq!(s.on_failure(), RestartAction::StayDown);
    s.stop();
    assert_eq!(s.on_failure(), RestartAction::StayDown);
}

#[test]
fn config_defaults() {
    let toml = TomlConfig { addr: "0.0.0.0:8000".to_string(), data_file_dir: None, watcher_interval_ms: None };
    let c = Config::from_toml(toml, "/home/u/.local/share/api-giellalt".to_string());
    assert_eq!(c.addr, "0.0.0.0:8000");
    assert_eq!(c.data_file_dir, "/home/u/.local/share/api-giellalt");
    assert_eq!(c.watcher_interval_ms, 1000);
    let toml = TomlConfig {
        addr: "a:1".to_string(),
        data_file_dir: Some("/srv/data".to_string()),
        watcher_interval_ms: Some(250),
    };
    let c = Config::from_toml(toml, "/unused".to_string());
    assert_eq!(c.data_file_dir, "/srv/data");
    assert_eq!(c.watcher_interval_ms, 250);
}
