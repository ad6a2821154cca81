use divvun_api::kind::DataFileType;
use divvun_api::preferences::parse_preferences;
use divvun_api::registry::Registry;
use divvun_api::scanner::{model_files, DirEntry};
use divvun_api::catalog::{Catalog, Loaded};
use divvun_api::watcher::{collapse_events, plan_event, WatchEvent, WatchPlan};

fn prefs() -> Registry<String> {
    parse_preferences("==== Toggles: ====\n==== Toggles: ====\n- [ ] typo   Typo\n")
}

#[test]
fn registry_insert_get_remove() {
    let mut r: Registry<u32> = Registry::new();
    assert_eq!(r.insert("se".to_string(), 1), None);
    assert_eq!(r.insert("smj".to_string(), 2), None);
    assert_eq!(r.get("se"), Some(&1));
    assert_eq!(r.len(), 2);
    assert_eq!(r.insert("se".to_string(), 3), Some(1));
    assert_eq!(r.get("se"), Some(&3));
    assert_eq!(r.len(), 2);
    assert_eq!(r.remove("se"), Some(3));
    assert_eq!(r.remove("se"), None);
    assert_eq!(r.get("se"), None);
    let keys = r.keys();
    assert_eq!(keys, vec!["smj".to_string()]);
}

#[test]
fn removal_then_add_binds_the_new_worker() {
    let mut r: Registry<u32> = Registry::new();
    r.insert("se".to_string(), 10);
    let old = r.remove("se");
    assert_eq!(old, Some(10));
    assert_eq!(r.insert("se".to_string(), 11), None);
    assert_eq!(r.get("se"), Some(&11));
}

#[test]
fn language_keys_are_case_sensitive() {
    let mut r: Registry<u32> = Registry::new();
    r.insert("se".to_string(), 1);
    assert!(r.get("SE").is_none());
}

#[test]
fn plans_follow_the_event_and_extension() {
    match plan_event(&WatchEvent::Create("/d/grammar/se.zcheck".to_string())) {
        WatchPlan::Install { kind, language, path, replace } => {
            assert_eq!(kind, DataFileType::Grammar);
            assert_eq!(language, "se");
            assert_eq!(path, "/d/grammar/se.zcheck");
            assert!(!replace);
        }
        _ => panic!("expected an install"),
    }
    match plan_event(&WatchEvent::Write("/d/spelling/smj.zhfst".to_string())) {
        WatchPlan::Install { kind, language, replace, .. } => {
            assert_eq!(kind, DataFileType::Spelling);
            assert_eq!(language, "smj");
            assert!(replace);
        }
        _ => panic!("expected an install"),
    }
    match plan_event(&WatchEvent::Remove("/d/hyphenation/se.hfstol".to_string())) {
        WatchPlan::Uninstall { kind, language } => {
            assert_eq!(kind, DataFileType::Hyphenation);
            assert_eq!(language, "se");
        }
        _ => panic!("expected an uninstall"),
    }
    assert!(matches!(plan_event(&WatchEvent::Create("/d/spelling/x.txt".to_string())), WatchPlan::Ignore));
    assert!(matches!(plan_event(&WatchEvent::Remove("/d/spelling/noext".to_string())), WatchPlan::Ignore));
    assert!(matches!(plan_event(&WatchEvent::Other), WatchPlan::Ignore));
}

#[test]
fn catalog_keeps_grammar_and_preferences_together() {
    let mut c: Catalog<u32, u32, u32> = Catalog::new();
    let plan = plan_event(&WatchEvent::Create("/d/grammar/se.zcheck".to_string()));
    assert!(c.apply(plan, Some(Loaded::Grammar(1, prefs()))).is_none());
    assert_eq!(c.grammar().get("se"), Some(&1));
    assert!(c.preferences().contains("se"));
    assert_eq!(c.preferences().get("se").unwrap().get("typo").map(|s| s.as_str()), Some("Typo"));

    let plan = plan_event(&WatchEvent::Write("/d/grammar/se.zcheck".to_string()));
    match c.apply(plan, Some(Loaded::Grammar(2, prefs()))) {
        Some(Loaded::Grammar(old, _)) => assert_eq!(old, 1),
        _ => panic!("the old worker is handed back"),
    }
    assert_eq!(c.grammar().get("se"), Some(&2));

    let plan = plan_event(&WatchEvent::Remove("/d/grammar/se.zcheck".to_string()));
    match c.apply(plan, None) {
        Some(Loaded::Grammar(old, _)) => assert_eq!(old, 2),
        _ => panic!("the removed worker is handed back"),
    }
    assert!(c.grammar().get("se").is_none());
    assert!(!c.preferences().contains("se"));
    assert_eq!(c.grammar().len(), c.preferences().len());
}

#[test]
fn failed_load_leaves_the_old_worker() {
    let mut c: Catalog<u32, u32, u32> = Catalog::new();
    c.install("se".to_string(), Loaded::Grammar(1, prefs()));
    let plan = plan_event(&WatchEvent::Write("/d/grammar/se.zcheck".to_string()));
    assert!(c.apply(plan, None).is_none());
    assert_eq!(c.grammar().get("se"), Some(&1));
    assert!(c.preferences().contains("se"));
}

#[test]
fn speller_created_then_deleted() {
    let mut c: Catalog<u32, u32, u32> = Catalog::new();
    let plan = plan_event(&WatchEvent::Create("/d/spelling/smj.zhfst".to_string()));
    c.apply(plan, Some(Loaded::Speller(5)));
    assert_eq!(c.speller().get("smj"), Some(&5));
    assert!(c.grammar().get("smj").is_none());
    let plan = plan_event(&WatchEvent::Remove("/d/spelling/smj.zhfst".to_string()));
    assert!(matches!(c.apply(plan, None), Some(Loaded::Speller(5))));
    assert!(c.speller().get("smj").is_none());
    let plan = plan_event(&WatchEvent::Remove("/d/spelling/smj.zhfst".to_string()));
    assert!(c.apply(plan, None).is_none());
}

#[test]
fn uninstall_and_reinstall_binds_the_new_worker() {
    let mut c: Catalog<u32, u32, u32> = Catalog::new();
    c.install("se".to_string(), Loaded::Hyphenator(1));
    assert!(matches!(c.uninstall(DataFileType::Hyphenation, "se"), Some(Loaded::Hyphenator(1))));
    assert!(c.install("se".to_string(), Loaded::Hyphenator(2)).is_none());
    assert_eq!(c.hyphenation().get("se"), Some(&2));
}

#[test]
fn bursts_of_the_same_event_are_collapsed() {
    let w = |p: &str| WatchEvent::Write(p.to_string());
    let c = |p: &str| WatchEvent::Create(p.to_string());
    let r = |p: &str| WatchEvent::Remove(p.to_string());
    let out = collapse_events(vec![w("a.zhfst"), w("a.zhfst"), w("b.zhfst"), c("c.zhfst"), r("c.zhfst"), w("a.zhfst")]);
    let kinds: Vec<String> = out
        .iter()
        .map(|e| match e {
            WatchEvent::Create(p) => format!("create {}", p),
            WatchEvent::Write(p) => format!("write {}", p),
            WatchEvent::Remove(p) => format!("remove {}", p),
            WatchEvent::Other => "other".to_string(),
        })
        .collect();
    assert_eq!(kinds, vec!["write a.zhfst", "write b.zhfst", "create c.zhfst", "remove c.zhfst", "write a.zhfst"]);
    assert!(collapse_events(Vec::new()).is_empty());
}

#[test]
fn catalog_matches_the_disk_after_start_up_and_events() {

    let listing = vec![
        DirEntry { path: "/d/spelling/se.zhfst".to_string(), is_dir: false },
        DirEntry { path: "/d/spelling/smj.zhfst".to_string(), is_dir: false },
        DirEntry { path: "/d/spelling/readme.txt".to_string(), is_dir: false },
    ];
    let mut c: Catalog<u32, u32, u32> = Catalog::new();
    let mut next = 0;
    for m in model_files(&listing, DataFileType::Spelling) {
        let plan = plan_event(&WatchEvent::Create(m.path));
        next += 1;
        c.apply(plan, Some(Loaded::Speller(next)));
    }
    let mut keys = c.speller().keys();
    keys.sort();
    assert_eq!(keys, vec!["se", "smj"]);
    let plan = plan_event(&WatchEvent::Remove("/d/spelling/se.zhfst".to_string()));
    c.apply(plan, None);
    let plan = plan_event(&WatchEvent::Create("/d/spelling/sma.zhfst".to_string()));
    c.apply(plan, Some(Loaded::Speller(9)));
    let mut keys = c.speller().keys();
    keys.sort();
    assert_eq!(keys, vec!["sma", "smj"]);
    assert_eq!(c.grammar().len(), 0);
    assert_eq!(c.hyphenation().len(), 0);
}
