use divvun_api::autonym::AutonymTable;
use divvun_api::scanner::{
    available_languages, available_languages_response, get_data_files, model_files, DirEntry,
};
use divvun_api::kind::DataFileType;

const TABLE: &str = "tag3\ttag1\tname\tautonym\tsource\n\
sme\tse\tNorthern Sami\tdavvisámegiella\tx\n\
smj\t\tLule Sami\tjulevsámegiella\tx\n\
sma\t\tSouthern Sami\t\tx\n\
fkv\t\t\t\tx\n";

fn entry(path: &str, is_dir: bool) -> DirEntry {
    DirEntry { path: path.to_string(), is_dir }
}

fn table() -> AutonymTable {
    AutonymTable::from_tsv(TABLE)
}

#[test]
fn autonym_table_reads_every_record_after_the_header() {
    let t = table();
    assert_eq!(t.records.len(), 4);
    assert_eq!(t.records[0].tag3, "sme");
    assert_eq!(t.records[0].tag1.as_deref(), Some("se"));
    assert_eq!(t.records[1].tag1, None);
    assert_eq!(t.records[2].autonym, None);
}

#[test]
fn titles_fall_back_from_autonym_to_name_to_tag() {
    let t = table();
    assert_eq!(t.title("se"), "davvisámegiella");
    assert_eq!(t.title("smj"), "julevsámegiella");
    assert_eq!(t.title("sma"), "Southern Sami");
    assert_eq!(t.title("fkv"), "fkv");
    assert_eq!(t.title("xx"), "xx");
    assert_eq!(t.title("sme"), "sme");
}

#[test]
fn an_empty_table_titles_each_key_with_itself() {
    let t = AutonymTable::empty();
    assert_eq!(t.title("se"), "se");
}

#[test]
fn scanner_keeps_regular_files_with_the_kinds_extension() {
    let entries = vec![
        entry("/d/spelling/se.zhfst", false),
        entry("/d/spelling/notes.txt", false),
        entry("/d/spelling/old.zhfst", true),
        entry("/d/spelling/.smj.zhfst", false),
        entry("/d/spelling/sma.zcheck", false),
    ];
    let models = model_files(&entries, DataFileType::Spelling);
    assert_eq!(models.len(), 2);
    assert_eq!(models[0].language, "se");
    assert_eq!(models[0].path, "/d/spelling/se.zhfst");
    assert_eq!(models[1].language, ".smj");
}

#[test]
fn scanner_of_a_missing_directory_is_empty() {
    let models = model_files(&Vec::new(), DataFileType::Grammar);
    assert!(models.is_empty());
}

#[test]
fn listing_gives_each_model_its_title() {
    let entries = vec![entry("/d/spelling/se.zhfst", false), entry("/d/spelling/xx.zhfst", false)];
    let listing = available_languages(&entries, DataFileType::Spelling, &table());
    assert_eq!(
        listing,
        vec![
            ("se".to_string(), "davvisámegiella".to_string()),
            ("xx".to_string(), "xx".to_string())
        ]
    );
}

#[test]
fn listing_is_the_same_twice_and_covers_every_kind() {
    let g = vec![entry("/d/grammar/se.zcheck", false)];
    let s = vec![entry("/d/spelling/se.zhfst", false), entry("/d/spelling/smj.zhfst", false)];
    let h = vec![entry("/d/hyphenation/se.hfstol", false), entry("/d/hyphenation/x.zhfst", false)];
    let t = table();
    let first = available_languages_response(&g, &s, &h, &t);
    let second = available_languages_response(&g, &s, &h, &t);
    assert_eq!(first.available.grammar, second.available.grammar);
    assert_eq!(first.available.speller, second.available.speller);
    assert_eq!(first.available.hyphenation, second.available.hyphenation);
    let keys = |v: &Vec<(String, String)>| v.iter().map(|p| p.0.clone()).collect::<Vec<_>>();
    assert_eq!(keys(&first.available.grammar), vec!["se"]);
    assert_eq!(keys(&first.available.speller), vec!["se", "smj"]);
    assert_eq!(keys(&first.available.hyphenation), vec!["se"]);
}

#[test]
fn data_files_are_the_regular_files_with_the_extension() {
    let entries = vec![
        entry("/d/grammar/se.zcheck", false),
        entry("/d/grammar/se.zcheck.bak", false),
        entry("/d/grammar/sub.zcheck", true),
        entry("/d/grammar/.zcheck", false),
        entry("/d/grammar/smj.zcheck", false),
    ];
    let files = get_data_files(&entries, DataFileType::Grammar);
    assert_eq!(files, vec!["/d/grammar/se.zcheck", "/d/grammar/smj.zcheck"]);
    assert!(get_data_files(&entries, DataFileType::Spelling).is_empty());
}
