use divvun_api::kind::DataFileType;
use divvun_api::paths::{get_file_info, get_typed_data_dir};
use divvun_api::text::{chars_of, lines_of, split_char, str_eq, trim};

#[test]
fn kinds_have_their_extension_and_directory() {
    assert_eq!(DataFileType::Grammar.as_ext(), "zcheck");
    assert_eq!(DataFileType::Spelling.as_ext(), "zhfst");
    assert_eq!(DataFileType::Hyphenation.as_ext(), "hfstol");
    assert_eq!(DataFileType::Grammar.as_dir(), "grammar");
    assert_eq!(DataFileType::Spelling.as_dir(), "spelling");
    assert_eq!(DataFileType::Hyphenation.as_dir(), "hyphenation");
}

#[test]
fn kinds_are_classified_by_extension() {
    assert_eq!(DataFileType::from_ext("zcheck"), Some(DataFileType::Grammar));
    assert_eq!(DataFileType::from_ext("zhfst"), Some(DataFileType::Spelling));
    assert_eq!(DataFileType::from_ext("hfstol"), Some(DataFileType::Hyphenation));
    assert_eq!(DataFileType::from_ext("txt"), None);
    assert_eq!(DataFileType::from_ext("ZHFST"), None);
    assert_eq!(DataFileType::from_ext(""), None);
}

#[test]
fn kind_labels() {
    assert_eq!(DataFileType::Spelling.label(), "speller");
    assert_eq!(DataFileType::Grammar.label(), "grammar checker");
    assert_eq!(DataFileType::Hyphenation.label(), "hyphenator");
}

#[test]
fn file_info_of_a_model_path() {
    let info = get_file_info("/data/spelling/se.zhfst").unwrap();
    assert_eq!(info.path, "/data/spelling/se.zhfst");
    assert_eq!(info.stem, "se");
    assert_eq!(info.extension, "zhfst");
}

#[test]
fn file_info_keeps_inner_dots_in_the_stem() {
    let info = get_file_info("grammar/se.test.zcheck").unwrap();
    assert_eq!(info.stem, "se.test");
    assert_eq!(info.extension, "zcheck");
}

#[test]
fn file_info_needs_an_extension() {
    assert!(get_file_info("/data/spelling/README").is_none());
    assert!(get_file_info("/data/spelling/.hidden").is_none());
    assert!(get_file_info("").is_none());
}

#[test]
fn hidden_model_files_are_files_too() {
    let info = get_file_info("/data/spelling/.se.zhfst").unwrap();
    assert_eq!(info.stem, ".se");
    assert_eq!(info.extension, "zhfst");
}

#[test]
fn typed_data_dir_joins_the_subdirectory() {
    assert_eq!(get_typed_data_dir("/data", DataFileType::Spelling), "/data/spelling");
    assert_eq!(get_typed_data_dir("/data/", DataFileType::Grammar), "/data/grammar");
    assert_eq!(get_typed_data_dir("", DataFileType::Hyphenation), "hyphenation");
}

#[test]
fn split_keeps_empty_pieces() {
    assert_eq!(split_char("a\tb\t\tc", '\t'), vec!["a", "b", "", "c"]);
    assert_eq!(split_char("", '\t'), vec![""]);
    assert_eq!(split_char("\t", '\t'), vec!["", ""]);
}

#[test]
fn lines_drop_the_final_line_ending() {
    assert_eq!(lines_of("a\r\nb\n"), vec!["a", "b"]);
    assert_eq!(lines_of("a\n\nb"), vec!["a", "", "b"]);
    assert_eq!(lines_of(""), Vec::<String>::new());
    assert_eq!(lines_of("\n"), vec![""]);
    assert_eq!(lines_of("x\r"), vec!["x\r"]);
}

#[test]
fn lines_agree_with_std() {
    let samples = ["one\ntwo\r\nthree", "tail\n", "\r\n\r\n", "mixed\r\rend\n"];
    for s in samples.iter() {
        let expected: Vec<String> = s.lines().map(|l| l.to_string()).collect();
        assert_eq!(lines_of(s), expected);
    }
}

#[test]
fn trim_removes_unicode_white_space() {
    assert_eq!(trim("  word \n"), "word");
    assert_eq!(trim("\u{3000}\u{a0}in between\u{2029}"), "in between");
    assert_eq!(trim(" \t "), "");
    let s = "\u{85} a b \u{202f}";
    assert_eq!(trim(s), s.trim());
}

#[test]
fn chars_and_equality() {
    assert_eq!(chars_of("páhkat"), vec!['p', 'á', 'h', 'k', 'a', 't']);
    assert!(str_eq("se", "se"));
    assert!(!str_eq("se", "smj"));
}
