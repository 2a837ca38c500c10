use fixmylib::config_parser::{ExtensionList, YamlIterateOn, is_valid_scan_parameter};
use fixmylib::scans::{ContentReplacer, FileProperties, FolderProperties};
use fixmylib::text::{chars_of, parse_decimal_u32, replace_all_str, replace_first_str, split_chars};

fn file_props() -> FileProperties {
    FileProperties {
        filestem: "a".to_string(),
        full_path: "/in/sub/a.jpg".to_string(),
        extension: "jpg".to_string(),
        path: "sub/a.jpg".to_string(),
        folder_path: "sub".to_string(),
    }
}

#[test]
fn replace_tokens_replaces_every_occurrence() {
    let f = file_props();
    let out = f.replace_tokens("cp <input-file-full-path> /out/<file-stem>.<file-extension>; echo <file-stem>");
    assert_eq!(out, "cp /in/sub/a.jpg /out/a.jpg; echo a");
}

#[test]
fn replace_tokens_leaves_unknown_tokens() {
    let f = file_props();
    assert_eq!(f.replace_tokens("<unknown> and <file-path>"), "<unknown> and sub/a.jpg");
    assert_eq!(f.replace_tokens("no tokens here"), "no tokens here");
}

#[test]
fn folder_tokens_and_identifier() {
    let f = FolderProperties { full_path: "/in/sub".to_string(), path: "sub".to_string() };
    assert_eq!(f.tokens(), vec!["<input-folder-full-path>".to_string(), "<input-folder-path>".to_string()]);
    assert_eq!(f.main_identifier(), "sub");
    assert_eq!(f.replace_tokens("ls <input-folder-full-path>"), "ls /in/sub");
}

#[test]
fn file_display_string_is_full_path() {
    assert_eq!(file_props().to_display_string(), "/in/sub/a.jpg");
    assert_eq!(file_props().main_identifier(), "sub/a.jpg");
    assert_eq!(file_props().tokens().len(), 5);
}

#[test]
fn extension_list_empty_accepts_all() {
    let l = ExtensionList::new(&None, &None);
    assert!(l.is_desired("jpg"));
    assert!(l.is_desired("anything"));
    assert!(l.is_desired(""));
}

#[test]
fn extension_list_exclude_rejects_excluded() {
    let l = ExtensionList::new(&Some("jpg,png".to_string()), &Some("MOV,txt".to_string()));
    assert!(!l.is_desired("mov"));
    assert!(!l.is_desired("TXT"));
    assert!(l.is_desired("jpg"));
    assert!(l.is_desired("gif"));
}

#[test]
fn extension_list_target_only_is_case_insensitive() {
    let l = ExtensionList::new(&Some("JPG,png".to_string()), &None);
    assert!(l.is_desired("jpg"));
    assert!(l.is_desired("JpG"));
    assert!(l.is_desired("PNG"));
    assert!(!l.is_desired("gif"));
}

#[test]
fn valid_scan_parameters() {
    assert!(is_valid_scan_parameter("<file-stem>", YamlIterateOn::Files));
    assert!(!is_valid_scan_parameter("<file-stem>", YamlIterateOn::Folders));
    assert!(is_valid_scan_parameter("<input-folder-path>", YamlIterateOn::Folders));
    assert!(!is_valid_scan_parameter("<nope>", YamlIterateOn::Files));
}

#[test]
fn text_replace_and_split() {
    assert_eq!(replace_all_str("aXbXc", "X", "--"), "a--b--c");
    assert_eq!(replace_all_str("aaa", "aa", "b"), "ba");
    assert_eq!(replace_first_str("/in/x/in", "/in", "."), "./x/in");
    assert_eq!(replace_first_str("abc", "zz", "."), "abc");
    let parts = split_chars(&chars_of("a,,b"), ',');
    assert_eq!(parts, vec![vec!['a'], vec![], vec!['b']]);
}

#[test]
fn decimal_parsing() {
    assert_eq!(parse_decimal_u32(&chars_of("61")), Some(61));
    assert_eq!(parse_decimal_u32(&chars_of("4294967295")), Some(4294967295));
    assert_eq!(parse_decimal_u32(&chars_of("4294967296")), None);
    assert_eq!(parse_decimal_u32(&chars_of("")), None);
    assert_eq!(parse_decimal_u32(&chars_of("6a")), None);
}
