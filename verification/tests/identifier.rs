use iron_bin::identifier::{candidate, record_identifier, trashinfo_file_name, try_identifier};
use iron_bin::paths::{file_name, is_same_path, join, matches_glob};

#[test]
fn trash_test_identifier() {
    let identifier = iron_bin::identifier::identifier("/abc/def/ghi.xyz");
    assert_eq!(identifier, "ghi.xyz");
}

#[test]
fn mod_test_identifier() {
    let identifier = iron_bin::identifier::identifier("/abc/def/ghi.xyz");
    assert_eq!(identifier, "ghi.xyz");
}

#[test]
fn identifier() {
    assert_eq!(iron_bin::identifier::identifier("/abc/def/ghi.xyz"), "ghi.xyz");
}

#[test]
fn try_identifier_is_the_file_name() {
    assert_eq!(try_identifier("/abc/def/ghi.xyz"), Some(String::from("ghi.xyz")));
    assert_eq!(try_identifier("/abc/def/"), Some(String::from("def")));
    assert_eq!(try_identifier("name"), Some(String::from("name")));
}

#[test]
fn try_identifier_of_a_path_without_file_name() {
    assert_eq!(try_identifier("/"), None);
    assert_eq!(try_identifier(""), None);
    assert_eq!(try_identifier("/abc/.."), None);
}

#[test]
fn file_name_is_the_final_component() {
    assert_eq!(file_name("/tmp/foo.txt"), Some(String::from("foo.txt")));
    assert_eq!(file_name("/"), None);
}

#[test]
fn join_adjoins_a_path() {
    assert_eq!(join("/home/user/.local/share", "Trash"), "/home/user/.local/share/Trash");
    assert_eq!(join("/base/", "info"), "/base/info");
    assert_eq!(join("/base", "/absolute"), "/absolute");
}

#[test]
fn is_same_path_compares_components() {
    assert!(is_same_path("/a/b", "/a/b"));
    assert!(is_same_path("/a//b", "/a/b"));
    assert!(is_same_path("/a/b/", "/a/b"));
    assert!(!is_same_path("/a/b", "/a/c"));
    assert!(!is_same_path("/a/b", "a/b"));
}

#[test]
fn matches_glob_matches_patterns() {
    assert!(matches_glob("/tmp/*.txt", "/tmp/a.txt"));
    assert!(matches_glob("**/*.txt", "/tmp/deep/a.txt"));
    assert!(!matches_glob("/tmp/*.txt", "/tmp/a.rs"));
    assert!(!matches_glob("/tmp/a.rs", "/tmp/*.txt"));
}

#[test]
fn candidate_appends_a_number() {
    assert_eq!(candidate("name", 0), "name");
    assert_eq!(candidate("name", 1), "name_1");
    assert_eq!(candidate("name", 2), "name_2");
    assert_eq!(candidate("name", 10), "name_10");
    assert_eq!(candidate("name.txt", 907), "name.txt_907");
    assert_eq!(candidate("name", u16::MAX), "name_65535");
    assert_eq!(candidate("", 3), "_3");
}

#[test]
fn candidates_differ() {
    let mut seen = std::collections::BTreeSet::new();
    for number in 0..=300_u16 {
        assert!(seen.insert(candidate("name", number)));
    }
}

#[test]
fn trashinfo_file_name_appends_the_extension() {
    assert_eq!(trashinfo_file_name("ghi.xyz"), "ghi.xyz.trashinfo");
    assert_eq!(trashinfo_file_name("name_1"), "name_1.trashinfo");
}

#[test]
fn record_identifier_strips_the_extension() {
    assert_eq!(record_identifier("ghi.xyz.trashinfo"), Some(String::from("ghi.xyz")));
    assert_eq!(record_identifier("a.trashinfo"), Some(String::from("a")));
    assert_eq!(record_identifier("caf\u{e9} \u{1f47e}.trashinfo"), Some(String::from("caf\u{e9} \u{1f47e}")));
    assert_eq!(record_identifier("..trashinfo"), Some(String::from(".")));
    assert_eq!(record_identifier("a.trashinfo.trashinfo"), Some(String::from("a.trashinfo")));
}

#[test]
fn record_identifier_of_another_file() {
    assert_eq!(record_identifier(".trashinfo"), None);
    assert_eq!(record_identifier("trashinfo"), None);
    assert_eq!(record_identifier("a.trashinfo~"), None);
    assert_eq!(record_identifier("a.TRASHINFO"), None);
    assert_eq!(record_identifier("atrashinfo"), None);
    assert_eq!(record_identifier("a.txt"), None);
    assert_eq!(record_identifier(""), None);
}

#[test]
fn record_identifier_undoes_trashinfo_file_name() {
    for identifier in ["a", "ghi.xyz", "name_1", "caf\u{e9}", ".hidden", "x.trashinfo"] {
        assert_eq!(record_identifier(&trashinfo_file_name(identifier)), Some(String::from(identifier)));
    }
}

#[test]
fn file_name_is_a_component() {
    for path in ["/abc/def/ghi.xyz", "/abc/def/", "/abc//def///", "name", "./name", "/a/b/.", "a/b/c.d.e"] {
        let name = file_name(path).unwrap();
        assert!(!name.is_empty(), "{path:?}");
        assert!(!name.contains('/'), "{path:?}");
        assert_eq!(try_identifier(path), Some(name));
    }
}
