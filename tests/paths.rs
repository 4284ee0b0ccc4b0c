use s3_client::{base_name, join};

#[test]
fn base_name_of_plain_paths() {
    assert_eq!(base_name("report.txt"), Some("report.txt".to_string()));
    assert_eq!(base_name("a/b/report.txt"), Some("report.txt".to_string()));
    assert_eq!(base_name("/abs/dir/x.bin"), Some("x.bin".to_string()));
}

#[test]
fn base_name_skips_trailing_separators_and_dots() {
    assert_eq!(base_name("a/b/"), Some("b".to_string()));
    assert_eq!(base_name("a/b//"), Some("b".to_string()));
    assert_eq!(base_name("a/b/."), Some("b".to_string()));
    assert_eq!(base_name("a/b/./"), Some("b".to_string()));
    assert_eq!(base_name("./x"), Some("x".to_string()));
}

#[test]
fn base_name_none_cases() {
    assert_eq!(base_name(""), None);
    assert_eq!(base_name("/"), None);
    assert_eq!(base_name("."), None);
    assert_eq!(base_name(".."), None);
    assert_eq!(base_name("a/.."), None);
    assert_eq!(base_name("///"), None);
}

#[test]
fn base_name_keeps_dotted_names_and_unicode() {
    assert_eq!(base_name("dir/.hidden"), Some(".hidden".to_string()));
    assert_eq!(base_name("dir/...") , Some("...".to_string()));
    assert_eq!(base_name("dossier/été.txt"), Some("été.txt".to_string()));
}

#[test]
fn join_inserts_one_separator() {
    assert_eq!(join("docs", "report.txt"), "docs/report.txt");
    assert_eq!(join("docs/", "report.txt"), "docs/report.txt");
    assert_eq!(join("", "report.txt"), "report.txt");
    assert_eq!(join("/", "x"), "/x");
}

#[test]
fn joined_key_keeps_file_name() {
    let name = base_name("/home/me/report.txt").unwrap();
    let key = join("docs/2024", &name);
    assert_eq!(key, "docs/2024/report.txt");
    assert_eq!(base_name(&key), Some("report.txt".to_string()));
}
