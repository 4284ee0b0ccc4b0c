use s3_client::{
    audit_failure, content_type_for, content_type_or_empty, format_size, list_keys, plan_delete,
    plan_download, plan_upload, record_delete, record_download, record_upload, reported_length,
    AccountConfigQuery, ClientError, ConfigStore, DBError, EventKind,
};

fn logged_in() -> ConfigStore {
    ConfigStore::new(Some(AccountConfigQuery::new(
        "K".to_string(),
        "S".to_string(),
        "eu-north-1".to_string(),
        "b".to_string(),
    )))
}

#[test]
fn sizes_are_labelled_in_bytes() {
    assert_eq!(format_size(0), "0 Bytes");
    assert_eq!(format_size(2), "2 Bytes");
    assert_eq!(format_size(10), "10 Bytes");
    assert_eq!(format_size(1234567), "1234567 Bytes");
    assert_eq!(format_size(u64::MAX), "18446744073709551615 Bytes");
}

#[test]
fn reported_length_defaults_to_zero() {
    assert_eq!(reported_length(Some(2)), 2);
    assert_eq!(reported_length(Some(0)), 0);
    assert_eq!(reported_length(Some(-1)), 0);
    assert_eq!(reported_length(None), 0);
}

#[test]
fn missing_content_type_is_empty() {
    assert_eq!(content_type_or_empty(Some("text/plain".to_string())), "text/plain");
    assert_eq!(content_type_or_empty(None), "");
}

#[test]
fn content_type_from_extension() {
    assert_eq!(content_type_for("docs/report.txt"), "text/plain");
    assert_eq!(content_type_for("a.json"), "application/json");
    assert_eq!(content_type_for("README"), "application/octet-stream");
    assert_eq!(content_type_for("data.unknownext"), "application/octet-stream");
}

#[test]
fn event_kind_names() {
    assert_eq!(EventKind::Upload.name(), "upload");
    assert_eq!(EventKind::Download.name(), "download");
    assert_eq!(EventKind::Delete.name(), "delete");
}

#[test]
fn upload_needs_account_and_file() {
    let store = ConfigStore::new(None);
    assert_eq!(plan_upload(&store, "report.txt", "docs", true).err(), Some(ClientError::NotLoggedIn));
    let store = logged_in();
    assert_eq!(plan_upload(&store, "report.txt", "docs", false).err(), Some(ClientError::PathNotFound));
    assert_eq!(plan_upload(&store, "dir/..", "docs", true).err(), Some(ClientError::PathNotFound));
}

#[test]
fn upload_key_uses_file_name_only() {
    let store = logged_in();
    let plan = plan_upload(&store, "/home/me/work/report.txt", "docs", true).unwrap();
    assert_eq!(plan.key, "docs/report.txt");
    assert_eq!(plan.bucket_name, "b");
    assert_eq!(plan.key_id, "K");
    assert_eq!(plan.content_type, "text/plain");
}

#[test]
fn download_needs_account_directory_and_name() {
    let store = ConfigStore::new(None);
    assert_eq!(plan_download(&store, "docs/report.txt", "out", true).err(), Some(ClientError::NotLoggedIn));
    let store = logged_in();
    assert_eq!(
        plan_download(&store, "docs/report.txt", "out", false).err(),
        Some(ClientError::DirectoryNotFound)
    );
    assert_eq!(plan_download(&store, "docs/", "out", true).err(), None);
    assert_eq!(plan_download(&store, "/", "out", true).err(), Some(ClientError::PathNotFound));
}

#[test]
fn download_path_uses_key_file_name_only() {
    let store = logged_in();
    let plan = plan_download(&store, "docs/2024/report.txt", "/tmp/out", true).unwrap();
    assert_eq!(plan.key, "docs/2024/report.txt");
    assert_eq!(plan.local_path, "/tmp/out/report.txt");
    assert_eq!(plan.bucket_name, "b");
}

#[test]
fn upload_then_download_lands_on_same_name() {
    let store = logged_in();
    let up = plan_upload(&store, "local/dir/report.txt", "docs", true).unwrap();
    let down = plan_download(&store, &up.key, "elsewhere", true).unwrap();
    assert_eq!(down.local_path, "elsewhere/report.txt");
}

#[test]
fn delete_needs_account() {
    let store = ConfigStore::new(None);
    assert_eq!(plan_delete(&store, "docs/report.txt").err(), Some(ClientError::NotLoggedIn));
    let plan = plan_delete(&logged_in(), "docs/report.txt").unwrap();
    assert_eq!(plan.key, "docs/report.txt");
    assert_eq!(plan.bucket_name, "b");
    assert_eq!(plan.key_id, "K");
}

#[test]
fn each_operation_records_one_event() {
    let mut store = logged_in();
    let up = plan_upload(&store, "report.txt", "docs", true).unwrap();
    record_upload(&mut store, &up, 2);
    assert_eq!(store.events().len(), 1);
    let down = plan_download(&store, "docs/report.txt", "out", true).unwrap();
    record_download(&mut store, &down, "text/plain", 2);
    assert_eq!(store.events().len(), 2);
    let del = plan_delete(&store, "docs/report.txt").unwrap();
    record_delete(&mut store, &del, "text/plain", 2);
    let events = store.events();
    assert_eq!(events.len(), 3);
    assert_eq!(events[0].event_type, "upload");
    assert_eq!(events[1].event_type, "download");
    assert_eq!(events[2].event_type, "delete");
    for e in events {
        assert_eq!(e.file_name, "docs/report.txt");
        assert_eq!(e.key_id, "K");
        assert_eq!(e.bucket_name, "b");
        assert_eq!(e.file_type, "text/plain");
        assert_eq!(e.file_size, "2 Bytes");
    }
    assert!(store.is_logged_in());
}

#[test]
fn events_survive_log_out() {
    let mut store = logged_in();
    let del = plan_delete(&store, "k").unwrap();
    record_delete(&mut store, &del, "", 0);
    assert_eq!(store.log_out(), Ok(()));
    assert_eq!(store.events().len(), 1);
    assert_eq!(store.events()[0].file_size, "0 Bytes");
    assert_eq!(store.events()[0].file_type, "");
}

#[test]
fn list_keys_drops_objects_without_key() {
    let listed = vec![Some("b".to_string()), None, Some("a".to_string())];
    assert_eq!(list_keys(&listed), vec!["b".to_string(), "a".to_string()]);
    assert!(list_keys(&Vec::new()).is_empty());
}

#[test]
fn audit_failure_keeps_message() {
    let e = DBError::new("insert refused".to_string());
    assert_eq!(e.message(), "insert refused");
    assert_eq!(audit_failure(e), ClientError::AuditWriteFailed("insert refused".to_string()));
}

#[test]
fn login_upload_scenario() {
    let mut store = ConfigStore::new(None);
    let cfg = AccountConfigQuery::new(
        "K".to_string(),
        "S".to_string(),
        "eu-north-1".to_string(),
        "b".to_string(),
    );
    assert_eq!(store.log_in(cfg), Ok(()));
    assert_eq!(s3_client::confirm_log_in(&mut store, true), Ok(()));
    let empty: Vec<Option<String>> = Vec::new();
    assert!(list_keys(&empty).is_empty());
    let plan = plan_upload(&store, "report.txt", "docs", true).unwrap();
    assert_eq!(plan.key, "docs/report.txt");
    let listed = vec![Some(plan.key.clone())];
    assert!(list_keys(&listed).contains(&"docs/report.txt".to_string()));
    record_upload(&mut store, &plan, reported_length(Some(2)));
    let events = store.events();
    assert_eq!(events.len(), 1);
    assert_eq!(events[0].event_type, "upload");
    assert_eq!(events[0].file_name, "docs/report.txt");
    assert_eq!(events[0].file_size, "2 Bytes");
}
