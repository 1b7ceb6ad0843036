use info_storage::error::StorageError;
use info_storage::file_info::FileInfo;
use info_storage::memory::MemoryInfoStorage;
use info_storage::reply::{
    read_result, remove_result, write_result, DbModel, FetchReply, WriteReply,
};
use info_storage::sql_error::{contains_text, is_duplicate_key_error, write_reply_for_error};

fn info(id: &str, payload: &str) -> FileInfo {
    FileInfo::new(id.to_string(), payload.to_string()).expect("payload is JSON")
}

fn prepared_store() -> MemoryInfoStorage {
    let mut store = MemoryInfoStorage::new();
    assert_eq!(store.prepare(), Ok(()));
    store
}

#[test]
fn get_before_create_is_not_found() {
    let mut store = prepared_store();
    assert_eq!(store.get_info("a"), Err(StorageError::NotFound));
    assert_eq!(store.set_info(&info("b", "{}"), true), Ok(()));
    assert_eq!(store.set_info(&info("a", "{}"), false), Err(StorageError::NotFound));
    assert_eq!(store.remove_info("a"), Ok(()));
    assert_eq!(store.get_info("a"), Err(StorageError::NotFound));
}

#[test]
fn create_then_get_returns_record() {
    let mut store = prepared_store();
    let record = info("a", r#"{"offset":0,"length":100}"#);
    assert_eq!(store.set_info(&record, true), Ok(()));
    assert_eq!(store.get_info("a"), Ok(info("a", r#"{"offset":0,"length":100}"#)));
}

#[test]
fn second_create_conflicts_and_keeps_first() {
    let mut store = prepared_store();
    assert_eq!(store.set_info(&info("a", r#"{"offset":1}"#), true), Ok(()));
    assert_eq!(
        store.set_info(&info("a", r#"{"offset":2}"#), true),
        Err(StorageError::Conflict)
    );
    assert_eq!(store.get_info("a"), Ok(info("a", r#"{"offset":1}"#)));
}

#[test]
fn update_of_absent_id_is_not_found_and_writes_nothing() {
    let mut store = prepared_store();
    assert_eq!(
        store.set_info(&info("a", r#"{"offset":2}"#), false),
        Err(StorageError::NotFound)
    );
    assert_eq!(store.get_info("a"), Err(StorageError::NotFound));
}

#[test]
fn update_replaces_whole_record() {
    let mut store = prepared_store();
    let p1 = r#"{"offset":0,"length":100,"path":"/data/a"}"#;
    let p2 = r#"{"offset":50}"#;
    assert_eq!(store.set_info(&info("a", p1), true), Ok(()));
    assert_eq!(store.set_info(&info("a", p2), false), Ok(()));
    let got = store.get_info("a").expect("record exists");
    assert_eq!(got.payload(), p2);
    assert_eq!(got.id(), "a");
}

#[test]
fn remove_twice_succeeds() {
    let mut store = prepared_store();
    assert_eq!(store.set_info(&info("a", "{}"), true), Ok(()));
    assert_eq!(store.remove_info("a"), Ok(()));
    assert_eq!(store.remove_info("a"), Ok(()));
    assert_eq!(store.get_info("a"), Err(StorageError::NotFound));
}

#[test]
fn prepare_again_keeps_records() {
    let mut store = prepared_store();
    assert_eq!(store.set_info(&info("a", r#"{"offset":3}"#), true), Ok(()));
    assert_eq!(store.set_info(&info("b", "[1,2]"), true), Ok(()));
    assert_eq!(store.prepare(), Ok(()));
    assert_eq!(store.get_info("a"), Ok(info("a", r#"{"offset":3}"#)));
    assert_eq!(store.get_info("b"), Ok(info("b", "[1,2]")));
}

#[test]
fn corrupted_payload_is_corrupt_record() {
    let mut store = prepared_store();
    assert_eq!(store.set_info(&info("a", r#"{"offset":3}"#), true), Ok(()));
    let row = DbModel { id: "a".to_string(), info: r#"{"offset":"#.to_string() };
    assert_eq!(store.update_row(row), WriteReply::Applied(1));
    assert_eq!(store.get_info("a"), Err(StorageError::CorruptRecord));
}

#[test]
fn unprepared_store_is_unavailable() {
    let mut store = MemoryInfoStorage::new();
    assert_eq!(store.get_info("a"), Err(StorageError::BackendUnavailable));
    assert_eq!(store.set_info(&info("a", "{}"), true), Err(StorageError::BackendUnavailable));
    assert_eq!(store.remove_info("a"), Err(StorageError::BackendUnavailable));
}

#[test]
fn raw_row_operations_report_rows_touched() {
    let mut store = prepared_store();
    let row = || DbModel { id: "x".to_string(), info: "1".to_string() };
    assert_eq!(store.insert_row(row()), WriteReply::Applied(1));
    assert_eq!(store.insert_row(row()), WriteReply::DuplicateKey);
    assert_eq!(store.fetch_row("x"), FetchReply::Found("1".to_string()));
    assert_eq!(store.delete_row("x"), WriteReply::Applied(1));
    assert_eq!(store.delete_row("x"), WriteReply::Applied(0));
    assert_eq!(store.update_row(row()), WriteReply::Applied(0));
    assert_eq!(store.fetch_row("x"), FetchReply::Missing);
}

#[test]
fn file_info_requires_json_payload() {
    assert!(FileInfo::new("a".to_string(), "not json".to_string()).is_none());
    assert!(FileInfo::new("a".to_string(), "".to_string()).is_none());
    assert!(FileInfo::new("a".to_string(), "{} {}".to_string()).is_none());
    let ok = FileInfo::new("a".to_string(), r#"{"k":"v"}"#.to_string()).unwrap();
    assert_eq!(ok.id(), "a");
    assert_eq!(ok.payload(), r#"{"k":"v"}"#);
}

#[test]
fn row_holds_id_and_payload() {
    let row = DbModel::from_info(&info("id-1", r#"{"offset":9}"#));
    assert_eq!(row.id, "id-1");
    assert_eq!(row.info, r#"{"offset":9}"#);
}

#[test]
fn write_replies_translate() {
    assert_eq!(write_result(true, WriteReply::Applied(1)), Ok(()));
    assert_eq!(write_result(true, WriteReply::DuplicateKey), Err(StorageError::Conflict));
    assert_eq!(write_result(false, WriteReply::Applied(0)), Err(StorageError::NotFound));
    assert_eq!(write_result(false, WriteReply::Applied(1)), Ok(()));
    assert_eq!(
        write_result(false, WriteReply::Unavailable),
        Err(StorageError::BackendUnavailable)
    );
    assert_eq!(remove_result(WriteReply::Applied(0)), Ok(()));
    assert_eq!(remove_result(WriteReply::Unavailable), Err(StorageError::BackendUnavailable));
}

#[test]
fn fetch_replies_translate() {
    assert_eq!(read_result("a".to_string(), FetchReply::Missing), Err(StorageError::NotFound));
    assert_eq!(
        read_result("a".to_string(), FetchReply::Unavailable),
        Err(StorageError::BackendUnavailable)
    );
    assert_eq!(
        read_result("a".to_string(), FetchReply::Found("{".to_string())),
        Err(StorageError::CorruptRecord)
    );
    assert_eq!(
        read_result("a".to_string(), FetchReply::Found("{}".to_string())),
        Ok(info("a", "{}"))
    );
}

#[test]
fn duplicate_key_messages_are_recognised() {
    assert!(is_duplicate_key_error("error returned from database: UNIQUE constraint failed: db_model.id"));
    assert!(is_duplicate_key_error("Duplicate entry 'a' for key 'PRIMARY'"));
    assert!(is_duplicate_key_error(
        "duplicate key value violates unique constraint \"db_model_pkey\""
    ));
    assert!(!is_duplicate_key_error("connection refused"));
    assert_eq!(
        write_reply_for_error("UNIQUE constraint failed: db_model.id"),
        WriteReply::DuplicateKey
    );
    assert_eq!(write_reply_for_error("pool timed out"), WriteReply::Unavailable);
}

#[test]
fn text_search_edges() {
    assert!(contains_text("abc", ""));
    assert!(contains_text("", ""));
    assert!(!contains_text("ab", "abc"));
    assert!(contains_text("xxabc", "abc"));
    assert!(!contains_text("abxc", "abc"));
    assert!(contains_text("héllo", "llo"));
}
