use mk_test_lambda::mocks::{MockDatabase, MockStorage};
use mk_test_lambda::models::{RequestPayload, ResponsePayload};
use mk_test_lambda::ports::{DatabasePort, ErrorKind, PortError, StoragePort};
use mk_test_lambda::render::{
    compose_response, decimal_text, render_item_outcome, render_object_outcome,
};
use mk_test_lambda::service::{
    finish_request, is_health_check, lookup_key, plan_request, resolve_message, RequestPlan,
    RequestProcessor,
};
use mk_test_lambda::string_map::StringMap;

fn payload_with(message: Option<&str>) -> Option<RequestPayload> {
    Some(RequestPayload { message: message.map(|m| m.to_string()), data: None })
}

#[test]
fn test_process_request_with_payload() {
    let db = Box::new(MockDatabase::new());
    let storage = Box::new(MockStorage::new());
    let processor = RequestProcessor::new(db, storage);

    let payload = Some(RequestPayload { message: Some("Test message".to_string()), data: None });

    let result = processor.process_request(payload, &StringMap::new(), &StringMap::new());
    assert!(result.is_ok());
    assert!(result.unwrap().contains("Test message"));
}

#[test]
fn test_process_request_without_payload() {
    let db = Box::new(MockDatabase::new());
    let storage = Box::new(MockStorage::new());
    let processor = RequestProcessor::new(db, storage);

    let result = processor.process_request(None, &StringMap::new(), &StringMap::new());
    assert!(result.is_ok());
    assert!(result.unwrap().contains("No payload provided"));
}

#[test]
fn test_health_check() {
    let db = Box::new(MockDatabase::new());
    let storage = Box::new(MockStorage::new());
    let processor = RequestProcessor::new(db, storage);

    let mut query_params = StringMap::new();
    query_params.insert("health".to_string(), "true".to_string());

    let result = processor.process_request(None, &query_params, &StringMap::new());
    assert!(result.is_ok());
    assert_eq!(result.unwrap(), "Service is healthy");
}

#[test]
fn test_process_request_with_database_item() {
    let mut item = StringMap::new();
    item.insert("name".to_string(), "test-item".to_string());

    let db = Box::new(MockDatabase::new().with_item("demo-table", "demo-key", item));
    let storage = Box::new(MockStorage::new());
    let processor = RequestProcessor::new(db, storage);

    let payload = Some(RequestPayload { message: Some("Test".to_string()), data: None });

    let result = processor.process_request(payload, &StringMap::new(), &StringMap::new());
    assert!(result.is_ok());
}

#[test]
fn test_process_request_with_storage_object() {
    let db = Box::new(MockDatabase::new());
    let storage = Box::new(MockStorage::new().with_object(
        "demo-bucket",
        "demo-object.txt",
        b"test data".to_vec(),
    ));
    let processor = RequestProcessor::new(db, storage);

    let payload = Some(RequestPayload { message: Some("Test".to_string()), data: None });

    let result = processor.process_request(payload, &StringMap::new(), &StringMap::new());
    assert!(result.is_ok());
}

#[test]
fn test_mock_database() {
    let mut item = StringMap::new();
    item.insert("name".to_string(), "test".to_string());

    let db = MockDatabase::new().with_item("test-table", "test-key", item.clone());

    let mut key = StringMap::new();
    key.insert("id".to_string(), "test-key".to_string());

    let result = db.get_item("test-table", key).unwrap();
    assert!(result.is_some());
    assert_eq!(result.unwrap().get("name").unwrap(), "test");
}

#[test]
fn test_mock_storage() {
    let data = b"test data".to_vec();
    let storage = MockStorage::new().with_object("test-bucket", "test-key", data.clone());

    let result = storage.get_object("test-bucket", "test-key").unwrap();
    assert_eq!(result, data);
}

#[test]
fn test_mock_storage_not_found() {
    let storage = MockStorage::new();
    let result = storage.get_object("test-bucket", "missing-key");
    assert!(result.is_err());
}

#[test]
fn absent_payload_resolves_to_note() {
    assert_eq!(resolve_message(None), "No payload provided");
}

#[test]
fn payload_without_message_resolves_to_note() {
    assert_eq!(resolve_message(payload_with(None)), "No message provided");
}

#[test]
fn payload_message_is_kept() {
    assert_eq!(resolve_message(payload_with(Some("hi there"))), "hi there");
    assert_eq!(resolve_message(payload_with(Some(""))), "");
}

#[test]
fn health_check_needs_exact_true() {
    let mut q = StringMap::new();
    q.insert("health".to_string(), "true".to_string());
    assert!(is_health_check(&q));
    let mut q = StringMap::new();
    q.insert("health".to_string(), "True".to_string());
    assert!(!is_health_check(&q));
    assert!(!is_health_check(&StringMap::new()));
    let mut q = StringMap::new();
    q.insert("health".to_string(), "false".to_string());
    q.insert("health".to_string(), "true".to_string());
    assert!(is_health_check(&q));
}

#[test]
fn health_check_plans_no_lookup() {
    let mut q = StringMap::new();
    q.insert("health".to_string(), "true".to_string());
    match plan_request(payload_with(Some("x")), &q, "t", "b") {
        RequestPlan::Reply(s) => assert_eq!(s, "Service is healthy"),
        RequestPlan::Lookup(_) => panic!("a health check looks nothing up"),
    }
}

#[test]
fn other_requests_plan_both_lookups() {
    match plan_request(None, &StringMap::new(), "orders", "files") {
        RequestPlan::Reply(_) => panic!("expected lookups"),
        RequestPlan::Lookup(l) => {
            assert_eq!(l.message, "No payload provided");
            assert_eq!(l.table_name, "orders");
            assert_eq!(l.bucket, "files");
            assert_eq!(l.object_key, "demo-object.txt");
            assert_eq!(l.item_key.first_value(), "1111");
            assert_eq!(l.item_key.get("segment").unwrap(), "10");
            assert_eq!(l.item_key.len(), 2);
        }
    }
}

#[test]
fn seeded_record_is_rendered() {
    let mut item = StringMap::new();
    item.insert("name".to_string(), "test-item".to_string());
    let db = MockDatabase::new().with_item("demo-table", "1111", item);
    let processor = RequestProcessor::new(db, MockStorage::new());
    let out = processor
        .process_request(payload_with(Some("Test")), &StringMap::new(), &StringMap::new())
        .unwrap();
    assert!(out.contains("DynamoDB Item Found:\n{\n  \"name\": \"test-item\"\n}"));
    assert!(!out.contains("Item not found"));
}

#[test]
fn unseeded_record_is_not_found() {
    let mut item = StringMap::new();
    item.insert("name".to_string(), "test-item".to_string());
    let db = MockDatabase::new().with_item("demo-table", "demo-key", item);
    let processor = RequestProcessor::new(db, MockStorage::new());
    let out = processor.process_request(None, &StringMap::new(), &StringMap::new()).unwrap();
    assert!(out.contains("DynamoDB: Item not found"));
}

struct FailingDatabase;

impl DatabasePort for FailingDatabase {
    fn get_item(&self, _table_name: &str, _key: StringMap) -> Result<Option<StringMap>, PortError> {
        Err(PortError::new(ErrorKind::Backend, "connection refused".to_string()))
    }

    fn put_item(&self, _table_name: &str, _item: StringMap) -> Result<(), PortError> {
        Err(PortError::new(ErrorKind::Backend, "connection refused".to_string()))
    }
}

#[test]
fn database_error_is_folded_into_text() {
    let processor = RequestProcessor::new(FailingDatabase, MockStorage::new());
    let out = processor.process_request(None, &StringMap::new(), &StringMap::new());
    assert!(out.is_ok());
    assert!(out.unwrap().contains("DynamoDB Error: connection refused"));
}

#[test]
fn seeded_object_is_rendered_with_size() {
    let storage =
        MockStorage::new().with_object("demo-bucket", "demo-object.txt", b"test data".to_vec());
    let processor = RequestProcessor::new(MockDatabase::new(), storage);
    let out = processor.process_request(None, &StringMap::new(), &StringMap::new()).unwrap();
    assert!(out.contains("S3 Object Found (demo-object.txt, 9 bytes)\nContent:\ntest data"));
}

#[test]
fn unseeded_object_is_an_error() {
    let processor = RequestProcessor::new(MockDatabase::new(), MockStorage::new());
    let out = processor.process_request(None, &StringMap::new(), &StringMap::new());
    assert!(out.is_ok());
    assert!(out.unwrap().contains("S3 Error: Object not found"));
}

#[test]
fn missing_object_reports_not_found_kind() {
    let err = MockStorage::new().get_object("b", "k").unwrap_err();
    assert_eq!(err.kind, ErrorKind::NotFound);
    assert_eq!(err.message, "Object not found");
}

#[test]
fn processing_twice_gives_the_same_text() {
    let mut item = StringMap::new();
    item.insert("a".to_string(), "1".to_string());
    let db = MockDatabase::new().with_item("demo-table", "1111", item);
    let storage = MockStorage::new().with_object("demo-bucket", "demo-object.txt", vec![104, 105]);
    let processor = RequestProcessor::new(Box::new(db), Box::new(storage));
    let first = processor.process_request(payload_with(Some("m")), &StringMap::new(), &StringMap::new());
    let second = processor.process_request(payload_with(Some("m")), &StringMap::new(), &StringMap::new());
    assert_eq!(first.unwrap(), second.unwrap());
}

#[test]
fn end_to_end_message_with_empty_doubles() {
    let processor = RequestProcessor::new(Box::new(MockDatabase::new()), Box::new(MockStorage::new()));
    let out = processor
        .process_request(payload_with(Some("Test message")), &StringMap::new(), &StringMap::new())
        .unwrap();
    assert_eq!(
        out,
        "Hello from Rust Lambda! Received message: Test message\n\n--- AWS Services Info ---\n\n\
         DynamoDB: Item not found\n\nS3 Error: Object not found\n\n\
         Database and storage services invoked successfully."
    );
}

#[test]
fn end_to_end_health_check() {
    let processor = RequestProcessor::new(Box::new(MockDatabase::new()), Box::new(MockStorage::new()));
    let mut q = StringMap::new();
    q.insert("health".to_string(), "true".to_string());
    let out = processor.process_request(None, &q, &StringMap::new()).unwrap();
    assert_eq!(out, "Service is healthy");
}

#[test]
fn decimal_text_writes_digits() {
    assert_eq!(decimal_text(0), "0");
    assert_eq!(decimal_text(9), "9");
    assert_eq!(decimal_text(10), "10");
    assert_eq!(decimal_text(4096), "4096");
    assert_eq!(decimal_text(usize::MAX), usize::MAX.to_string());
}

#[test]
fn invalid_utf8_is_replaced() {
    let out = render_object_outcome("k", &Ok(vec![0x61, 0xff, 0x62]));
    assert_eq!(out, "S3 Object Found (k, 3 bytes)\nContent:\na\u{FFFD}b");
}

#[test]
fn empty_object_is_rendered() {
    let out = render_object_outcome("k", &Ok(Vec::new()));
    assert_eq!(out, "S3 Object Found (k, 0 bytes)\nContent:\n");
}

#[test]
fn record_renders_as_sorted_json() {
    let mut record = StringMap::new();
    record.insert("z".to_string(), "last".to_string());
    record.insert("a".to_string(), "first \"q\"".to_string());
    let out = render_item_outcome(&Ok(Some(record)));
    assert_eq!(out, "DynamoDB Item Found:\n{\n  \"a\": \"first \\\"q\\\"\",\n  \"z\": \"last\"\n}");
}

#[test]
fn item_outcomes_render() {
    assert_eq!(render_item_outcome(&Ok(None)), "DynamoDB: Item not found");
    let e = PortError::new(ErrorKind::Backend, "boom".to_string());
    assert_eq!(render_item_outcome(&Err(e)), "DynamoDB Error: boom");
    let e = PortError::new(ErrorKind::NotFound, "gone".to_string());
    assert_eq!(render_object_outcome("k", &Err(e)), "S3 Error: gone");
}

#[test]
fn compose_joins_sections_in_order() {
    assert_eq!(
        compose_response("m", "I", "O"),
        "Hello from Rust Lambda! Received message: m\n\n--- AWS Services Info ---\n\nI\n\nO\n\n\
         Database and storage services invoked successfully."
    );
}

#[test]
fn finish_uses_plan_message_and_key() {
    match plan_request(payload_with(None), &StringMap::new(), "t", "b") {
        RequestPlan::Lookup(l) => {
            let out = finish_request(&l, Ok(None), Ok(b"x".to_vec()));
            assert!(out.starts_with("Hello from Rust Lambda! Received message: No message provided\n"));
            assert!(out.contains("S3 Object Found (demo-object.txt, 1 bytes)\nContent:\nx"));
        }
        RequestPlan::Reply(_) => panic!("expected lookups"),
    }
}

#[test]
fn string_map_insert_replaces_in_place() {
    let mut m = StringMap::new();
    m.insert("k".to_string(), "1".to_string());
    m.insert("j".to_string(), "2".to_string());
    m.insert("k".to_string(), "3".to_string());
    assert_eq!(m.len(), 2);
    assert_eq!(m.first_value(), "3");
    assert_eq!(m.get("k").unwrap(), "3");
    assert_eq!(m.get("j").unwrap(), "2");
    assert!(m.get("x").is_none());
    assert_eq!(StringMap::new().first_value(), "");
}

#[test]
fn lookup_key_is_fixed() {
    let key = lookup_key();
    assert_eq!(key.first_value(), "1111");
    assert_eq!(key.get("order_id").unwrap(), "1111");
}

#[test]
fn later_seed_replaces_earlier() {
    let db = MockDatabase::new();
    let mut a = StringMap::new();
    a.insert("v".to_string(), "old".to_string());
    let mut b = StringMap::new();
    b.insert("v".to_string(), "new".to_string());
    let db = db.with_item("t", "k", a).with_item("t", "k", b);
    let mut key = StringMap::new();
    key.insert("id".to_string(), "k".to_string());
    let got = db.get_item("t", key).unwrap().unwrap();
    assert_eq!(got.get("v").unwrap(), "new");
    assert!(db.put_item("t", StringMap::new()).is_ok());
    assert!(MockStorage::new().put_object("b", "k", vec![1]).is_ok());
}

#[test]
fn response_envelopes() {
    let ok = ResponsePayload::success("done".to_string(), "1970-01-01T00:00:00Z".to_string());
    assert_eq!(ok.status, "success");
    assert_eq!(ok.message, "done");
    assert!(ok.data.is_none());
    let err = ResponsePayload::error("bad".to_string(), "t".to_string());
    assert_eq!(err.status, "error");
    assert_eq!(err.timestamp, "t");
}

struct UnreachableDatabase;

impl DatabasePort for UnreachableDatabase {
    fn get_item(&self, _table_name: &str, _key: StringMap) -> Result<Option<StringMap>, PortError> {
        panic!("the key-value store was called")
    }

    fn put_item(&self, _table_name: &str, _item: StringMap) -> Result<(), PortError> {
        panic!("the key-value store was called")
    }
}

struct UnreachableStorage;

impl StoragePort for UnreachableStorage {
    fn get_object(&self, _bucket: &str, _key: &str) -> Result<Vec<u8>, PortError> {
        panic!("the blob store was called")
    }

    fn put_object(&self, _bucket: &str, _key: &str, _body: Vec<u8>) -> Result<(), PortError> {
        panic!("the blob store was called")
    }
}

#[test]
fn health_check_touches_no_store() {
    let processor = RequestProcessor::new(UnreachableDatabase, UnreachableStorage);
    let mut q = StringMap::new();
    q.insert("health".to_string(), "true".to_string());
    let out = processor.process_request(payload_with(Some("ignored")), &q, &StringMap::new());
    assert_eq!(out.unwrap(), "Service is healthy");
}

#[test]
fn processor_looks_up_in_given_targets() {
    let mut item = StringMap::new();
    item.insert("k".to_string(), "v".to_string());
    let db = MockDatabase::new().with_item("orders", "1111", item);
    let storage = MockStorage::new().with_object("files", "demo-object.txt", b"abc".to_vec());
    let processor =
        RequestProcessor::with_targets(db, storage, "orders".to_string(), "files".to_string());
    let out = processor.process_request(None, &StringMap::new(), &StringMap::new()).unwrap();
    assert!(out.contains("DynamoDB Item Found:\n{\n  \"k\": \"v\"\n}"));
    assert!(out.contains("S3 Object Found (demo-object.txt, 3 bytes)\nContent:\nabc"));
}

#[test]
fn double_writes_succeed_and_change_nothing() {
    let mut item = StringMap::new();
    item.insert("name".to_string(), "kept".to_string());
    let db = MockDatabase::new().with_item("t", "k", item);
    let mut key = StringMap::new();
    key.insert("id".to_string(), "k".to_string());
    let mut other = StringMap::new();
    other.insert("name".to_string(), "written".to_string());
    assert!(db.put_item("t", other).is_ok());
    let got = db.get_item("t", key).unwrap().unwrap();
    assert_eq!(got.get("name").unwrap(), "kept");

    let storage = MockStorage::new().with_object("b", "k", vec![1, 2]);
    assert!(storage.put_object("b", "k", vec![9]).is_ok());
    assert_eq!(storage.get_object("b", "k").unwrap(), vec![1, 2]);
    assert!(storage.put_object("b", "new", vec![9]).is_ok());
    assert!(storage.get_object("b", "new").is_err());
}
