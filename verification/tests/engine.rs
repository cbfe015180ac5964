use std::cell::Cell;
use std::rc::Rc;

use pysnaptest::assertions::{
    assert_binary_snapshot, assert_csv_snapshot, assert_json_snapshot, assert_snapshot,
    prepend_header,
};
use pysnaptest::counters::CounterTable;
use pysnaptest::errors::SnapError;
use pysnaptest::mocks::{mock_invoke, mock_record_then_replay, MockCallable,
    RecordReplayBinding};
use pysnaptest::redactions::{RedactionArg, RedactionRule, RedactionType};
use pysnaptest::snapshot_info::SnapshotInfo;
use pysnaptest::store::{content_bytes, MemoryStore, SnapshotContent, SnapshotStore};

struct DoublingFn {
    calls: Rc<Cell<i32>>,
}

impl MockCallable for DoublingFn {
    fn invoke(&self, args: &serde_json::Value) -> Result<serde_json::Value, SnapError> {
        self.calls.set(self.calls.get() + 1);
        let i = args.as_i64().expect("integer argument");
        Ok(serde_json::Value::from(i * 2))
    }
}

struct FailingFn;

impl MockCallable for FailingFn {
    fn invoke(&self, _args: &serde_json::Value) -> Result<serde_json::Value, SnapError> {
        Err(SnapError("callable failed".to_string()))
    }
}

fn duplicate_identity(name: &str) -> SnapshotInfo {
    SnapshotInfo {
        snapshot_folder: "snapshots".to_string(),
        snapshot_name: name.to_string(),
        relative_test_file_path: None,
        allow_duplicates: true,
    }
}

#[test]
fn test_snapshot_json_or_mock_creates_and_reads_snapshot() {
    let input_1 = 4;

    // Shared counter to track how many times the function is called
    let call_count = Rc::new(Cell::new(0));
    let f = DoublingFn { calls: Rc::clone(&call_count) };

    let snapshot_info = duplicate_identity("test_create_snapshot_fn");
    let mut store = MemoryStore::new();
    let mut counters = CounterTable::new();
    let args = serde_json::Value::from(input_1);

    // First run: record mode, should call the function
    let result_1 = mock_invoke(
        &mut store, &mut counters, &f, &snapshot_info, "f", "pysnaptest", &args,
        Vec::new(), true,
    )
    .unwrap();
    assert_eq!(result_1.value, serde_json::Value::from(8));
    assert!(result_1.invoked);
    assert_eq!(call_count.get(), 1, "Function should have been called once during recording");

    // Second run: replay mode, should NOT call the function
    let result_2 = mock_invoke(
        &mut store, &mut counters, &f, &snapshot_info, "f", "pysnaptest", &args,
        Vec::new(), false,
    )
    .unwrap();
    assert_eq!(result_2.value, serde_json::Value::from(8));
    assert!(!result_2.invoked);
    assert_eq!(call_count.get(), 1, "Function should NOT have been called again during replay");
}

#[test]
fn record_then_replay_invokes_once() {
    let call_count = Rc::new(Cell::new(0));
    let f = DoublingFn { calls: Rc::clone(&call_count) };
    let info = duplicate_identity("idempotent");
    let mut store = MemoryStore::new();
    let mut counters = CounterTable::new();
    let args = serde_json::Value::from(21);
    let (first, second) = mock_record_then_replay(
        &mut store, &mut counters, &f, &info, "double", "pysnaptest", &args,
    )
    .unwrap();
    assert!(first.invoked);
    assert!(!second.invoked);
    assert_eq!(first.value, second.value);
    assert_eq!(first.value, serde_json::Value::from(42));
    assert_eq!(call_count.get(), 1);
}

#[test]
fn binding_records_then_replays() {
    let call_count = Rc::new(Cell::new(0));
    let binding = RecordReplayBinding {
        callable: DoublingFn { calls: Rc::clone(&call_count) },
        fn_name: "double".to_string(),
        snapshot_info: duplicate_identity("bound"),
        record: false,
        redactions: Vec::new(),
    };
    let mut store = MemoryStore::new();
    let mut counters = CounterTable::new();
    let args = serde_json::Value::from(5);
    // first call: no snapshot yet, so the callable runs
    let first = binding.invoke(&mut store, &mut counters, "pysnaptest", &args).unwrap();
    assert!(first.invoked);
    assert_eq!(first.value, serde_json::Value::from(10));
    // second call: replayed from the store, the callable untouched
    let second = binding.invoke(&mut store, &mut counters, "pysnaptest", &args).unwrap();
    assert!(!second.invoked);
    assert_eq!(second.value, serde_json::Value::from(10));
    assert_eq!(call_count.get(), 1);
}

#[test]
fn request_snapshot_is_written_even_on_failure() {
    let info = duplicate_identity("failing");
    let mut store = MemoryStore::new();
    let mut counters = CounterTable::new();
    let args = serde_json::Value::from(7);
    let err = mock_invoke(
        &mut store, &mut counters, &FailingFn, &info, "g", "pysnaptest", &args,
        Vec::new(), true,
    )
    .unwrap_err();
    assert_eq!(err.message().as_str(), "callable failed");
    let req_path = "snapshots/pysnaptest__failing_g-request@pysnap.snap";
    assert!(store.contains(req_path));
    match store.read(req_path) {
        SnapshotContent::Text(t) => assert_eq!(t.as_str(), "7"),
        SnapshotContent::Binary(_) => panic!("request snapshot must be text"),
    }
    // no result snapshot was written
    assert!(!store.contains("snapshots/pysnaptest__failing_g@pysnap.snap"));
}

#[test]
fn replaying_binary_content_is_rejected() {
    let info = duplicate_identity("binmock");
    let mut store = MemoryStore::new();
    let mut counters = CounterTable::new();
    let res_path = "snapshots/pysnaptest__binmock_h@pysnap.snap";
    let settings = info.settings(Vec::new());
    store.write_binary(res_path, "binmock_h", &vec![1u8, 2, 3], &settings);
    let args = serde_json::Value::from(1);
    let call_count = Rc::new(Cell::new(0));
    let f = DoublingFn { calls: Rc::clone(&call_count) };
    let err = mock_invoke(
        &mut store, &mut counters, &f, &info, "h", "pysnaptest", &args, Vec::new(), false,
    )
    .unwrap_err();
    assert!(err.0.contains("is binary, which is not supported for deserialization"));
    assert_eq!(call_count.get(), 0);
}

#[test]
fn value_round_trip_through_store() {
    let mut store = MemoryStore::new();
    let info = duplicate_identity("roundtrip");
    let settings = info.settings(Vec::new());
    let mut map = serde_json::Map::new();
    map.insert("answer".to_string(), serde_json::Value::from(41));
    map.insert(
        "names".to_string(),
        serde_json::Value::Array(vec![
            serde_json::Value::from("ada"),
            serde_json::Value::from("grace"),
        ]),
    );
    let value = serde_json::Value::Object(map);
    let got = pysnaptest::mocks::snapshot_round_trip(
        &mut store, "snapshots/rt@pysnap.snap", "rt", &value, &settings,
    )
    .unwrap();
    assert_eq!(got, value);
}

#[test]
fn json_assertion_allocates_and_stores() {
    let info = SnapshotInfo {
        snapshot_folder: "folder".to_string(),
        snapshot_name: "ja".to_string(),
        relative_test_file_path: Some("tests/t.py".to_string()),
        allow_duplicates: false,
    };
    let mut store = MemoryStore::new();
    let mut counters = CounterTable::new();
    let value = serde_json::Value::from(3.5);
    assert_json_snapshot(&info, &mut store, &mut counters, "m", &value, None).unwrap();
    assert_json_snapshot(&info, &mut store, &mut counters, "m", &value, None).unwrap();
    assert!(store.contains("folder/m__ja@pysnap.snap"));
    assert!(store.contains("folder/m__ja-2@pysnap.snap"));
    match store.read("folder/m__ja@pysnap.snap") {
        SnapshotContent::Text(t) => {
            assert_eq!(serde_json::from_str::<serde_json::Value>(&t).unwrap(), value)
        },
        SnapshotContent::Binary(_) => panic!("json snapshot must be text"),
    }
}

#[test]
fn text_and_binary_assertions_store_their_payloads() {
    let info = duplicate_identity("plain");
    let mut store = MemoryStore::new();
    let mut counters = CounterTable::new();
    assert_snapshot(&info, &mut store, &mut counters, "m", "hello there");
    match store.read("snapshots/m__plain@pysnap.snap") {
        SnapshotContent::Text(t) => assert_eq!(t.as_str(), "hello there"),
        SnapshotContent::Binary(_) => panic!("text snapshot must be text"),
    }

    let binfo = duplicate_identity("img");
    assert_binary_snapshot(&binfo, &mut store, &mut counters, "m", "png", vec![9u8, 8, 7]);
    match store.read("snapshots/m__img.png@pysnap.snap") {
        SnapshotContent::Binary(b) => assert_eq!(b, vec![9u8, 8, 7]),
        SnapshotContent::Text(_) => panic!("binary snapshot must be binary"),
    }
}

#[test]
fn content_bytes_covers_both_payload_kinds() {
    let text = SnapshotContent::Text("hi".to_string());
    assert_eq!(content_bytes(&text), b"hi".to_vec());
    let binary = SnapshotContent::Binary(vec![0u8, 255]);
    assert_eq!(content_bytes(&binary), vec![0u8, 255]);
}

#[test]
fn csv_assertion_prepends_the_header_row() {
    let info = duplicate_identity("table");
    let mut store = MemoryStore::new();
    let mut counters = CounterTable::new();
    let csv_text = "a,b\n1,x\n2,y\n";
    assert_csv_snapshot(&info, &mut store, &mut counters, "m", csv_text, None).unwrap();
    let expected: Vec<Vec<serde_json::Value>> = vec![
        vec![serde_json::Value::from("a"), serde_json::Value::from("b")],
        vec![serde_json::Value::from(1), serde_json::Value::from("x")],
        vec![serde_json::Value::from(2), serde_json::Value::from("y")],
    ];
    match store.read("snapshots/m__table@pysnap.snap") {
        SnapshotContent::Text(t) => {
            assert_eq!(t.as_str(), serde_json::to_string(&expected).unwrap().as_str())
        },
        SnapshotContent::Binary(_) => panic!("csv snapshot must be text"),
    }
}

#[test]
fn malformed_csv_is_rejected() {
    let info = duplicate_identity("badtable");
    let mut store = MemoryStore::new();
    let mut counters = CounterTable::new();
    let err = assert_csv_snapshot(&info, &mut store, &mut counters, "m", "a,b\n1\n", None)
        .unwrap_err();
    assert!(!err.0.is_empty());
    assert!(!store.contains("snapshots/m__badtable@pysnap.snap"));
}

#[test]
fn header_prepending_preserves_order() {
    let header = vec![serde_json::Value::from("h1"), serde_json::Value::from("h2")];
    let rows = vec![
        vec![serde_json::Value::from(1)],
        vec![serde_json::Value::from(2)],
    ];
    let combined = prepend_header(header.clone(), rows.clone());
    assert_eq!(combined.len(), 3);
    assert_eq!(combined[0], header);
    assert_eq!(combined[1], rows[0]);
    assert_eq!(combined[2], rows[1]);
}

#[test]
fn redaction_arguments_classify_structurally() {
    assert_eq!(
        RedactionType::from_arg(RedactionArg::Absent).unwrap(),
        RedactionType::Sorted
    );
    assert_eq!(
        RedactionType::from_arg(RedactionArg::Uint(2)).unwrap(),
        RedactionType::Rounded(2)
    );
    assert_eq!(
        RedactionType::from_arg(RedactionArg::Text("<redacted>".to_string())).unwrap(),
        RedactionType::Standard("<redacted>".to_string())
    );
    let err = RedactionType::from_arg(RedactionArg::Other).unwrap_err();
    assert_eq!(err.0.as_str(), "Unable to extract RedactionType");
}

#[test]
fn every_strategy_yields_a_library_redaction() {
    // conversion into the snapshot library's redaction type must accept
    // all three strategies
    let _ = RedactionType::Sorted.to_redaction();
    let _ = RedactionType::Rounded(2).to_redaction();
    let _ = RedactionType::Standard("<redacted>".to_string()).to_redaction();
    let rule = RedactionRule {
        selector: ".time".to_string(),
        strategy: RedactionType::Standard("<redacted>".to_string()),
    };
    assert_eq!(rule.selector.as_str(), ".time");
}
