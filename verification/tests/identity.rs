use pysnaptest::counters::CounterTable;
use pysnaptest::errors::PytestInfoError;
use pysnaptest::pytest_info::{locate_from_exists, PytestInfo};
use pysnaptest::snapshot_info::{derive_base_name, SnapshotInfo};
use pysnaptest::snapshot_info::{
    allocate_then_peek_last, current_name_twice, peek_next_then_allocate,
};
use pysnaptest::strutil::prefix_before_char;

#[test]
fn test_into_pyinfo_happy_path() {
    let s = "tests/a/b/test_thing.py::test_a (call)";
    let pti: Result<PytestInfo, PytestInfoError> = PytestInfo::parse(s);
    let info = pti.unwrap();
    assert_eq!(info.test_path.as_str(), "tests/a/b/test_thing.py");
    assert_eq!(info.test_name.as_str(), "test_a");
}

#[test]
fn test_into_pyinfo_no_trailer() {
    let s = "tests/a/b/test_thing.py::test_a";
    let pti: Result<PytestInfo, PytestInfoError> = PytestInfo::parse(s);
    let info = pti.unwrap();
    assert_eq!(info.test_path.as_str(), "tests/a/b/test_thing.py");
    assert_eq!(info.test_name.as_str(), "test_a");
}

#[test]
fn test_into_pyinfo_failure_case() {
    let s = "tests/a/b/test_thing.py";
    let pti: Result<PytestInfo, PytestInfoError> = PytestInfo::parse(s);
    match pti {
        Err(PytestInfoError::CouldNotSplit(t)) => assert_eq!(t.as_str(), s),
        other => panic!("expected a split failure, got {other:?}"),
    }
}

#[test]
fn test_snapshot_info_overrides_from_pytest() {
    let snapshot_info = SnapshotInfo::from_pytest(
        Some("folder_path_override".to_string()),
        Some("snapshot_name_override".to_string()),
        false,
    )
    .unwrap();
    assert_eq!(snapshot_info.snapshot_folder().as_str(), "folder_path_override");
    assert!(snapshot_info.relative_test_file_path.is_none());
    assert!(!snapshot_info.allow_duplicates);
    let mut counters = CounterTable::new();
    assert_eq!(snapshot_info.snapshot_name(&mut counters).as_str(), "snapshot_name_override");
    assert_eq!(snapshot_info.last_snapshot_name(&counters).as_str(), "snapshot_name_override");
    assert_eq!(
        snapshot_info.next_snapshot_name(&counters).as_str(),
        "snapshot_name_override-2"
    );
    assert_eq!(snapshot_info.snapshot_name(&mut counters).as_str(), "snapshot_name_override-2");
    assert_eq!(
        snapshot_info.last_snapshot_name(&counters).as_str(),
        "snapshot_name_override-2"
    );
    assert_eq!(
        snapshot_info.next_snapshot_name(&counters).as_str(),
        "snapshot_name_override-3"
    );
}

#[test]
fn fresh_identity_counter_sequence() {
    let info = SnapshotInfo {
        snapshot_folder: "folder".to_string(),
        snapshot_name: "x".to_string(),
        relative_test_file_path: None,
        allow_duplicates: false,
    };
    let mut counters = CounterTable::new();
    assert_eq!(info.snapshot_name(&mut counters).as_str(), "x");
    assert_eq!(info.snapshot_name(&mut counters).as_str(), "x-2");
    assert_eq!(info.last_snapshot_name(&counters).as_str(), "x-2");
    assert_eq!(info.next_snapshot_name(&counters).as_str(), "x-3");
    assert_eq!(info.snapshot_name(&mut counters).as_str(), "x-3");
}

#[test]
fn allow_duplicates_never_advances() {
    let info = SnapshotInfo {
        snapshot_folder: "folder".to_string(),
        snapshot_name: "dup".to_string(),
        relative_test_file_path: None,
        allow_duplicates: true,
    };
    let mut counters = CounterTable::new();
    let first = info.snapshot_name(&mut counters);
    let second = info.snapshot_name(&mut counters);
    let third = info.snapshot_name(&mut counters);
    assert_eq!(first, second);
    assert_eq!(second, third);
    assert_eq!(first.as_str(), "dup");
    assert_eq!(info.next_snapshot_name(&counters).as_str(), "dup");

    let (a, b) = current_name_twice(&info, &mut counters);
    assert_eq!(a, b);
}

#[test]
fn peeks_agree_with_allocations() {
    let info = SnapshotInfo {
        snapshot_folder: "folder".to_string(),
        snapshot_name: "peeky".to_string(),
        relative_test_file_path: None,
        allow_duplicates: false,
    };
    let mut counters = CounterTable::new();
    let (allocated, last) = allocate_then_peek_last(&info, &mut counters);
    assert_eq!(allocated, last);
    assert_eq!(allocated.as_str(), "peeky");
    let (peeked, allocated) = peek_next_then_allocate(&info, &mut counters);
    assert_eq!(peeked, allocated);
    assert_eq!(peeked.as_str(), "peeky-2");
}

#[test]
fn counters_are_shared_across_identities() {
    let writer = SnapshotInfo {
        snapshot_folder: "folder".to_string(),
        snapshot_name: "shared".to_string(),
        relative_test_file_path: None,
        allow_duplicates: false,
    };
    let peeker = SnapshotInfo {
        snapshot_folder: "elsewhere".to_string(),
        snapshot_name: "shared".to_string(),
        relative_test_file_path: None,
        allow_duplicates: true,
    };
    let mut counters = CounterTable::new();
    assert_eq!(writer.snapshot_name(&mut counters).as_str(), "shared");
    assert_eq!(writer.snapshot_name(&mut counters).as_str(), "shared-2");
    assert_eq!(peeker.snapshot_name(&mut counters).as_str(), "shared-2");
    assert_eq!(peeker.last_snapshot_name(&counters).as_str(), "shared-2");
}

#[test]
fn end_to_end_identity_resolution() {
    let raw = "tests/a/b/test_thing.py::test_a (call)";
    let info = PytestInfo::parse(raw).unwrap();
    assert_eq!(info.test_path.as_str(), "tests/a/b/test_thing.py");
    assert_eq!(info.test_name.as_str(), "test_a");
    let base = derive_base_name(info.test_path.as_str(), info.test_name.as_str());
    assert_eq!(base.as_str(), "test_thing_test_a");
}

#[test]
fn from_resolved_builds_sibling_snapshot_folder() {
    let built = SnapshotInfo::from_resolved(
        "/home/user/proj/tests/test_mod.py",
        "tests/test_mod.py",
        "tests/test_mod.py",
        "test_case",
    )
    .unwrap();
    assert_eq!(built.snapshot_folder().as_str(), "/home/user/proj/tests/snapshots");
    assert_eq!(
        built.relative_test_file_path.as_deref(),
        Some("tests/test_mod.py")
    );
    assert!(!built.allow_duplicates);
    let mut counters = CounterTable::new();
    assert_eq!(built.snapshot_name(&mut counters).as_str(), "test_mod_test_case");
}

#[test]
fn from_resolved_requires_a_parent_directory() {
    let e = SnapshotInfo::from_resolved("noparent", "noparent", "noparent", "t").unwrap_err();
    assert_eq!(
        e.0.as_str(),
        "Invalid test_path: noparent, not yielding a parent directory"
    );
}

#[test]
fn missing_test_file_error() {
    let info = PytestInfo {
        test_path: "".to_string(),
        test_name: "t".to_string(),
    };
    let e = info.test_path().unwrap_err();
    assert_eq!(e, PytestInfoError::NoTestFile);
    assert_eq!(e.message().as_str(), "No test file found");
}

#[test]
fn split_failure_message_names_the_string() {
    let e = PytestInfo::parse("no separator here").unwrap_err();
    assert_eq!(
        e.message().as_str(),
        "Expected '::' to be in PYTEST_CURRENT_TEST string (no separator here)"
    );
}

#[test]
fn snapshot_paths_use_the_counter() {
    let info = SnapshotInfo {
        snapshot_folder: "folder".to_string(),
        snapshot_name: "pth".to_string(),
        relative_test_file_path: None,
        allow_duplicates: false,
    };
    let mut counters = CounterTable::new();
    assert_eq!(
        info.next_snapshot_path(Some("my::mod".to_string()), &counters).as_str(),
        "folder/my__mod__pth@pysnap.snap"
    );
    let _ = info.snapshot_name(&mut counters);
    let _ = info.snapshot_name(&mut counters);
    assert_eq!(
        info.last_snapshot_path(Some("my::mod".to_string()), &counters).as_str(),
        "folder/my__mod__pth-2@pysnap.snap"
    );
    assert_eq!(
        info.next_snapshot_path(None, &counters).as_str(),
        "folder/pysnaptest__pth-3@pysnap.snap"
    );
}

#[test]
fn test_path_prefers_the_literal_path() {
    // "." always exists, so the literal path is kept
    let info = PytestInfo {
        test_path: ".".to_string(),
        test_name: "t".to_string(),
    };
    assert_eq!(info.test_path().unwrap().as_str(), ".");
    assert_eq!(info.test_path_raw().as_str(), ".");
}

#[test]
fn test_path_falls_back_to_the_bare_file_name() {
    let info = PytestInfo {
        test_path: "no_such_directory_for_sure/test_mod.py".to_string(),
        test_name: "t".to_string(),
    };
    assert_eq!(info.test_path().unwrap().as_str(), "./test_mod.py");
}

#[test]
fn location_follows_the_probe_answer() {
    // an existing path is kept literally
    assert_eq!(
        locate_from_exists("tests/a/b/test_thing.py", true).unwrap().as_str(),
        "tests/a/b/test_thing.py"
    );
    // a missing path falls back to its bare file name under the current
    // directory
    assert_eq!(
        locate_from_exists("tests/a/b/test_thing.py", false).unwrap().as_str(),
        "./test_thing.py"
    );
    // a missing path with no usable final component names no test file
    assert_eq!(
        locate_from_exists("..", false).unwrap_err(),
        PytestInfoError::NoTestFile
    );
    assert_eq!(
        locate_from_exists("", false).unwrap_err(),
        PytestInfoError::NoTestFile
    );
}

#[test]
fn trailing_path_shapes_follow_the_component_walk() {
    // trailing separators and current-directory components are ignored,
    // as std's path components treat them
    let with_slash = PytestInfo {
        test_path: "no_such_directory_for_sure/test_mod.py/".to_string(),
        test_name: "t".to_string(),
    };
    assert_eq!(with_slash.test_path().unwrap().as_str(), "./test_mod.py");
    let with_dot = PytestInfo {
        test_path: "no_such_directory_for_sure/test_mod.py/.".to_string(),
        test_name: "t".to_string(),
    };
    assert_eq!(with_dot.test_path().unwrap().as_str(), "./test_mod.py");
    assert_eq!(
        derive_base_name("tests/test_thing.py//", "test_a").as_str(),
        "test_thing_test_a"
    );
    // a parent-directory component names no file
    let dotdot = PytestInfo {
        test_path: "no_such_directory_for_sure/..".to_string(),
        test_name: "t".to_string(),
    };
    assert_eq!(dotdot.test_path().unwrap_err(), PytestInfoError::NoTestFile);
}

#[test]
fn empty_identity_cannot_be_split() {
    match PytestInfo::parse("") {
        Err(PytestInfoError::CouldNotSplit(t)) => assert_eq!(t.as_str(), ""),
        other => panic!("expected a split failure, got {other:?}"),
    }
}

#[test]
fn context_resolution_fails_without_a_separator() {
    let err = SnapshotInfo::from_pytest_with_identity(
        Some("folder".to_string()),
        None,
        false,
        "identity without separator",
    )
    .unwrap_err();
    assert_eq!(
        err.0.as_str(),
        "Expected '::' to be in PYTEST_CURRENT_TEST string (identity without separator)"
    );
}

#[test]
fn override_names_fold_back_to_their_base() {
    assert_eq!(prefix_before_char("snapshot_name_override-2", '-').as_str(),
        "snapshot_name_override");
    assert_eq!(prefix_before_char("plain", '-').as_str(), "plain");
    assert_eq!(prefix_before_char("a-b-c", '-').as_str(), "a");
    assert_eq!(prefix_before_char("", '-').as_str(), "");
}

#[test]
fn the_largest_counter_value_still_renders() {
    let info = SnapshotInfo {
        snapshot_folder: "f".to_string(),
        snapshot_name: "big".to_string(),
        relative_test_file_path: None,
        allow_duplicates: false,
    };
    assert_eq!(
        info.snapshot_name_with_idx(u64::MAX).as_str(),
        "big-18446744073709551615"
    );
}

#[test]
fn name_override_is_truncated_to_its_base() {
    // the truncation applies on the context-resolving path; exercise the
    // helper the same way through a large index rendering instead
    let info = SnapshotInfo {
        snapshot_folder: "f".to_string(),
        snapshot_name: "nm".to_string(),
        relative_test_file_path: None,
        allow_duplicates: false,
    };
    assert_eq!(info.snapshot_name_with_idx(12).as_str(), "nm-12");
    assert_eq!(info.snapshot_name_with_idx(0).as_str(), "nm");
    assert_eq!(info.snapshot_name_with_idx(1).as_str(), "nm");
    assert_eq!(info.snapshot_name_with_idx(205).as_str(), "nm-205");
}
