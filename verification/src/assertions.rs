//! The assertion entry points: each allocates a snapshot name for the given
//! identity, builds the storage settings, and hands the value to the
//! storage collaborator. The tabular variant decodes CSV text through the
//! external decoder and prepends the header row to the data rows before
//! storing, preserving column order.

use vstd::prelude::*;
use vstd::string::*;
use crate::counters::CounterTable;
use crate::errors::SnapError;
use crate::redactions::RedactionRule;
use crate::snapshot_info::{
    spec_alloc_idx, spec_name_with_idx, spec_snapshot_path, SnapshotInfo,
};
use crate::store::{json_value_of, spec_rows_view, SnapshotStore, SpecContent};

verus! {

/// The redaction rules a caller handed in: none at all counts as the empty
/// rule set.
pub open spec fn spec_redactions_of(redactions: Option<Vec<RedactionRule>>)
    -> Seq<RedactionRule> {
    match redactions {
        Option::Some(rs) => rs@,
        Option::None => Seq::empty(),
    }
}

/// Asserts a structured value against the identity's next snapshot: a name
/// is allocated from the shared counters and the value is written as a
/// text snapshot at the derived path; without redactions the stored text
/// parses back to the value. A value the collaborator refuses leaves the
/// store untouched (the name allocation stands either way).
pub fn assert_json_snapshot<S: SnapshotStore>(
    test_info: &SnapshotInfo,
    store: &mut S,
    counters: &mut CounterTable,
    qualifier: &str,
    result: &serde_json::Value,
    redactions: Option<Vec<RedactionRule>>,
) -> (r: Result<(), SnapError>)
    requires
        test_info.allow_duplicates || old(counters).spec_get(test_info.snapshot_name@)
            < u64::MAX,
    ensures
        ({
            let base = test_info.snapshot_name@;
            let prev = old(counters).spec_get(base);
            let name = spec_name_with_idx(base, spec_alloc_idx(test_info.allow_duplicates,
                prev) as u64);
            let path = spec_snapshot_path(test_info.snapshot_folder@, qualifier@, name);
            &&& (forall|k: Seq<char>| #[trigger] final(counters).spec_get(k)
                == if !test_info.allow_duplicates && k == base {
                    (prev + 1) as u64
                } else {
                    old(counters).spec_get(k)
                })
            &&& r matches Ok(_) ==> exists|t: Seq<char>|
                #![trigger json_value_of(t)]
                final(store).snapshots() == old(store).snapshots().insert(path,
                    SpecContent::Text(t)) && (spec_redactions_of(redactions).len() == 0
                    ==> json_value_of(t) == Some(*result))
            &&& r matches Err(_) ==> final(store).snapshots() == old(store).snapshots()
            &&& final(store).tabular() == old(store).tabular()
        }),
{
    let name = test_info.snapshot_name(counters);
    let rules = match redactions {
        Some(rs) => rs,
        None => Vec::new(),
    };
    let settings = test_info.settings(rules);
    let path = test_info.snapshot_path_for(qualifier, name.as_str());
    store.write_value(path.as_str(), name.as_str(), result, &settings)
}

/// Asserts plain text against the identity's next snapshot: the text
/// stands, as handed over, under the freshly allocated name's path.
pub fn assert_snapshot<S: SnapshotStore>(
    test_info: &SnapshotInfo,
    store: &mut S,
    counters: &mut CounterTable,
    qualifier: &str,
    result: &str,
)
    requires
        test_info.allow_duplicates || old(counters).spec_get(test_info.snapshot_name@)
            < u64::MAX,
    ensures
        ({
            let base = test_info.snapshot_name@;
            let prev = old(counters).spec_get(base);
            let name = spec_name_with_idx(base, spec_alloc_idx(test_info.allow_duplicates,
                prev) as u64);
            let path = spec_snapshot_path(test_info.snapshot_folder@, qualifier@, name);
            &&& (forall|k: Seq<char>| #[trigger] final(counters).spec_get(k)
                == if !test_info.allow_duplicates && k == base {
                    (prev + 1) as u64
                } else {
                    old(counters).spec_get(k)
                })
            &&& final(store).snapshots() == old(store).snapshots().insert(path,
                SpecContent::Text(result@))
            &&& final(store).tabular() == old(store).tabular()
        }),
{
    let name = test_info.snapshot_name(counters);
    let settings = test_info.settings(Vec::new());
    let path = test_info.snapshot_path_for(qualifier, name.as_str());
    store.write_text(path.as_str(), name.as_str(), result, &settings);
}

/// Asserts bytes against the identity's next snapshot: the allocated name
/// gains the caller's file extension and the bytes are stored unchanged.
pub fn assert_binary_snapshot<S: SnapshotStore>(
    test_info: &SnapshotInfo,
    store: &mut S,
    counters: &mut CounterTable,
    qualifier: &str,
    extension: &str,
    result: Vec<u8>,
)
    requires
        test_info.allow_duplicates || old(counters).spec_get(test_info.snapshot_name@)
            < u64::MAX,
    ensures
        ({
            let base = test_info.snapshot_name@;
            let prev = old(counters).spec_get(base);
            let name = spec_name_with_idx(base, spec_alloc_idx(test_info.allow_duplicates,
                prev) as u64) + "."@ + extension@;
            let path = spec_snapshot_path(test_info.snapshot_folder@, qualifier@, name);
            &&& (forall|k: Seq<char>| #[trigger] final(counters).spec_get(k)
                == if !test_info.allow_duplicates && k == base {
                    (prev + 1) as u64
                } else {
                    old(counters).spec_get(k)
                })
            &&& final(store).snapshots() == old(store).snapshots().insert(path,
                SpecContent::Binary(result@))
            &&& final(store).tabular() == old(store).tabular()
        }),
{
    let name = test_info.snapshot_name(counters);
    let settings = test_info.settings(Vec::new());
    let mut bname = name;
    bname.append(".");
    bname.append(extension);
    proof {
        reveal_strlit(".");
    }
    let path = test_info.snapshot_path_for(qualifier, bname.as_str());
    store.write_binary(path.as_str(), bname.as_str(), &result, &settings);
}

/// What the CSV decoder yields for a text with a header row: the header's
/// fields and the data rows as structured values, or nothing when decoding
/// fails. The result is a function of the text alone.
pub uninterp spec fn csv_decoded_of(s: Seq<char>) -> Option<
    (Seq<serde_json::Value>, Seq<Vec<serde_json::Value>>),
>;

/// Relies on csv::ReaderBuilder and csv::Reader: decodes CSV text with a
/// header row into the header fields and the data rows, each field a
/// structured value, preserving order and raw text.
#[verifier::external_body]
fn decode_csv(text: &str) -> (r: Result<
    (Vec<serde_json::Value>, Vec<Vec<serde_json::Value>>),
    SnapError,
>)
    ensures
        match r {
            Ok(p) => csv_decoded_of(text@) == Some((p.0@, p.1@)),
            Err(_) => csv_decoded_of(text@) is None,
        },
{
    let mut rdr = csv::ReaderBuilder::new().from_reader(text.as_bytes());
    let header: Vec<serde_json::Value> = match rdr.headers() {
        Ok(h) => h.into_iter().map(serde_json::Value::from).collect(),
        Err(e) => return Err(SnapError(format!("{e}"))),
    };
    let records: Vec<Vec<serde_json::Value>> = match rdr.into_deserialize().collect() {
        Ok(rs) => rs,
        Err(e) => return Err(SnapError(format!("{e}"))),
    };
    Ok((header, records))
}

/// Puts the header row in front of the data rows, preserving both orders.
pub fn prepend_header(header: Vec<serde_json::Value>, records: Vec<Vec<serde_json::Value>>)
    -> (r: Vec<Vec<serde_json::Value>>)
    ensures
        r@ == seq![header] + records@,
{
    let ghost h = header;
    let ghost rs = records@;
    let mut out: Vec<Vec<serde_json::Value>> = Vec::new();
    out.push(header);
    let mut rest = records;
    out.append(&mut rest);
    proof {
        assert(out@ =~= seq![h] + rs);
    }
    out
}

/// Asserts CSV text against the identity's next snapshot: the text is
/// decoded, the header row is prepended to the data rows, and the combined
/// rows are stored as a text snapshot. Decoding failure is reported before
/// any name is allocated or anything is written.
pub fn assert_csv_snapshot<S: SnapshotStore>(
    test_info: &SnapshotInfo,
    store: &mut S,
    counters: &mut CounterTable,
    qualifier: &str,
    result: &str,
    redactions: Option<Vec<RedactionRule>>,
) -> (r: Result<(), SnapError>)
    requires
        test_info.allow_duplicates || old(counters).spec_get(test_info.snapshot_name@)
            < u64::MAX,
    ensures
        ({
            let base = test_info.snapshot_name@;
            let prev = old(counters).spec_get(base);
            let name = spec_name_with_idx(base, spec_alloc_idx(test_info.allow_duplicates,
                prev) as u64);
            let path = spec_snapshot_path(test_info.snapshot_folder@, qualifier@, name);
            match r {
                Ok(_) => {
                    &&& (forall|k: Seq<char>| #[trigger] final(counters).spec_get(k)
                        == if !test_info.allow_duplicates && k == base {
                            (prev + 1) as u64
                        } else {
                            old(counters).spec_get(k)
                        })
                    &&& exists|t: Seq<char>|
                        final(store).snapshots() == old(store).snapshots().insert(path,
                            SpecContent::Text(t))
                    &&& csv_decoded_of(result@) matches Some(hr)
                        && final(store).tabular() == old(store).tabular().insert(path,
                            seq![hr.0] + spec_rows_view(hr.1))
                },
                Err(_) => {
                    &&& csv_decoded_of(result@) is None
                    &&& final(store).snapshots() == old(store).snapshots()
                    &&& final(store).tabular() == old(store).tabular()
                    &&& (forall|k: Seq<char>| #[trigger] final(counters).spec_get(k)
                        == old(counters).spec_get(k))
                },
            }
        }),
{
    let decoded = match decode_csv(result) {
        Ok(p) => p,
        Err(e) => {
            return Err(e);
        },
    };
    let (header, records) = decoded;
    let ghost gh = header@;
    let ghost gr = records@;
    let rows = prepend_header(header, records);
    proof {
        assert(spec_rows_view(rows@) =~= seq![gh] + spec_rows_view(gr)) by {
            assert forall|i: int| 0 <= i < rows@.len() implies spec_rows_view(rows@)[i]
                == (seq![gh] + spec_rows_view(gr))[i] by {
                if i > 0 {
                    assert(rows@[i] == gr[i - 1]);
                }
            }
        }
    }
    let name = test_info.snapshot_name(counters);
    let rules = match redactions {
        Some(rs) => rs,
        None => Vec::new(),
    };
    let settings = test_info.settings(rules);
    let path = test_info.snapshot_path_for(qualifier, name.as_str());
    store.write_rows(path.as_str(), name.as_str(), &rows, &settings);
    Ok(())
}

} // verus!
