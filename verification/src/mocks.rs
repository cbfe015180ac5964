//! The record/replay engine. Each invocation of a wrapped callable derives
//! the snapshot identity owned by that callable, always (re)writes a request
//! snapshot of the arguments for audit, and then either executes the
//! callable and records its result (when recording is forced or no result
//! snapshot exists yet) or replays the persisted result without invoking
//! the callable.

use vstd::prelude::*;
use vstd::string::*;
use crate::counters::CounterTable;
use crate::errors::SnapError;
use crate::redactions::RedactionRule;
use crate::snapshot_info::{
    spec_alloc_idx, spec_name_with_idx, spec_snapshot_path, SnapshotInfo, SnapshotSettings,
};
use crate::store::{json_value_of, parse_json, SnapshotContent, SnapshotStore, SpecContent};
use crate::strutil;
use crate::strutil::{spec_digit_char, spec_u64_dec};

verus! {

/// A wrapped callable: one invocation maps an argument value to a result
/// value or an error. Implementations live with the callers — a local
/// function, or an adapter for a callable crossing a language boundary —
/// and nothing is assumed of what they return.
pub trait MockCallable {
    /// Invokes the wrapped callable on the given arguments.
    fn invoke(&self, args: &serde_json::Value) -> Result<serde_json::Value, SnapError>;
}

/// What one engine invocation produced: the value handed back to the
/// caller, and whether the wrapped callable was actually invoked (record
/// path) or the value came from a persisted snapshot (replay path).
#[derive(Debug)]
pub struct MockOutcome {
    pub value: serde_json::Value,
    pub invoked: bool,
}

/// The base name owned by a wrapped function: the identity's base name with
/// the function's own suffix.
pub open spec fn spec_mock_base(info_name: Seq<char>, fn_name: Seq<char>) -> Seq<char> {
    info_name + "_"@ + fn_name
}

/// Whether `c` is a decimal digit character.
pub open spec fn is_digit_char(c: char) -> bool {
    c == '0' || c == '1' || c == '2' || c == '3' || c == '4' || c == '5' || c == '6'
        || c == '7' || c == '8' || c == '9'
}

proof fn lemma_u64_dec_digits(n: nat)
    ensures
        spec_u64_dec(n).len() >= 1,
        forall|i: int| 0 <= i < spec_u64_dec(n).len() ==> is_digit_char(#[trigger] spec_u64_dec(
            n,
        )[i]),
    decreases n,
{
    if n < 10 {
        assert(is_digit_char(spec_digit_char(n)));
    } else {
        lemma_u64_dec_digits(n / 10);
        assert(is_digit_char(spec_digit_char(n % 10)));
        assert forall|i: int| 0 <= i < spec_u64_dec(n).len() implies is_digit_char(
            #[trigger] spec_u64_dec(n)[i],
        ) by {
            if i < spec_u64_dec(n / 10).len() {
                assert(spec_u64_dec(n)[i] == spec_u64_dec(n / 10)[i]);
            } else {
                assert(spec_u64_dec(n)[i] == spec_digit_char(n % 10));
            }
        }
    }
}

/// Two texts that agree on a shared prefix and suffix agree on the middle.
proof fn lemma_mid_injective(p: Seq<char>, a: Seq<char>, b: Seq<char>, q: Seq<char>)
    requires
        p + a + q == p + b + q,
    ensures
        a == b,
{
    assert(a.len() == b.len()) by {
        assert((p + a + q).len() == p.len() + a.len() + q.len());
        assert((p + b + q).len() == p.len() + b.len() + q.len());
        assert((p + a + q).len() == (p + b + q).len());
    }
    assert forall|i: int| 0 <= i < a.len() implies a[i] == b[i] by {
        assert((p + a + q)[p.len() + i] == a[i]);
        assert((p + b + q)[p.len() + i] == b[i]);
    }
    assert(a =~= b);
}

/// A disambiguated name with the request suffix never collides with a
/// disambiguated name: the suffix starts outside the digit alphabet.
proof fn lemma_name_request_distinct(base: Seq<char>, i1: u64, i2: u64)
    ensures
        spec_name_with_idx(base, i1) + "-request"@ != spec_name_with_idx(base, i2),
{
    reveal_strlit("-request");
    let r = "-request"@;
    let n1 = spec_name_with_idx(base, i1);
    let n2 = spec_name_with_idx(base, i2);
    let l = n1 + r;
    assert(r.len() == 8);
    assert(r[0] == '-' && r[1] == 'r');
    if i2 == 0 || i2 == 1 {
        assert(l.len() > n2.len());
    } else {
        let d2 = spec_u64_dec(i2 as nat);
        lemma_u64_dec_digits(i2 as nat);
        if i1 == 0 || i1 == 1 {
            if l.len() == n2.len() {
                let j: int = base.len() as int + 1;
                assert(l[j] == r[1]);
                assert(n2[j] == d2[0]);
                assert(l[j] != n2[j]);
            }
        } else {
            let d1 = spec_u64_dec(i1 as nat);
            lemma_u64_dec_digits(i1 as nat);
            if l.len() == n2.len() {
                let j: int = base.len() as int + 1 + d1.len() as int;
                assert(l[j] == r[0]);
                assert(n2[j] == d2[d1.len() as int]);
                assert(l[j] != n2[j]);
            }
        }
    }
}

/// Distinct names give distinct snapshot paths under one folder and
/// qualifier.
proof fn lemma_snapshot_path_injective(folder: Seq<char>, qualifier: Seq<char>, n1: Seq<char>,
    n2: Seq<char>)
    requires
        n1 != n2,
    ensures
        spec_snapshot_path(folder, qualifier, n1) != spec_snapshot_path(folder, qualifier, n2),
{
    let rep = strutil::spec_replace_dcolon(qualifier);
    let suf = "@pysnap.snap"@;
    let p1 = spec_snapshot_path(folder, qualifier, n1);
    let p2 = spec_snapshot_path(folder, qualifier, n2);
    if folder.len() == 0 {
        let p = rep + "__"@;
        assert(p1 =~= p + n1 + suf);
        assert(p2 =~= p + n2 + suf);
        if p1 == p2 {
            lemma_mid_injective(p, n1, n2, suf);
        }
    } else if folder.last() == '/' {
        let p = folder + rep + "__"@;
        assert(p1 =~= p + n1 + suf);
        assert(p2 =~= p + n2 + suf);
        if p1 == p2 {
            lemma_mid_injective(p, n1, n2, suf);
        }
    } else {
        let p = folder + seq!['/'] + rep + "__"@;
        assert(p1 =~= p + n1 + suf);
        assert(p2 =~= p + n2 + suf);
        if p1 == p2 {
            lemma_mid_injective(p, n1, n2, suf);
        }
    }
}

/// Everything one engine invocation promises, over the counter table and
/// the store model before and after the call: the counter allocation; the
/// request snapshot written (parsing back to the arguments when no
/// redactions apply); the result snapshot written or the replayed value's
/// tie to the stored text; success forced where a parseable text snapshot
/// stands and the request write went through; and the error named when
/// binary content blocks a replay.
pub open spec fn spec_mock_invoke_post(
    counters_pre: CounterTable,
    counters_post: CounterTable,
    store_pre: Map<Seq<char>, SpecContent>,
    store_post: Map<Seq<char>, SpecContent>,
    info: SnapshotInfo,
    fn_name: Seq<char>,
    qualifier: Seq<char>,
    args: serde_json::Value,
    redactions: Seq<RedactionRule>,
    force_record: bool,
    r: Result<MockOutcome, SnapError>,
) -> bool {
    let base = spec_mock_base(info.snapshot_name@, fn_name);
    let prev = counters_pre.spec_get(base);
    let alloc_name = spec_name_with_idx(base, spec_alloc_idx(info.allow_duplicates,
        prev) as u64);
    let res_path = spec_snapshot_path(info.snapshot_folder@, qualifier,
        spec_name_with_idx(base, (prev + 1) as u64));
    let req_path = spec_snapshot_path(info.snapshot_folder@, qualifier,
        alloc_name + "-request"@);
    &&& (forall|k: Seq<char>| #[trigger] counters_post.spec_get(k)
        == if !info.allow_duplicates && k == base {
            (prev + 1) as u64
        } else {
            counters_pre.spec_get(k)
        })
    &&& match r {
        Ok(out) => {
            &&& out.invoked == (force_record || !store_pre.contains_key(res_path))
            &&& out.invoked ==> exists|t1: Seq<char>, t2: Seq<char>|
                #![trigger json_value_of(t1), json_value_of(t2)]
                store_post == store_pre.insert(req_path, SpecContent::Text(t1)).insert(
                    res_path, SpecContent::Text(t2))
                    && (redactions.len() == 0 ==> json_value_of(t1) == Some(args)
                    && json_value_of(t2) == Some(out.value))
            &&& !out.invoked ==> (exists|t1: Seq<char>|
                #![trigger json_value_of(t1)]
                store_post == store_pre.insert(req_path, SpecContent::Text(t1))
                    && (redactions.len() == 0 ==> json_value_of(t1) == Some(args)))
                && (store_pre[res_path] matches SpecContent::Text(t)
                    && json_value_of(t) == Some(out.value))
        },
        Err(_) => (exists|t1: Seq<char>|
            #![trigger json_value_of(t1)]
            store_post == store_pre.insert(req_path, SpecContent::Text(t1))
                && (redactions.len() == 0 ==> json_value_of(t1) == Some(args)))
            || store_post == store_pre,
    }
    &&& (!force_record && store_pre.contains_key(res_path)
        && (store_pre[res_path] matches SpecContent::Text(t)
            && json_value_of(t) is Some)) ==> (r is Ok || store_post == store_pre)
    &&& (!force_record && store_pre.contains_key(res_path)
        && store_pre[res_path] is Binary) ==> (r matches Err(e)
        && (store_post == store_pre || e.0@ == "Snapshot at "@ + res_path
            + " is binary, which is not supported for deserialization"@))
}

/// One invocation of a wrapped callable under record/replay.
///
/// The identity's base name gains the function's suffix, a snapshot name is
/// allocated from the shared counters, and the arguments are always written
/// as a `-request` snapshot for audit. Recording happens when `force_record`
/// is set or no result snapshot exists yet: the callable runs, its success
/// is persisted and returned, its failure propagates untouched with no
/// result written. Otherwise the persisted result is replayed without
/// invoking the callable; binary content and unparseable text are errors.
pub fn mock_invoke<S: SnapshotStore, F: MockCallable>(
    store: &mut S,
    counters: &mut CounterTable,
    f: &F,
    info: &SnapshotInfo,
    fn_name: &str,
    qualifier: &str,
    args: &serde_json::Value,
    redactions: Vec<RedactionRule>,
    force_record: bool,
) -> (r: Result<MockOutcome, SnapError>)
    requires
        old(counters).spec_get(spec_mock_base(info.snapshot_name@, fn_name@)) < u64::MAX,
    ensures
        spec_mock_invoke_post(*old(counters), *final(counters), old(store).snapshots(),
            final(store).snapshots(), *info, fn_name@, qualifier@, *args, redactions@,
            force_record, r),
        final(store).tabular() == old(store).tabular(),
{
    let mut fname = info.snapshot_name.clone();
    fname.append("_");
    fname.append(fn_name);
    proof {
        reveal_strlit("_");
        assert(fname@ =~= spec_mock_base(info.snapshot_name@, fn_name@));
    }
    let relative = match &info.relative_test_file_path {
        Some(p) => Some(p.clone()),
        None => None,
    };
    let finfo = SnapshotInfo {
        snapshot_folder: info.snapshot_folder.clone(),
        snapshot_name: fname,
        relative_test_file_path: relative,
        allow_duplicates: info.allow_duplicates,
    };
    let next_name = finfo.next_snapshot_name(counters);
    let snapshot_path = finfo.snapshot_path_for(qualifier, next_name.as_str());
    let snap_name = finfo.snapshot_name(counters);
    let settings = finfo.settings(redactions);
    let mut req_name = snap_name.clone();
    req_name.append("-request");
    proof {
        reveal_strlit("-request");
        let base = spec_mock_base(info.snapshot_name@, fn_name@);
        let prev = old(counters).spec_get(base);
        lemma_name_request_distinct(base, spec_alloc_idx(info.allow_duplicates, prev) as u64,
            (prev + 1) as u64);
    }
    let req_path = finfo.snapshot_path_for(qualifier, req_name.as_str());
    proof {
        lemma_snapshot_path_injective(info.snapshot_folder@, qualifier@, req_name@, next_name@);
    }
    match store.write_value(req_path.as_str(), req_name.as_str(), args, &settings) {
        Ok(_) => (),
        Err(e) => {
            return Err(e);
        },
    }
    let existed = store.contains(snapshot_path.as_str());
    if force_record || !existed {
        match f.invoke(args) {
            Ok(v) => {
                match store.write_value(snapshot_path.as_str(), snap_name.as_str(), &v,
                    &settings) {
                    Ok(_) => Ok(MockOutcome { value: v, invoked: true }),
                    Err(e) => Err(e),
                }
            },
            Err(e) => Err(e),
        }
    } else {
        let content = store.read(snapshot_path.as_str());
        match content {
            SnapshotContent::Text(t) => match parse_json(t.as_str()) {
                Ok(v) => Ok(MockOutcome { value: v, invoked: false }),
                Err(e) => Err(e),
            },
            SnapshotContent::Binary(_) => {
                let head = strutil::concat_str("Snapshot at ", snapshot_path.as_str());
                let msg = strutil::concat_str(head.as_str(),
                    " is binary, which is not supported for deserialization");
                Err(SnapError(msg))
            },
        }
    }
}

/// A record/replay binding: the wrapped callable, the fixed suffix naming
/// it inside snapshot base names, the identity its snapshots live under,
/// whether recording is forced, and the redaction rules. Created once when
/// a mock is installed; invoked once per call site.
pub struct RecordReplayBinding<F: MockCallable> {
    pub callable: F,
    pub fn_name: String,
    pub snapshot_info: SnapshotInfo,
    pub record: bool,
    pub redactions: Vec<RedactionRule>,
}

impl<F: MockCallable> RecordReplayBinding<F> {
    /// One invocation of the binding: exactly one engine step on the bound
    /// callable, identity, mode and rules.
    pub fn invoke<S: SnapshotStore>(&self, store: &mut S, counters: &mut CounterTable,
        qualifier: &str, args: &serde_json::Value) -> (r: Result<MockOutcome, SnapError>)
        requires
            old(counters).spec_get(spec_mock_base(self.snapshot_info.snapshot_name@,
                self.fn_name@)) < u64::MAX,
        ensures
            spec_mock_invoke_post(*old(counters), *final(counters), old(store).snapshots(),
                final(store).snapshots(), self.snapshot_info, self.fn_name@, qualifier@,
                *args, self.redactions@, self.record, r),
            final(store).tabular() == old(store).tabular(),
    {
        let rules = crate::redactions::duplicate_rules(&self.redactions);
        mock_invoke(store, counters, &self.callable, &self.snapshot_info,
            self.fn_name.as_str(), qualifier, args, rules, self.record)
    }
}

/// Record/replay idempotence: against one duplicate-allowing identity, a
/// forced-record invocation followed by a non-forced invocation returns the
/// same value both times, and only the first invokes the wrapped callable.
pub fn mock_record_then_replay<S: SnapshotStore, F: MockCallable>(
    store: &mut S,
    counters: &mut CounterTable,
    f: &F,
    info: &SnapshotInfo,
    fn_name: &str,
    qualifier: &str,
    args: &serde_json::Value,
) -> (r: Result<(MockOutcome, MockOutcome), SnapError>)
    requires
        info.allow_duplicates,
        old(counters).spec_get(spec_mock_base(info.snapshot_name@, fn_name@)) < u64::MAX,
    ensures
        r matches Ok(pair) ==> pair.0.invoked && !pair.1.invoked
            && pair.1.value == pair.0.value,
{
    let first = match mock_invoke(store, counters, f, info, fn_name, qualifier, args,
        Vec::new(), true) {
        Ok(o) => o,
        Err(e) => {
            return Err(e);
        },
    };
    let second = match mock_invoke(store, counters, f, info, fn_name, qualifier, args,
        Vec::new(), false) {
        Ok(o) => o,
        Err(e) => {
            return Err(e);
        },
    };
    Ok((first, second))
}

/// Snapshot round trip: a structured value accepted as a text snapshot
/// without redactions and read back parses to an equal value; a value the
/// collaborator refuses leaves the store untouched.
pub fn snapshot_round_trip<S: SnapshotStore>(
    store: &mut S,
    path: &str,
    name: &str,
    value: &serde_json::Value,
    settings: &SnapshotSettings,
) -> (r: Result<serde_json::Value, SnapError>)
    requires
        settings.redactions@.len() == 0,
    ensures
        r matches Ok(v) ==> v == *value,
        r matches Err(_) ==> final(store).snapshots() == old(store).snapshots(),
{
    match store.write_value(path, name, value, settings) {
        Ok(_) => (),
        Err(e) => {
            return Err(e);
        },
    }
    let content = store.read(path);
    match content {
        SnapshotContent::Text(t) => match parse_json(t.as_str()) {
            Ok(v) => Ok(v),
            Err(e) => {
                proof {
                    assert(false);
                }
                vstd::pervasive::unreached()
            },
        },
        SnapshotContent::Binary(_) => {
            proof {
                assert(false);
            }
            vstd::pervasive::unreached()
        },
    }
}

} // verus!
