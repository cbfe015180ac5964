//! The snapshot identity allocator: a `SnapshotInfo` names the folder and
//! base name a test's snapshots live under, and derives disambiguated names
//! and full snapshot paths from the shared counter table. Counter values `0`
//! and `1` both render as the bare base name — the first use of a name has
//! no suffix — and later uses get `-2`, `-3`, and so on.

use vstd::prelude::*;
use vstd::string::*;
use crate::counters::CounterTable;
use crate::errors::SnapError;
use crate::pathutil;
use crate::pytest_info::{first_dcolon_at, spec_test_name_of, PytestInfo};
use crate::redactions::RedactionRule;
use crate::strutil;
use crate::strutil::{dcolon_at, spec_replace_dcolon, spec_u64_dec};

verus! {

/// A test-file-path line recorded in snapshot metadata.
#[derive(Debug)]
pub struct Description {
    pub test_file_path: String,
}

impl Description {
    /// Wraps a test file path for rendering into snapshot metadata.
    pub fn new(test_file_path: String) -> (r: Self)
        ensures
            r.test_file_path@ == test_file_path@,
    {
        Description { test_file_path }
    }

    /// The metadata line this description renders as.
    pub fn render(&self) -> (r: String)
        ensures
            r@ == "Test File Path: "@ + self.test_file_path@,
    {
        strutil::concat_str("Test File Path: ", self.test_file_path.as_str())
    }
}

/// Where one logical assertion site's snapshots live: the folder, the base
/// name before duplicate disambiguation, the test file the identity was
/// resolved from (when it was), and whether repeated uses of the base name
/// may share one snapshot rather than advancing the shared counter.
#[derive(Debug, Clone)]
pub struct SnapshotInfo {
    pub snapshot_folder: String,
    pub snapshot_name: String,
    pub relative_test_file_path: Option<String>,
    pub allow_duplicates: bool,
}

/// A counter value rendered as a snapshot name: `0` and `1` give the bare
/// base name, anything larger appends `-<value>`.
pub open spec fn spec_name_with_idx(base: Seq<char>, idx: u64) -> Seq<char> {
    if idx == 0 || idx == 1 {
        base
    } else {
        base + seq!['-'] + spec_u64_dec(idx as nat)
    }
}

/// The counter value an allocation observes: with duplicates allowed the
/// stored value itself (a peek), otherwise the stored value advanced by one.
pub open spec fn spec_alloc_idx(allow_duplicates: bool, prev: u64) -> int {
    if allow_duplicates {
        prev as int
    } else {
        prev + 1
    }
}

/// The snapshot file name for a module path and a disambiguated name:
/// `<module with :: as __>__<name>@pysnap.snap`.
pub open spec fn spec_snapshot_file_name(qualifier: Seq<char>, name: Seq<char>) -> Seq<char> {
    spec_replace_dcolon(qualifier) + "__"@ + name + "@pysnap.snap"@
}

/// The full snapshot path: the folder joined with the snapshot file name.
pub open spec fn spec_snapshot_path(folder: Seq<char>, qualifier: Seq<char>, name: Seq<char>)
    -> Seq<char> {
    pathutil::spec_join(folder, spec_snapshot_file_name(qualifier, name))
}

/// The module path used when the caller supplies none.
pub open spec fn spec_module_of(m: Option<String>) -> Seq<char> {
    match m {
        Option::Some(s) => s@,
        Option::None => "pysnaptest"@,
    }
}

/// The base snapshot name derived from a test file and test name:
/// `<file-stem>_<test-name>`, or the bare test name when the path has no
/// usable stem.
pub open spec fn spec_base_name(test_path: Seq<char>, test_name: Seq<char>) -> Seq<char> {
    match pathutil::spec_file_stem(test_path) {
        Option::Some(stem) => stem + "_"@ + test_name,
        Option::None => test_name,
    }
}

/// Derives the base snapshot name `<file-stem>_<test-name>`.
pub fn derive_base_name(test_path: &str, test_name: &str) -> (r: String)
    ensures
        r@ == spec_base_name(test_path@, test_name@),
{
    match pathutil::file_stem_of(test_path) {
        Some(stem) => {
            let mut s = stem;
            s.append("_");
            s.append(test_name);
            proof {
                reveal_strlit("_");
                assert(s@ =~= spec_base_name(test_path@, test_name@));
            }
            s
        },
        None => test_name.to_owned(),
    }
}

impl SnapshotInfo {
    /// The folder this identity's snapshots live under.
    pub fn snapshot_folder(&self) -> (r: &String)
        ensures
            r@ == self.snapshot_folder@,
    {
        &self.snapshot_folder
    }

    /// Renders the base name under a concrete counter value.
    pub fn snapshot_name_with_idx(&self, test_idx: u64) -> (r: String)
        ensures
            r@ == spec_name_with_idx(self.snapshot_name@, test_idx),
    {
        if test_idx == 1 || test_idx == 0 {
            self.snapshot_name.clone()
        } else {
            let mut s = self.snapshot_name.clone();
            s.append("-");
            let d = strutil::u64_to_dec(test_idx);
            s.append(d.as_str());
            proof {
                reveal_strlit("-");
                assert(s@ =~= spec_name_with_idx(self.snapshot_name@, test_idx));
            }
            s
        }
    }

    /// The name of the last allocated snapshot: the stored counter value
    /// rendered as a name (a never-allocated counter reads as the bare
    /// base name).
    pub fn last_snapshot_name(&self, counters: &CounterTable) -> (r: String)
        ensures
            r@ == spec_name_with_idx(self.snapshot_name@, counters.spec_get(self.snapshot_name@)),
    {
        let test_idx = counters.get(self.snapshot_name.as_str());
        let test_idx = if test_idx == 0 { 1u64 } else { test_idx };
        self.snapshot_name_with_idx(test_idx)
    }

    /// The name the next allocation would produce, without touching state.
    pub fn next_snapshot_name(&self, counters: &CounterTable) -> (r: String)
        requires
            counters.spec_get(self.snapshot_name@) < u64::MAX,
        ensures
            r@ == spec_name_with_idx(self.snapshot_name@,
                (counters.spec_get(self.snapshot_name@) + 1) as u64),
    {
        let test_idx = counters.get(self.snapshot_name.as_str()) + 1;
        self.snapshot_name_with_idx(test_idx)
    }

    /// Allocates and returns the current snapshot name: reads the counter
    /// and renders its successor; unless duplicates are allowed, the
    /// counter advances, so the next call moves on. With duplicates
    /// allowed this is a pure peek and the shared counter never changes.
    pub fn snapshot_name(&self, counters: &mut CounterTable) -> (r: String)
        requires
            self.allow_duplicates || old(counters).spec_get(self.snapshot_name@) < u64::MAX,
        ensures
            r@ == spec_name_with_idx(self.snapshot_name@,
                spec_alloc_idx(self.allow_duplicates,
                    old(counters).spec_get(self.snapshot_name@)) as u64),
            forall|k: Seq<char>| #[trigger] final(counters).spec_get(k)
                == if !self.allow_duplicates && k == self.snapshot_name@ {
                    (old(counters).spec_get(self.snapshot_name@) + 1) as u64
                } else {
                    old(counters).spec_get(k)
                },
    {
        let mut test_idx = counters.get(self.snapshot_name.as_str());
        if !self.allow_duplicates {
            test_idx = test_idx + 1;
            counters.set(self.snapshot_name.as_str(), test_idx);
        }
        self.snapshot_name_with_idx(test_idx)
    }

    /// The full snapshot path for a module path and a disambiguated name.
    pub fn snapshot_path_for(&self, qualifier: &str, name: &str) -> (r: String)
        ensures
            r@ == spec_snapshot_path(self.snapshot_folder@, qualifier@, name@),
    {
        let mut f = strutil::replace_dcolon(qualifier);
        f.append("__");
        f.append(name);
        f.append("@pysnap.snap");
        proof {
            reveal_strlit("__");
            reveal_strlit("@pysnap.snap");
            assert(f@ =~= spec_snapshot_file_name(qualifier@, name@));
        }
        pathutil::join_path(self.snapshot_folder.as_str(), f.as_str())
    }

    /// The full path of the last allocated snapshot under a module path
    /// (the crate's own name when none is supplied).
    pub fn last_snapshot_path(&self, qualifier: Option<String>, counters: &CounterTable)
        -> (r: String)
        ensures
            r@ == spec_snapshot_path(self.snapshot_folder@, spec_module_of(qualifier),
                spec_name_with_idx(self.snapshot_name@,
                    counters.spec_get(self.snapshot_name@))),
    {
        let name = self.last_snapshot_name(counters);
        let m: String = match qualifier {
            Some(m) => m,
            None => "pysnaptest".to_owned(),
        };
        self.snapshot_path_for(m.as_str(), name.as_str())
    }

    /// The full path the next allocation would write to, under a module
    /// path (the crate's own name when none is supplied).
    pub fn next_snapshot_path(&self, qualifier: Option<String>, counters: &CounterTable)
        -> (r: String)
        requires
            counters.spec_get(self.snapshot_name@) < u64::MAX,
        ensures
            r@ == spec_snapshot_path(self.snapshot_folder@, spec_module_of(qualifier),
                spec_name_with_idx(self.snapshot_name@,
                    (counters.spec_get(self.snapshot_name@) + 1) as u64)),
    {
        let name = self.next_snapshot_name(counters);
        let m: String = match qualifier {
            Some(m) => m,
            None => "pysnaptest".to_owned(),
        };
        self.snapshot_path_for(m.as_str(), name.as_str())
    }

    /// Builds an identity from a resolved test context: the folder is a
    /// `snapshots` directory beside the canonicalized test file, the base
    /// name is `<file-stem>_<test-name>`, and duplicates are not allowed.
    /// Fails when the canonical path yields no parent directory.
    pub fn from_resolved(canonical_path: &str, resolved_path: &str, raw_path: &str,
        test_name: &str) -> (r: Result<SnapshotInfo, SnapError>)
        ensures
            match r {
                Ok(s) => pathutil::spec_parent(canonical_path@) matches Some(par)
                    && s.snapshot_folder@ == pathutil::spec_join(par, "snapshots"@)
                    && s.snapshot_name@ == spec_base_name(raw_path@, test_name@)
                    && (s.relative_test_file_path matches Some(rp) && rp@ == resolved_path@)
                    && s.allow_duplicates == false,
                Err(e) => pathutil::spec_parent(canonical_path@) is None
                    && e.0@ == "Invalid test_path: "@ + raw_path@
                        + ", not yielding a parent directory"@,
            },
    {
        match pathutil::parent_of(canonical_path) {
            Some(par) => {
                let folder = pathutil::join_path(par.as_str(), "snapshots");
                Ok(SnapshotInfo {
                    snapshot_folder: folder,
                    snapshot_name: derive_base_name(raw_path, test_name),
                    relative_test_file_path: Some(resolved_path.to_owned()),
                    allow_duplicates: false,
                })
            },
            None => {
                let head = strutil::concat_str("Invalid test_path: ", raw_path);
                let msg = strutil::concat_str(head.as_str(),
                    ", not yielding a parent directory");
                Err(SnapError(msg))
            },
        }
    }

    /// Builds an identity from a parsed test identity by locating the test
    /// file on disk and canonicalizing it. The folder is a `snapshots`
    /// directory beside the located file; the base name comes from the raw
    /// path's stem and the test name.
    pub fn from_pytest_info(info: &PytestInfo) -> (r: Result<SnapshotInfo, SnapError>)
        ensures
            match r {
                Ok(s) => s.allow_duplicates == false
                    && s.snapshot_name@ == spec_base_name(info.test_path@, info.test_name@)
                    && (exists|par: Seq<char>| s.snapshot_folder@
                        == pathutil::spec_join(par, "snapshots"@))
                    && (s.relative_test_file_path matches Some(rp) && (rp@ == info.test_path@
                        || (pathutil::spec_file_name(info.test_path@) matches Some(f)
                            && rp@ == "./"@ + f))),
                Err(_) => true,
            },
    {
        let resolved = match info.test_path() {
            Ok(p) => p,
            Err(e) => {
                return Err(SnapError(e.message()));
            },
        };
        let canon = match crate::pytest_info::canonicalize_path(resolved.as_str()) {
            Ok(c) => c,
            Err(m) => {
                return Err(SnapError(m));
            },
        };
        Self::from_resolved(canon.as_str(), resolved.as_str(), info.test_path.as_str(),
            info.test_name.as_str())
    }

    /// The construction path that needs no test context: when both the
    /// folder and the name are supplied, the identity is built from the
    /// overrides alone and the environment is never touched. Yields
    /// nothing when either override is missing, in which case the caller
    /// must resolve the test context and use `from_pytest_with_identity`.
    pub fn from_pytest(snapshot_path_override: Option<String>,
        snapshot_name_override: Option<String>, allow_duplicates: bool)
        -> (r: Option<SnapshotInfo>)
        ensures
            match r {
                Some(s) => {
                    &&& snapshot_path_override matches Some(p) && s.snapshot_folder@ == p@
                    &&& snapshot_name_override matches Some(nm) && s.snapshot_name@ == nm@
                    &&& s.relative_test_file_path is None
                    &&& s.allow_duplicates == allow_duplicates
                },
                None => snapshot_path_override is None || snapshot_name_override is None,
            },
    {
        match (snapshot_path_override, snapshot_name_override) {
            (Some(snapshot_folder), Some(snapshot_name)) => Some(SnapshotInfo {
                snapshot_folder,
                snapshot_name,
                relative_test_file_path: None,
                allow_duplicates,
            }),
            _ => None,
        }
    }

    /// The construction path that resolves the test context: the raw
    /// identity string is parsed and the derived folder and name stand in
    /// for whichever override is missing. A supplied name override is
    /// truncated at its first `-` so that a previously disambiguated name
    /// folds back to its base.
    pub fn from_pytest_with_identity(snapshot_path_override: Option<String>,
        snapshot_name_override: Option<String>, allow_duplicates: bool, raw_identity: &str)
        -> (r: Result<SnapshotInfo, SnapError>)
        ensures
            match r {
                Ok(s) => {
                    &&& s.allow_duplicates == allow_duplicates
                    &&& (snapshot_path_override matches Some(p) ==> s.snapshot_folder@ == p@)
                    &&& (snapshot_path_override is None ==> exists|par: Seq<char>|
                        s.snapshot_folder@ == pathutil::spec_join(par, "snapshots"@))
                    &&& (snapshot_name_override matches Some(v) ==>
                        strutil::spec_prefix_before_char(v@, '-', s.snapshot_name@))
                    &&& (snapshot_name_override is None ==> exists|i: int, nm: Seq<char>|
                        first_dcolon_at(raw_identity@, i)
                            && #[trigger] spec_test_name_of(raw_identity@.skip(i + 2), nm)
                            && s.snapshot_name@ == spec_base_name(raw_identity@.take(i), nm))
                    &&& s.relative_test_file_path is Some
                },
                Err(_) => true,
            },
            (forall|j: int| !dcolon_at(raw_identity@, j)) ==> (r matches Err(e)
                && e.0@ == "Expected '::' to be in PYTEST_CURRENT_TEST string ("@
                    + raw_identity@ + ")"@),
    {
        let info = match PytestInfo::parse(raw_identity) {
            Ok(i) => i,
            Err(e) => {
                return Err(SnapError(e.message()));
            },
        };
        let derived = match Self::from_pytest_info(&info) {
            Ok(d) => d,
            Err(e) => {
                return Err(e);
            },
        };
        let folder = match snapshot_path_override {
            Some(p) => p,
            None => derived.snapshot_folder,
        };
        let name = match snapshot_name_override {
            Some(v) => strutil::prefix_before_char(v.as_str(), '-'),
            None => derived.snapshot_name,
        };
        Ok(SnapshotInfo {
            snapshot_folder: folder,
            snapshot_name: name,
            relative_test_file_path: derived.relative_test_file_path,
            allow_duplicates,
        })
    }

    /// The storage settings this identity binds snapshots under: its
    /// folder, the fixed `pysnap` suffix, a description naming the test
    /// file when one was resolved, expression omission, and the redaction
    /// rules to apply.
    pub fn settings(&self, redactions: Vec<RedactionRule>) -> (r: SnapshotSettings)
        ensures
            r.snapshot_path@ == self.snapshot_folder@,
            r.snapshot_suffix@ == "pysnap"@,
            match self.relative_test_file_path {
                Option::Some(p) => r.description matches Some(d)
                    && d@ == "Test File Path: "@ + p@,
                Option::None => r.description is None,
            },
            r.omit_expression == true,
            r.redactions == redactions,
    {
        let description = match &self.relative_test_file_path {
            Some(p) => Some(Description::new(p.clone()).render()),
            None => None,
        };
        SnapshotSettings {
            snapshot_path: self.snapshot_folder.clone(),
            snapshot_suffix: "pysnap".to_owned(),
            description,
            omit_expression: true,
            redactions,
        }
    }
}

/// Repeated current-name calls on a duplicate-allowing identity return the
/// same value and never advance the shared counter.
pub fn current_name_twice(info: &SnapshotInfo, counters: &mut CounterTable)
    -> (r: (String, String))
    requires
        info.allow_duplicates,
    ensures
        r.0@ == r.1@,
        forall|k: Seq<char>| #[trigger] final(counters).spec_get(k)
            == old(counters).spec_get(k),
{
    let a = info.snapshot_name(counters);
    let b = info.snapshot_name(counters);
    (a, b)
}

/// After an allocation that advances the counter, the last-allocated name
/// reads back as exactly the name the allocation returned.
pub fn allocate_then_peek_last(info: &SnapshotInfo, counters: &mut CounterTable)
    -> (r: (String, String))
    requires
        !info.allow_duplicates,
        old(counters).spec_get(info.snapshot_name@) < u64::MAX,
    ensures
        r.0@ == r.1@,
{
    let allocated = info.snapshot_name(counters);
    let last = info.last_snapshot_name(counters);
    (allocated, last)
}

/// Peeking at the next name mutates nothing and foretells exactly what the
/// following allocation returns.
pub fn peek_next_then_allocate(info: &SnapshotInfo, counters: &mut CounterTable)
    -> (r: (String, String))
    requires
        !info.allow_duplicates,
        old(counters).spec_get(info.snapshot_name@) < u64::MAX,
    ensures
        r.0@ == r.1@,
{
    let peeked = info.next_snapshot_name(counters);
    let allocated = info.snapshot_name(counters);
    (peeked, allocated)
}

/// What the storage collaborator is configured with when a snapshot is
/// bound: the folder, the snapshot-dialect suffix, an optional description,
/// whether the asserted expression is omitted from metadata, and the
/// redaction rules.
#[derive(Debug, Clone)]
pub struct SnapshotSettings {
    pub snapshot_path: String,
    pub snapshot_suffix: String,
    pub description: Option<String>,
    pub omit_expression: bool,
    pub redactions: Vec<RedactionRule>,
}

} // verus!
