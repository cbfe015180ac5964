//! The snapshot storage collaborator's interface, and the structured-value
//! boundary: snapshots are keyed by their full path and hold either text or
//! bytes; a structured value is serialized to JSON text before it is stored
//! and parsed back when a stored snapshot is replayed.

use vstd::prelude::*;
use vstd::string::*;
use crate::errors::SnapError;
use crate::snapshot_info::SnapshotSettings;

verus! {

#[verifier::external_type_specification]
#[verifier::external_body]
pub struct ExValue(serde_json::Value);

/// What `serde_json::from_str` yields for a JSON text: the parsed
/// structured value, or nothing when the text does not parse. The grammar
/// takes pages to state; the result is a function of the text alone.
pub uninterp spec fn json_value_of(s: Seq<char>) -> Option<serde_json::Value>;

/// Relies on serde_json::to_string and serde_json::from_str: renders a
/// structured value as JSON text and confirms that the text parses back to
/// an equal value before handing it out. A value the parser cannot
/// round-trip (nesting beyond the parser's depth limit) is reported as an
/// error instead, so the promise holds of every text returned.
#[verifier::external_body]
pub(crate) fn render_json(v: &serde_json::Value) -> (r: Result<String, SnapError>)
    ensures
        r matches Ok(t) ==> json_value_of(t@) == Some(*v),
{
    let text = match serde_json::to_string(v) {
        Ok(t) => t,
        Err(e) => return Err(SnapError(format!("{e}"))),
    };
    match serde_json::from_str::<serde_json::Value>(&text) {
        Ok(back) if back == *v => Ok(text),
        _ => Err(SnapError("value does not survive a text round trip".to_string())),
    }
}

/// Relies on serde_json::from_str: parses JSON text into a structured
/// value; the outcome is a function of the text alone.
#[verifier::external_body]
pub(crate) fn parse_json(s: &str) -> (r: Result<serde_json::Value, SnapError>)
    ensures
        match r {
            Ok(v) => json_value_of(s@) == Some(v),
            Err(_) => json_value_of(s@) is None,
        },
{
    match serde_json::from_str::<serde_json::Value>(s) {
        Ok(v) => Ok(v),
        Err(e) => Err(SnapError(format!("{e}"))),
    }
}

/// Relies on serde_json::to_string on a table of rows: renders rows of
/// structured values as one JSON text.
#[verifier::external_body]
pub(crate) fn render_json_rows(rows: &Vec<Vec<serde_json::Value>>) -> (r: String)
{
    serde_json::to_string(rows).expect("serializing structured rows cannot fail")
}

/// A stored snapshot payload: text (the only replayable kind) or bytes.
#[derive(Debug)]
pub enum SnapshotContent {
    Text(String),
    Binary(Vec<u8>),
}

/// The mathematical shape of a stored payload.
pub enum SpecContent {
    Text(Seq<char>),
    Binary(Seq<u8>),
}

impl View for SnapshotContent {
    type V = SpecContent;

    open spec fn view(&self) -> SpecContent {
        match self {
            SnapshotContent::Text(s) => SpecContent::Text(s@),
            SnapshotContent::Binary(b) => SpecContent::Binary(b@),
        }
    }
}

impl SnapshotContent {
    /// An equal copy of this payload.
    pub fn duplicate(&self) -> (r: SnapshotContent)
        ensures
            r@ == self@,
    {
        match self {
            SnapshotContent::Text(s) => SnapshotContent::Text(s.clone()),
            SnapshotContent::Binary(b) => {
                let mut copy: Vec<u8> = Vec::new();
                copy.extend_from_slice(b.as_slice());
                proof {
                    assert(copy@ =~= b@);
                }
                SnapshotContent::Binary(copy)
            },
        }
    }
}

/// The payload of a stored snapshot as bytes: text content as its UTF-8
/// encoding, binary content unchanged.
pub fn content_bytes(c: &SnapshotContent) -> (r: Vec<u8>)
    ensures
        r@ == match c@ {
            SpecContent::Text(t) => vstd::utf8::encode_utf8(t),
            SpecContent::Binary(b) => b,
        },
{
    match c {
        SnapshotContent::Text(s) => s.as_str().as_bytes_vec(),
        SnapshotContent::Binary(b) => {
            let mut copy: Vec<u8> = Vec::new();
            copy.extend_from_slice(b.as_slice());
            proof {
                assert(copy@ =~= b@);
            }
            copy
        },
    }
}

/// The rows of a table, each row read as the sequence of its values.
pub open spec fn spec_rows_view(rows: Seq<Vec<serde_json::Value>>)
    -> Seq<Seq<serde_json::Value>> {
    Seq::new(rows.len(), |i: int| rows[i]@)
}

/// The snapshot storage collaborator: a keyed store of snapshot payloads.
/// Writing is whole-value — a write either leaves the old payload or
/// installs the new one, never a mixture. A value written without
/// redactions is stored as text that parses back to that value; plain text
/// is recorded as handed over (a collaborator that trims line-end
/// whitespace satisfies the model up to that trimming); a table's rows are
/// reflected, row for row and value for value, in the tabular model.
pub trait SnapshotStore {
    /// The snapshots held, keyed by full snapshot path. An implementation
    /// outside the verifier's reach may leave this at its default, the
    /// empty model.
    open spec fn snapshots(&self) -> Map<Seq<char>, SpecContent> {
        Map::empty()
    }

    /// The tabular snapshots held, keyed by full snapshot path: the rows
    /// as they were handed to the collaborator. An implementation outside
    /// the verifier's reach may leave this at its default, the empty
    /// model.
    open spec fn tabular(&self) -> Map<Seq<char>, Seq<Seq<serde_json::Value>>> {
        Map::empty()
    }

    /// Whether a snapshot is stored at `path`.
    fn contains(&self, path: &str) -> (r: bool)
        ensures
            r == self.snapshots().contains_key(path@),
    ;

    /// The snapshot stored at `path`.
    fn read(&self, path: &str) -> (r: SnapshotContent)
        requires
            self.snapshots().contains_key(path@),
        ensures
            r@ == self.snapshots()[path@],
    ;

    /// Writes a structured value at `path` under `name`. On success a text
    /// snapshot stands there afterwards, and when the settings carry no
    /// redactions its text parses back to the value written. A refused
    /// write is whole-value: the store is left untouched.
    fn write_value(&mut self, path: &str, name: &str, value: &serde_json::Value,
        settings: &SnapshotSettings) -> (r: Result<(), SnapError>)
        ensures
            r matches Ok(_) ==> exists|t: Seq<char>|
                final(self).snapshots() == old(self).snapshots().insert(path@,
                    SpecContent::Text(t)) && (settings.redactions@.len() == 0
                    ==> json_value_of(t) == Some(*value)),
            r matches Err(_) ==> final(self).snapshots() == old(self).snapshots(),
            final(self).tabular() == old(self).tabular(),
    ;

    /// Writes rows of structured values at `path` as a text snapshot; the
    /// rows stand, order and values preserved, in the tabular model.
    fn write_rows(&mut self, path: &str, name: &str, rows: &Vec<Vec<serde_json::Value>>,
        settings: &SnapshotSettings)
        ensures
            exists|t: Seq<char>|
                final(self).snapshots() == old(self).snapshots().insert(path@,
                    SpecContent::Text(t)),
            final(self).tabular() == old(self).tabular().insert(path@,
                spec_rows_view(rows@)),
    ;

    /// Writes plain text at `path` as a text snapshot, recorded as handed
    /// over.
    fn write_text(&mut self, path: &str, name: &str, text: &str, settings: &SnapshotSettings)
        ensures
            final(self).snapshots() == old(self).snapshots().insert(path@,
                SpecContent::Text(text@)),
            final(self).tabular() == old(self).tabular(),
    ;

    /// Writes bytes at `path` as a binary snapshot.
    fn write_binary(&mut self, path: &str, name: &str, bytes: &Vec<u8>,
        settings: &SnapshotSettings)
        ensures
            final(self).snapshots() == old(self).snapshots().insert(path@,
                SpecContent::Binary(bytes@)),
            final(self).tabular() == old(self).tabular(),
    ;
}

/// An in-process snapshot store: what a test run writes and reads without
/// touching a filesystem. Later writes to a path shadow earlier ones; the
/// tabular model is carried alongside as ghost state.
pub struct MemoryStore {
    entries: Vec<(String, SnapshotContent)>,
    tabular_model: Ghost<Map<Seq<char>, Seq<Seq<serde_json::Value>>>>,
}

/// The map a sequence of path/payload pairs denotes: each pair inserted in
/// order, so the newest entry for a path wins.
pub closed spec fn seq_snapshots(s: Seq<(String, SnapshotContent)>)
    -> Map<Seq<char>, SpecContent>
    decreases s.len(),
{
    if s.len() == 0 {
        Map::empty()
    } else {
        seq_snapshots(s.drop_last()).insert(s.last().0@, s.last().1@)
    }
}

impl MemoryStore {
    /// An empty store.
    pub fn new() -> (r: MemoryStore)
        ensures
            r.snapshots() == Map::<Seq<char>, SpecContent>::empty(),
            r.tabular() == Map::<Seq<char>, Seq<Seq<serde_json::Value>>>::empty(),
    {
        let s = MemoryStore {
            entries: Vec::new(),
            tabular_model: Ghost(Map::empty()),
        };
        proof {
            assert(seq_snapshots(s.entries@) =~= Map::<Seq<char>, SpecContent>::empty());
        }
        s
    }
}

/// The newest entry for a missing key decides membership and value.
proof fn lemma_seq_snapshots_found(s: Seq<(String, SnapshotContent)>, i: int)
    requires
        0 <= i < s.len(),
        forall|j: int| i < j < s.len() ==> s[j].0@ != s[i].0@,
    ensures
        seq_snapshots(s).contains_key(s[i].0@),
        seq_snapshots(s)[s[i].0@] == s[i].1@,
    decreases s.len(),
{
    if i == s.len() - 1 {
    } else {
        assert(s.drop_last()[i] == s[i]);
        lemma_seq_snapshots_found(s.drop_last(), i);
    }
}

/// A key no entry carries is absent from the denoted map.
proof fn lemma_seq_snapshots_missing(s: Seq<(String, SnapshotContent)>, k: Seq<char>)
    requires
        forall|j: int| 0 <= j < s.len() ==> s[j].0@ != k,
    ensures
        !seq_snapshots(s).contains_key(k),
    decreases s.len(),
{
    if s.len() > 0 {
        lemma_seq_snapshots_missing(s.drop_last(), k);
    }
}

impl MemoryStore {
    /// Appends an entry; the denoted map gains exactly that binding and
    /// the tabular model stands still.
    fn push_entry(&mut self, path: &str, content: SnapshotContent)
        ensures
            final(self).snapshots() == old(self).snapshots().insert(path@, content@),
            final(self).tabular() == old(self).tabular(),
    {
        let ghost c = content@;
        self.entries.push((path.to_owned(), content));
        proof {
            assert(self.entries@.drop_last() =~= old(self).entries@);
            assert(seq_snapshots(self.entries@) =~= seq_snapshots(old(self).entries@).insert(
                path@, c));
        }
    }

    /// The index of the newest entry for `path`, if any.
    fn find_newest(&self, path: &str) -> (r: Option<usize>)
        ensures
            match r {
                Some(i) => i < self.entries@.len() && self.entries@[i as int].0@ == path@
                    && self.snapshots().contains_key(path@)
                    && self.snapshots()[path@] == self.entries@[i as int].1@,
                None => !self.snapshots().contains_key(path@),
            },
    {
        let n = self.entries.len();
        let mut i: usize = n;
        while i > 0
            invariant
                i <= n,
                n == self.entries@.len(),
                forall|j: int| i <= j < n ==> self.entries@[j].0@ != path@,
            decreases i,
        {
            i = i - 1;
            if crate::strutil::str_eq(self.entries[i].0.as_str(), path) {
                proof {
                    lemma_seq_snapshots_found(self.entries@, i as int);
                }
                return Some(i);
            }
        }
        proof {
            lemma_seq_snapshots_missing(self.entries@, path@);
        }
        None
    }
}

impl SnapshotStore for MemoryStore {
    closed spec fn snapshots(&self) -> Map<Seq<char>, SpecContent> {
        seq_snapshots(self.entries@)
    }

    closed spec fn tabular(&self) -> Map<Seq<char>, Seq<Seq<serde_json::Value>>> {
        self.tabular_model@
    }

    fn contains(&self, path: &str) -> (r: bool) {
        match self.find_newest(path) {
            Some(_) => true,
            None => false,
        }
    }

    fn read(&self, path: &str) -> (r: SnapshotContent) {
        match self.find_newest(path) {
            Some(i) => self.entries[i].1.duplicate(),
            None => vstd::pervasive::unreached(),
        }
    }

    fn write_value(&mut self, path: &str, name: &str, value: &serde_json::Value,
        settings: &SnapshotSettings) -> (r: Result<(), SnapError>) {
        match render_json(value) {
            Ok(text) => {
                self.push_entry(path, SnapshotContent::Text(text));
                Ok(())
            },
            Err(e) => Err(e),
        }
    }

    fn write_rows(&mut self, path: &str, name: &str, rows: &Vec<Vec<serde_json::Value>>,
        settings: &SnapshotSettings) {
        let text = render_json_rows(rows);
        self.push_entry(path, SnapshotContent::Text(text));
        self.tabular_model = Ghost(self.tabular_model@.insert(path@, spec_rows_view(rows@)));
    }

    fn write_text(&mut self, path: &str, name: &str, text: &str, settings: &SnapshotSettings) {
        self.push_entry(path, SnapshotContent::Text(text.to_owned()));
    }

    fn write_binary(&mut self, path: &str, name: &str, bytes: &Vec<u8>,
        settings: &SnapshotSettings) {
        let mut copy: Vec<u8> = Vec::new();
        copy.extend_from_slice(bytes.as_slice());
        proof {
            assert(copy@ =~= bytes@);
        }
        self.push_entry(path, SnapshotContent::Binary(copy));
    }
}

} // verus!
