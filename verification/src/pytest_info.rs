//! The test-context resolver: parses the opaque "current test" identity
//! string of the form `"<path>::<name>[ <annotation>]"` into its test-file
//! path and test name, and locates the test file on disk.

use vstd::prelude::*;
use vstd::string::*;
use crate::errors::PytestInfoError;
use crate::pathutil;
use crate::strutil;
use crate::strutil::dcolon_at;

verus! {

/// The identity of the currently running test: where its file lives and
/// what the test is called.
#[derive(Debug, Clone, PartialEq, Eq)]
pub struct PytestInfo {
    pub test_path: String,
    pub test_name: String,
}

/// Whether the first `"::"` of `s` stands at index `i`.
pub open spec fn first_dcolon_at(s: Seq<char>, i: int) -> bool {
    dcolon_at(s, i) && forall|j: int| 0 <= j < i ==> !dcolon_at(s, j)
}

/// Whether `name` is the test-name component of `rest` (what follows the
/// `"::"` separator): everything before the first space, or all of `rest`
/// when no space-delimited annotation trails it.
pub open spec fn spec_test_name_of(rest: Seq<char>, name: Seq<char>) -> bool {
    strutil::spec_prefix_before_char(rest, ' ', name)
}

impl PytestInfo {
    /// Parses a raw identity string: splits at the first `"::"` into test
    /// path and remainder, drops a space-delimited trailing annotation from
    /// the remainder, and fails when no `"::"` occurs at all.
    pub fn parse(s: &str) -> (r: Result<PytestInfo, PytestInfoError>)
        ensures
            match r {
                Ok(info) => exists|i: int|
                    #[trigger] first_dcolon_at(s@, i) && info.test_path@ == s@.take(i)
                        && spec_test_name_of(s@.skip(i + 2), info.test_name@),
                Err(e) => (forall|j: int| !dcolon_at(s@, j)) && (e matches
                    PytestInfoError::CouldNotSplit(t) && t@ == s@),
            },
    {
        let n = s.unicode_len();
        match strutil::find_dcolon(s) {
            None => Err(PytestInfoError::CouldNotSplit(s.to_owned())),
            Some(i) => {
                let test_path = s.substring_char(0, i).to_owned();
                let rest = s.substring_char(i + 2, n);
                let test_name = strutil::prefix_before_char(rest, ' ');
                proof {
                    assert(test_path@ =~= s@.take(i as int));
                    assert(rest@ =~= s@.skip(i + 2));
                    assert(first_dcolon_at(s@, i as int));
                    assert(spec_test_name_of(s@.skip(i + 2), test_name@));
                }
                Ok(PytestInfo { test_path, test_name })
            },
        }
    }

    /// The raw test-path component, untouched.
    pub fn test_path_raw(&self) -> (r: String)
        ensures
            r@ == self.test_path@,
    {
        self.test_path.clone()
    }

    /// Resolves the test-path component to a usable path: the literal path
    /// if it exists on disk, otherwise the bare file name under the current
    /// directory, otherwise a failure. Which branch applies depends on the
    /// machine's filesystem; the selection itself is `locate_from_exists`,
    /// exact in the probe's answer.
    pub fn test_path(&self) -> (r: Result<String, PytestInfoError>)
        ensures
            match r {
                Ok(p) => p@ == self.test_path@ || (pathutil::spec_file_name(self.test_path@)
                    matches Some(f) && p@ == "./"@ + f),
                Err(e) => e == PytestInfoError::NoTestFile
                    && pathutil::spec_file_name(self.test_path@) is None,
            },
    {
        let on_disk = path_exists(self.test_path.as_str());
        locate_from_exists(self.test_path.as_str(), on_disk)
    }
}

/// Selects the usable test path from the filesystem probe's answer: the
/// literal path when it exists, otherwise the bare file name under the
/// current directory, otherwise no test file.
pub fn locate_from_exists(path: &str, on_disk: bool) -> (r: Result<String, PytestInfoError>)
    ensures
        on_disk ==> (r matches Ok(p) && p@ == path@),
        !on_disk ==> (pathutil::spec_file_name(path@) matches Some(f) ==> (r matches Ok(p)
            && p@ == "./"@ + f)),
        (!on_disk && pathutil::spec_file_name(path@) is None) ==> r == Result::<String,
            PytestInfoError>::Err(PytestInfoError::NoTestFile),
{
    if on_disk {
        Ok(path.to_owned())
    } else {
        match pathutil::file_name_of(path) {
            Some(f) => Ok(strutil::concat_str("./", f.as_str())),
            None => Err(PytestInfoError::NoTestFile),
        }
    }
}

/// For a well-formed identity `p + "::" + n` — no `"::"` inside `p`, `p`
/// not ending in `':'`, no space in `n` — the parse contract pins the
/// split exactly: the first separator stands right after `p`, the path
/// component is `p`, and the test name is `n`.
pub proof fn lemma_resolve_exact(s: Seq<char>, p: Seq<char>, n: Seq<char>)
    requires
        s == p + "::"@ + n,
        forall|j: int| !dcolon_at(p, j),
        p.len() == 0 || p.last() != ':',
        forall|j: int| 0 <= j < n.len() ==> n[j] != ' ',
    ensures
        first_dcolon_at(s, p.len() as int),
        forall|i: int| #[trigger] first_dcolon_at(s, i) ==> i == p.len(),
        s.take(p.len() as int) == p,
        spec_test_name_of(s.skip(p.len() as int + 2), n),
{
    reveal_strlit("::");
    let d = "::"@;
    assert(d.len() == 2 && d[0] == ':' && d[1] == ':');
    assert(s.len() == p.len() + 2 + n.len());
    assert forall|k: int| 0 <= k < p.len() implies s[k] == p[k] by {
        assert((p + d)[k] == p[k]);
    }
    assert(s[p.len() as int] == ':' && s[p.len() as int + 1] == ':') by {
        assert((p + d)[p.len() as int] == d[0]);
        assert((p + d)[p.len() as int + 1] == d[1]);
    }
    assert(dcolon_at(s, p.len() as int));
    assert forall|j: int| 0 <= j < p.len() implies !dcolon_at(s, j) by {
        if j + 1 < p.len() {
            assert(!dcolon_at(p, j));
        } else {
            assert(s[j] == p[p.len() - 1]);
        }
    }
    assert(first_dcolon_at(s, p.len() as int));
    assert forall|i: int| #[trigger] first_dcolon_at(s, i) implies i == p.len() by {
        if i > p.len() {
            assert(!dcolon_at(s, p.len() as int));
        }
    }
    assert(s.take(p.len() as int) =~= p);
    let rest = s.skip(p.len() as int + 2);
    assert(rest =~= n) by {
        assert forall|k: int| 0 <= k < n.len() implies s[p.len() as int + 2 + k] == n[k] by {}
    }
    assert(spec_test_name_of(rest, n));
}

/// For a well-formed identity `p + "::" + n + " " + stage`, the parse
/// contract drops the space-delimited annotation exactly: the path
/// component is `p` and the test name is `n`, the stage discarded.
pub proof fn lemma_resolve_drops_annotation(s: Seq<char>, p: Seq<char>, n: Seq<char>,
    stage: Seq<char>)
    requires
        s == p + "::"@ + n + seq![' '] + stage,
        forall|j: int| !dcolon_at(p, j),
        p.len() == 0 || p.last() != ':',
        forall|j: int| 0 <= j < n.len() ==> n[j] != ' ',
    ensures
        first_dcolon_at(s, p.len() as int),
        forall|i: int| #[trigger] first_dcolon_at(s, i) ==> i == p.len(),
        s.take(p.len() as int) == p,
        spec_test_name_of(s.skip(p.len() as int + 2), n),
{
    reveal_strlit("::");
    let d = "::"@;
    assert(d.len() == 2 && d[0] == ':' && d[1] == ':');
    assert(s.len() == p.len() + 2 + n.len() + 1 + stage.len());
    assert forall|k: int| 0 <= k < p.len() implies s[k] == p[k] by {
        assert((p + d)[k] == p[k]);
        assert((p + d + n)[k] == (p + d)[k]);
        assert((p + d + n + seq![' '])[k] == (p + d + n)[k]);
    }
    assert(s[p.len() as int] == ':' && s[p.len() as int + 1] == ':') by {
        assert((p + d)[p.len() as int] == d[0]);
        assert((p + d)[p.len() as int + 1] == d[1]);
        assert((p + d + n)[p.len() as int] == (p + d)[p.len() as int]);
        assert((p + d + n)[p.len() as int + 1] == (p + d)[p.len() as int + 1]);
        assert((p + d + n + seq![' '])[p.len() as int] == (p + d + n)[p.len() as int]);
        assert((p + d + n + seq![' '])[p.len() as int + 1] == (p + d + n)[p.len() as int + 1]);
    }
    assert(dcolon_at(s, p.len() as int));
    assert forall|j: int| 0 <= j < p.len() implies !dcolon_at(s, j) by {
        if j + 1 < p.len() {
            assert(!dcolon_at(p, j));
        } else {
            assert(s[j] == p[p.len() - 1]);
        }
    }
    assert(first_dcolon_at(s, p.len() as int));
    assert forall|i: int| #[trigger] first_dcolon_at(s, i) implies i == p.len() by {
        if i > p.len() {
            assert(!dcolon_at(s, p.len() as int));
        }
    }
    assert(s.take(p.len() as int) =~= p);
    let rest = s.skip(p.len() as int + 2);
    assert(rest =~= n + seq![' '] + stage);
    assert(strutil::first_char_at(rest, ' ', n.len() as int)) by {
        assert(rest[n.len() as int] == ' ') by {
            assert((n + seq![' '])[n.len() as int] == ' ');
            assert((n + seq![' '] + stage)[n.len() as int] == (n + seq![' '])[n.len() as int]);
        }
        assert forall|j: int| 0 <= j < n.len() implies rest[j] != ' ' by {
            assert((n + seq![' '])[j] == n[j]);
            assert((n + seq![' '] + stage)[j] == (n + seq![' '])[j]);
        }
    }
    assert(rest.take(n.len() as int) =~= n);
    assert(spec_test_name_of(rest, n));
}

/// Relies on std::path::Path::exists: whether a file or directory is
/// reachable at `p` right now. The answer depends on the machine's
/// filesystem state, so nothing is promised of it.
#[verifier::external_body]
fn path_exists(p: &str) -> bool {
    std::path::Path::new(p).exists()
}

/// Relies on std::path::Path::canonicalize: the absolute form of `p` with
/// symbolic links resolved, or a failure message. The result depends on the
/// filesystem, so nothing is promised of it.
#[verifier::external_body]
pub(crate) fn canonicalize_path(p: &str) -> (r: Result<String, String>)
{
    match std::path::Path::new(p).canonicalize() {
        Ok(c) => Ok(c.to_string_lossy().into_owned()),
        Err(e) => Err(format!("{e}")),
    }
}

} // verus!
