//! A small model of filesystem paths as plain strings with `'/'`
//! separators: final component, file stem, parent directory, and joining.
//! The final-component rules follow std's component walk: trailing
//! separators and trailing current-directory components are ignored, and
//! `".."` names no file. Parent extraction is used on canonical paths,
//! which are absolute and carry no trailing separator.

use vstd::prelude::*;
use vstd::string::*;
use vstd::seq_lib::*;
use crate::strutil;

verus! {

/// `p` without trailing separators and trailing current-directory
/// components: `"a/b//"`, `"a/b/."` and `"a/b/./"` all end at the
/// component `b`, and a bare `"."` vanishes.
pub open spec fn spec_trim_trail(p: Seq<char>) -> Seq<char>
    decreases p.len(),
{
    if p.len() == 0 {
        p
    } else if p.last() == '/' {
        spec_trim_trail(p.drop_last())
    } else if p.last() == '.' && p.len() >= 2 && p[p.len() - 2] == '/' {
        spec_trim_trail(p.drop_last())
    } else if p.len() == 1 && p.last() == '.' {
        Seq::empty()
    } else {
        p
    }
}

/// The final component of `p`, trailing separators and current-directory
/// components ignored: what follows the last `'/'` (all of the trimmed
/// path when there is none), unless that is empty or a dot component.
pub open spec fn spec_file_name(p: Seq<char>) -> Option<Seq<char>> {
    let t = spec_trim_trail(p);
    let tail = match t.index_of_last('/') {
        Option::None => t,
        Option::Some(i) => t.skip(i + 1),
    };
    if tail.len() == 0 || tail == seq!['.'] || tail == seq!['.', '.'] {
        Option::None
    } else {
        Option::Some(tail)
    }
}

/// The final component of `p` without its extension: everything before the
/// last `'.'`, unless that dot leads the component.
pub open spec fn spec_file_stem(p: Seq<char>) -> Option<Seq<char>> {
    match spec_file_name(p) {
        Option::None => Option::None,
        Option::Some(f) => match f.index_of_last('.') {
            Option::Some(i) => if i > 0 {
                Option::Some(f.take(i))
            } else {
                Option::Some(f)
            },
            Option::None => Option::Some(f),
        },
    }
}

/// The directory holding `p`: what precedes the last `'/'` (the root `"/"`
/// when that separator leads the path); nothing for a bare name or the root
/// itself.
pub open spec fn spec_parent(p: Seq<char>) -> Option<Seq<char>> {
    match p.index_of_last('/') {
        Option::None => Option::None,
        Option::Some(i) => if i == 0 {
            if p.len() == 1 {
                Option::None
            } else {
                Option::Some(seq!['/'])
            }
        } else {
            Option::Some(p.take(i))
        },
    }
}

/// `dir` and `file` joined with a single `'/'`.
pub open spec fn spec_join(dir: Seq<char>, file: Seq<char>) -> Seq<char> {
    if dir.len() == 0 {
        file
    } else if dir.last() == '/' {
        dir + file
    } else {
        dir + seq!['/'] + file
    }
}

/// Proves that an exec-found last occurrence agrees with `index_of_last`.
proof fn lemma_last_index(s: Seq<char>, c: char, i: int)
    requires
        0 <= i < s.len(),
        s[i] == c,
        forall|j: int| i < j < s.len() ==> s[j] != c,
    ensures
        s.index_of_last(c) == Option::Some(i),
{
    s.index_of_last_ensures(c);
    assert(s.contains(c));
    match s.index_of_last(c) {
        Option::None => {
            assert(false);
        },
        Option::Some(k) => {
            if k < i {
                assert(s[i] == c);
                assert(false);
            } else if k > i {
                assert(s[k] != c);
                assert(false);
            }
        },
    }
}

/// Proves that when no occurrence exists, `index_of_last` finds none.
proof fn lemma_no_last_index(s: Seq<char>, c: char)
    requires
        forall|j: int| 0 <= j < s.len() ==> s[j] != c,
    ensures
        s.index_of_last(c) == Option::<int>::None,
{
    s.index_of_last_ensures(c);
    match s.index_of_last(c) {
        Option::None => {},
        Option::Some(k) => {
            assert(s[k] == c);
            assert(false);
        },
    }
}

/// The number of leading characters of `p` left once trailing separators
/// and current-directory components are dropped.
fn trimmed_len(p: &str) -> (r: usize)
    ensures
        r <= p@.len(),
        spec_trim_trail(p@) == p@.take(r as int),
{
    let mut n = p.unicode_len();
    proof {
        assert(p@.take(n as int) =~= p@);
    }
    loop
        invariant
            n <= p@.len(),
            spec_trim_trail(p@) == spec_trim_trail(p@.take(n as int)),
        decreases n,
    {
        if n == 0 {
            proof {
                assert(p@.take(0) =~= Seq::<char>::empty());
            }
            return 0;
        }
        let c = p.get_char(n - 1);
        if c == '/' {
            proof {
                assert(p@.take(n as int).drop_last() =~= p@.take(n - 1));
            }
            n = n - 1;
        } else if c == '.' && n >= 2 && p.get_char(n - 2) == '/' {
            proof {
                assert(p@.take(n as int).drop_last() =~= p@.take(n - 1));
            }
            n = n - 1;
        } else if c == '.' && n == 1 {
            proof {
                assert(spec_trim_trail(p@.take(1)) =~= Seq::<char>::empty());
                assert(p@.take(0) =~= Seq::<char>::empty());
            }
            return 0;
        } else {
            return n;
        }
    }
}

/// The final component of `p`, as `spec_file_name` describes it.
pub fn file_name_of(p: &str) -> (r: Option<String>)
    ensures
        match r {
            Some(f) => spec_file_name(p@) == Option::Some(f@),
            None => spec_file_name(p@) == Option::<Seq<char>>::None,
        },
{
    let n = trimmed_len(p);
    let t = p.substring_char(0, n);
    proof {
        assert(t@ =~= spec_trim_trail(p@));
    }
    let tail: String = match strutil::rfind_char(t, '/') {
        Some(i) => {
            proof {
                lemma_last_index(t@, '/', i as int);
            }
            t.substring_char(i + 1, n).to_owned()
        },
        None => {
            proof {
                lemma_no_last_index(t@, '/');
                assert(t@.skip(0) =~= t@);
            }
            t.to_owned()
        },
    };
    proof {
        reveal_strlit(".");
        reveal_strlit("..");
    }
    if tail.as_str().unicode_len() == 0 || strutil::str_eq(tail.as_str(), ".")
        || strutil::str_eq(tail.as_str(), "..") {
        proof {
            assert("."@ =~= seq!['.']);
            assert(".."@ =~= seq!['.', '.']);
        }
        None
    } else {
        proof {
            assert(tail@ != seq!['.'] && tail@ != seq!['.', '.']) by {
                assert("."@ =~= seq!['.']);
                assert(".."@ =~= seq!['.', '.']);
            }
        }
        Some(tail)
    }
}

/// The file stem of `p`, as `spec_file_stem` describes it.
pub fn file_stem_of(p: &str) -> (r: Option<String>)
    ensures
        match r {
            Some(f) => spec_file_stem(p@) == Option::Some(f@),
            None => spec_file_stem(p@) == Option::<Seq<char>>::None,
        },
{
    match file_name_of(p) {
        None => None,
        Some(f) => {
            let fs = f.as_str();
            let fl = fs.unicode_len();
            match strutil::rfind_char(fs, '.') {
                Some(i) => {
                    proof {
                        lemma_last_index(f@, '.', i as int);
                    }
                    if i > 0 {
                        Some(fs.substring_char(0, i).to_owned())
                    } else {
                        Some(f)
                    }
                },
                None => {
                    proof {
                        lemma_no_last_index(f@, '.');
                    }
                    Some(f)
                },
            }
        },
    }
}

/// The parent directory of `p`, as `spec_parent` describes it.
pub fn parent_of(p: &str) -> (r: Option<String>)
    ensures
        match r {
            Some(d) => spec_parent(p@) == Option::Some(d@),
            None => spec_parent(p@) == Option::<Seq<char>>::None,
        },
{
    let n = p.unicode_len();
    match strutil::rfind_char(p, '/') {
        None => {
            proof {
                lemma_no_last_index(p@, '/');
            }
            None
        },
        Some(i) => {
            proof {
                lemma_last_index(p@, '/', i as int);
            }
            if i == 0 {
                if n == 1 {
                    None
                } else {
                    proof {
                        reveal_strlit("/");
                        assert("/"@ =~= seq!['/']);
                    }
                    Some("/".to_owned())
                }
            } else {
                Some(p.substring_char(0, i).to_owned())
            }
        },
    }
}

/// Joins `dir` and `file` with a single `'/'`, as `spec_join` describes.
pub fn join_path(dir: &str, file: &str) -> (r: String)
    ensures
        r@ == spec_join(dir@, file@),
{
    let n = dir.unicode_len();
    if n == 0 {
        file.to_owned()
    } else if dir.get_char(n - 1) == '/' {
        strutil::concat_str(dir, file)
    } else {
        let mut s = dir.to_owned();
        s.append("/");
        s.append(file);
        proof {
            reveal_strlit("/");
            assert(s@ =~= dir@ + seq!['/'] + file@);
        }
        s
    }
}

} // verus!
