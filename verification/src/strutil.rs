//! Verified helpers over `String` and `&str`: concatenation, decimal
//! rendering, character search, and the `"::"` → `"__"` rewriting used for
//! module paths in snapshot file names.

use vstd::prelude::*;
use vstd::string::*;

verus! {

/// Decimal digit characters of `n`, most significant first.
pub open spec fn spec_u64_dec(n: nat) -> Seq<char>
    decreases n,
{
    if n < 10 {
        seq![spec_digit_char(n)]
    } else {
        spec_u64_dec(n / 10) + seq![spec_digit_char(n % 10)]
    }
}

/// The character for a single decimal digit.
pub open spec fn spec_digit_char(d: nat) -> char {
    if d == 0 {
        '0'
    } else if d == 1 {
        '1'
    } else if d == 2 {
        '2'
    } else if d == 3 {
        '3'
    } else if d == 4 {
        '4'
    } else if d == 5 {
        '5'
    } else if d == 6 {
        '6'
    } else if d == 7 {
        '7'
    } else if d == 8 {
        '8'
    } else {
        '9'
    }
}

/// The concatenation of two string slices.
pub fn concat_str(a: &str, b: &str) -> (r: String)
    ensures
        r@ == a@ + b@,
{
    let mut s = a.to_owned();
    s.append(b);
    s
}

/// A one-character string slice for a decimal digit.
fn digit_str(d: u64) -> (r: &'static str)
    requires
        d < 10,
    ensures
        r@ =~= seq![spec_digit_char(d as nat)],
{
    proof {
        reveal_strlit("0");
        reveal_strlit("1");
        reveal_strlit("2");
        reveal_strlit("3");
        reveal_strlit("4");
        reveal_strlit("5");
        reveal_strlit("6");
        reveal_strlit("7");
        reveal_strlit("8");
        reveal_strlit("9");
    }
    if d == 0 {
        "0"
    } else if d == 1 {
        "1"
    } else if d == 2 {
        "2"
    } else if d == 3 {
        "3"
    } else if d == 4 {
        "4"
    } else if d == 5 {
        "5"
    } else if d == 6 {
        "6"
    } else if d == 7 {
        "7"
    } else if d == 8 {
        "8"
    } else {
        "9"
    }
}

/// Renders `n` in decimal.
pub fn u64_to_dec(n: u64) -> (r: String)
    ensures
        r@ == spec_u64_dec(n as nat),
    decreases n,
{
    if n < 10 {
        digit_str(n).to_owned()
    } else {
        let mut s = u64_to_dec(n / 10);
        s.append(digit_str(n % 10));
        s
    }
}

/// First index at or after which `c` occurs in `s`, scanning left to right.
pub fn find_char(s: &str, c: char) -> (r: Option<usize>)
    ensures
        match r {
            Some(i) => i < s@.len() && s@[i as int] == c && forall|j: int|
                0 <= j < i ==> s@[j] != c,
            None => forall|j: int| 0 <= j < s@.len() ==> s@[j] != c,
        },
{
    let n = s.unicode_len();
    let mut i: usize = 0;
    while i < n
        invariant
            n == s@.len(),
            i <= n,
            forall|j: int| 0 <= j < i ==> s@[j] != c,
        decreases n - i,
    {
        if s.get_char(i) == c {
            return Some(i);
        }
        i = i + 1;
    }
    None
}

/// Last index at which `c` occurs in `s`.
pub fn rfind_char(s: &str, c: char) -> (r: Option<usize>)
    ensures
        match r {
            Some(i) => i < s@.len() && s@[i as int] == c && forall|j: int|
                i < j < s@.len() ==> s@[j] != c,
            None => forall|j: int| 0 <= j < s@.len() ==> s@[j] != c,
        },
{
    let n = s.unicode_len();
    let mut i: usize = n;
    while i > 0
        invariant
            n == s@.len(),
            i <= n,
            forall|j: int| i <= j < s@.len() ==> s@[j] != c,
        decreases i,
    {
        i = i - 1;
        if s.get_char(i) == c {
            return Some(i);
        }
    }
    None
}

/// Whether the two-character separator `"::"` stands at index `i` of `s`.
pub open spec fn dcolon_at(s: Seq<char>, i: int) -> bool {
    0 <= i && i + 1 < s.len() && s[i] == ':' && s[i + 1] == ':'
}

/// First index at which `"::"` occurs in `s`.
pub fn find_dcolon(s: &str) -> (r: Option<usize>)
    ensures
        match r {
            Some(i) => dcolon_at(s@, i as int) && forall|j: int| 0 <= j < i ==> !dcolon_at(s@, j),
            None => forall|j: int| !dcolon_at(s@, j),
        },
{
    let n = s.unicode_len();
    if n == 0 {
        return None;
    }
    let mut i: usize = 0;
    while i < n - 1
        invariant
            n == s@.len(),
            0 < n,
            i <= n,
            forall|j: int| 0 <= j < i ==> !dcolon_at(s@, j),
        decreases n - i,
    {
        if s.get_char(i) == ':' && s.get_char(i + 1) == ':' {
            return Some(i);
        }
        i = i + 1;
    }
    None
}

/// Whether the first occurrence of `c` in `s` stands at index `i`.
pub open spec fn first_char_at(s: Seq<char>, c: char, i: int) -> bool {
    0 <= i < s.len() && s[i] == c && forall|j: int| 0 <= j < i ==> s[j] != c
}

/// Whether `p` is the prefix of `s` that precedes the first occurrence of
/// `c` (all of `s` when `c` never occurs).
pub open spec fn spec_prefix_before_char(s: Seq<char>, c: char, p: Seq<char>) -> bool {
    ||| (exists|k: int| first_char_at(s, c, k) && p == s.take(k))
    ||| ((forall|j: int| 0 <= j < s.len() ==> s[j] != c) && p == s)
}

/// The prefix of `s` that precedes the first occurrence of `c`, or all of
/// `s` when `c` never occurs.
pub fn prefix_before_char(s: &str, c: char) -> (r: String)
    ensures
        spec_prefix_before_char(s@, c, r@),
{
    match find_char(s, c) {
        Some(k) => {
            let p = s.substring_char(0, k).to_owned();
            proof {
                assert(p@ =~= s@.take(k as int));
                assert(first_char_at(s@, c, k as int));
            }
            p
        },
        None => s.to_owned(),
    }
}

/// Whether the two string views are equal, decided character by character.
pub fn str_eq(a: &str, b: &str) -> (r: bool)
    ensures
        r == (a@ == b@),
{
    let an = a.unicode_len();
    let bn = b.unicode_len();
    if an != bn {
        proof {
            assert(a@ != b@) by {
                assert(a@.len() != b@.len());
            }
        }
        return false;
    }
    let mut i: usize = 0;
    while i < an
        invariant
            an == a@.len(),
            an == b@.len(),
            i <= an,
            forall|j: int| 0 <= j < i ==> a@[j] == b@[j],
        decreases an - i,
    {
        if s_ne(a.get_char(i), b.get_char(i)) {
            proof {
                assert(a@ != b@) by {
                    assert(a@[i as int] != b@[i as int]);
                }
            }
            return false;
        }
        i = i + 1;
    }
    proof {
        assert(a@ =~= b@);
    }
    true
}

/// Character inequality, spelled out so that the comparison is explicit.
fn s_ne(x: char, y: char) -> (r: bool)
    ensures
        r == (x != y),
{
    x != y
}

/// `s` with every occurrence of `"::"` (scanned left to right, without
/// overlap) replaced by `"__"`, from index `i` on.
pub open spec fn spec_replace_dcolon_from(s: Seq<char>, i: int) -> Seq<char>
    decreases s.len() - i,
    when 0 <= i <= s.len()
{
    if i >= s.len() {
        Seq::empty()
    } else if dcolon_at(s, i) {
        seq!['_', '_'] + spec_replace_dcolon_from(s, i + 2)
    } else {
        seq![s[i]] + spec_replace_dcolon_from(s, i + 1)
    }
}

/// `s` with every occurrence of `"::"` replaced by `"__"`.
pub open spec fn spec_replace_dcolon(s: Seq<char>) -> Seq<char> {
    spec_replace_dcolon_from(s, 0)
}

/// Rewrites each `"::"` separator of `s` as `"__"`.
pub fn replace_dcolon(s: &str) -> (r: String)
    ensures
        r@ == spec_replace_dcolon(s@),
{
    let n = s.unicode_len();
    let mut out = String::new();
    let mut i: usize = 0;
    while i < n
        invariant
            n == s@.len(),
            i <= n,
            out@ + spec_replace_dcolon_from(s@, i as int) =~= spec_replace_dcolon(s@),
        decreases n - i,
    {
        if i + 1 < n && s.get_char(i) == ':' && s.get_char(i + 1) == ':' {
            out.append("__");
            proof {
                reveal_strlit("__");
                assert(out@ + spec_replace_dcolon_from(s@, i + 2) =~= spec_replace_dcolon(s@));
            }
            i = i + 2;
        } else {
            let piece = s.substring_char(i, i + 1);
            out.append(piece);
            proof {
                assert(piece@ =~= seq![s@[i as int]]);
                assert(out@ + spec_replace_dcolon_from(s@, i + 1) =~= spec_replace_dcolon(s@));
            }
            i = i + 1;
        }
    }
    proof {
        assert(out@ =~= spec_replace_dcolon(s@));
    }
    out
}

} // verus!
