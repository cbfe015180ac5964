//! The process-wide name-counter table: a mapping from a snapshot base name
//! to the number of times that name has been allocated. Counters only
//! increase; a name that was never allocated counts as zero. The table is an
//! explicit value handed to every allocation, so callers decide how it is
//! shared (the surrounding program keeps one table behind a lock).

use vstd::prelude::*;
use vstd::string::*;
use vstd::pervasive::VecAdditionalExecFns;
use crate::strutil;

verus! {

/// Maps snapshot base names to how often each has been allocated.
pub struct CounterTable {
    entries: Vec<(String, u64)>,
}

/// The counter stored for `k`, scanning entries newest first; `0` if absent.
pub closed spec fn seq_get(s: Seq<(String, u64)>, k: Seq<char>) -> u64
    decreases s.len(),
{
    if s.len() == 0 {
        0
    } else if s.last().0@ == k {
        s.last().1
    } else {
        seq_get(s.drop_last(), k)
    }
}

proof fn lemma_seq_get_update_other(s: Seq<(String, u64)>, i: int, e: (String, u64), k: Seq<char>)
    requires
        0 <= i < s.len(),
        s[i].0@ != k,
        e.0@ != k,
    ensures
        seq_get(s.update(i, e), k) == seq_get(s, k),
    decreases s.len(),
{
    let t = s.update(i, e);
    if i == s.len() - 1 {
        assert(t.drop_last() =~= s.drop_last());
    } else {
        assert(t.last() == s.last());
        assert(t.drop_last() =~= s.drop_last().update(i, e));
        lemma_seq_get_update_other(s.drop_last(), i, e, k);
    }
}

impl CounterTable {
    /// The counter this table holds for base name `k`; `0` when the name was
    /// never allocated.
    pub closed spec fn spec_get(&self, k: Seq<char>) -> u64 {
        seq_get(self.entries@, k)
    }

    /// A fresh table with every counter at zero.
    pub fn new() -> (r: CounterTable)
        ensures
            forall|k: Seq<char>| #[trigger] r.spec_get(k) == 0,
    {
        CounterTable { entries: Vec::new() }
    }

    /// Reads the counter for `name`, `0` if absent.
    pub fn get(&self, name: &str) -> (r: u64)
        ensures
            r == self.spec_get(name@),
    {
        let n = self.entries.len();
        let mut i: usize = n;
        proof {
            assert(self.entries@.take(n as int) =~= self.entries@);
        }
        while i > 0
            invariant
                i <= n,
                n == self.entries@.len(),
                seq_get(self.entries@, name@) == seq_get(self.entries@.take(i as int), name@),
            decreases i,
        {
            i = i - 1;
            if strutil::str_eq(self.entries[i].0.as_str(), name) {
                proof {
                    assert(self.entries@.take(i + 1).last() == self.entries@[i as int]);
                }
                return self.entries[i].1;
            }
            proof {
                assert(self.entries@.take(i + 1).drop_last() =~= self.entries@.take(i as int));
            }
        }
        proof {
            assert(self.entries@.take(0) =~= Seq::<(String, u64)>::empty());
        }
        0
    }

    /// Stores `value` as the counter for `name`, leaving every other counter
    /// unchanged. Kept inside the crate: counters only ever advance, through
    /// the allocator.
    pub(crate) fn set(&mut self, name: &str, value: u64)
        ensures
            forall|k: Seq<char>| #[trigger] final(self).spec_get(k) == if k == name@ {
                value
            } else {
                old(self).spec_get(k)
            },
    {
        let n = self.entries.len();
        let mut i: usize = n;
        while i > 0
            invariant
                i <= n,
                n == self.entries@.len(),
                *self == *old(self),
                forall|j: int| i <= j < n ==> self.entries@[j].0@ != name@,
            decreases i,
        {
            i = i - 1;
            if strutil::str_eq(self.entries[i].0.as_str(), name) {
                let ghost olds = self.entries@;
                let ghost idx = i as int;
                self.entries.set(i, (name.to_owned(), value));
                proof {
                    let news = self.entries@;
                    assert forall|k: Seq<char>| #[trigger] seq_get(news, k) == if k == name@ {
                        value
                    } else {
                        seq_get(olds, k)
                    } by {
                        if k == name@ {
                            lemma_seq_get_found_last(news, idx, k);
                        } else {
                            lemma_seq_get_update_other(olds, idx, (news[idx].0, news[idx].1), k);
                            assert(news =~= olds.update(idx, news[idx]));
                        }
                    }
                }
                return;
            }
        }
        let ghost olds = self.entries@;
        self.entries.push((name.to_owned(), value));
        proof {
            let news = self.entries@;
            assert(news.last().0@ == name@);
            assert(news.drop_last() =~= olds);
        }
    }
}

/// If every entry after index `i` misses `k` and entry `i` hits it, the
/// newest-first scan yields entry `i`'s value.
proof fn lemma_seq_get_found_last(s: Seq<(String, u64)>, i: int, k: Seq<char>)
    requires
        0 <= i < s.len(),
        s[i].0@ == k,
        forall|j: int| i < j < s.len() ==> s[j].0@ != k,
    ensures
        seq_get(s, k) == s[i].1,
    decreases s.len(),
{
    if i == s.len() - 1 {
    } else {
        assert(s.last().0@ != k);
        assert(s.drop_last()[i] == s[i]);
        lemma_seq_get_found_last(s.drop_last(), i, k);
    }
}

} // verus!
