//! Duplicate detection over the values a transaction spends: the first
//! value that repeats, with proofs connecting it to the existence of any
//! repetition.

use vstd::prelude::*;

use crate::orchard;
use crate::sapling;
use crate::sprout;
use crate::transparent::OutPoint;

verus! {

/// Whether any value appears twice in `s`.
pub open spec fn spec_has_duplicate<T>(s: Seq<T>) -> bool {
    exists|i: int, j: int| 0 <= i < j < s.len() && s[i] == s[j]
}

/// The first value of `s` whose second occurrence appears earliest, or
/// `None` when all values are distinct.
pub open spec fn spec_first_dup<T>(s: Seq<T>) -> Option<T>
    decreases s.len(),
{
    if s.len() == 0 {
        None
    } else {
        match spec_first_dup(s.drop_last()) {
            Some(v) => Some(v),
            None => if s.drop_last().contains(s.last()) {
                Some(s.last())
            } else {
                None
            },
        }
    }
}

/// A prefix that already repeats fixes the result for the whole sequence.
pub proof fn lemma_first_dup_extend<T>(s: Seq<T>, k: int)
    requires
        0 <= k <= s.len(),
        spec_first_dup(s.take(k)) is Some,
    ensures
        spec_first_dup(s) == spec_first_dup(s.take(k)),
    decreases s.len() - k,
{
    if k < s.len() {
        assert(s.take(k + 1).drop_last() =~= s.take(k));
        lemma_first_dup_extend(s, k + 1);
    } else {
        assert(s.take(k) =~= s);
    }
}

/// The scan misses nothing: it returns `None` exactly on duplicate-free
/// sequences, and what it returns really does appear twice.
pub proof fn lemma_first_dup_correct<T>(s: Seq<T>)
    ensures
        (spec_first_dup(s) is None) <==> !spec_has_duplicate(s),
        spec_first_dup(s) matches Some(v) ==> exists|i: int, j: int|
            0 <= i < j < s.len() && s[i] == s[j] && s[j] == v,
    decreases s.len(),
{
    if s.len() > 0 {
        let t = s.drop_last();
        lemma_first_dup_correct(t);
        if spec_first_dup(t) is Some {
            let v = spec_first_dup(t)->Some_0;
            let (i, j) = choose|i: int, j: int| 0 <= i < j < t.len() && t[i] == t[j] && t[j] == v;
            assert(s[i] == s[j] && s[j] == v);
        } else {
            if t.contains(s.last()) {
                let i = choose|i: int| 0 <= i < t.len() && t[i] == s.last();
                assert(s[i] == s[s.len() - 1]);
            } else {
                if spec_has_duplicate(s) {
                    let (i, j) = choose|i: int, j: int| 0 <= i < j < s.len() && s[i] == s[j];
                    if j < s.len() - 1 {
                        assert(t[i] == t[j]);
                        assert(spec_has_duplicate(t));
                    } else {
                        assert(t[i] == s.last());
                        assert(t.contains(s.last()));
                    }
                    assert(false);
                }
            }
        }
    }
}

/// When `v` is the only value that repeats in `s`, the scan returns it.
pub proof fn lemma_first_dup_unique_value<T>(s: Seq<T>, v: T)
    requires
        spec_has_duplicate(s),
        forall|i: int, j: int| 0 <= i < j < s.len() && s[i] == s[j] ==> s[j] == v,
    ensures
        spec_first_dup(s) == Some(v),
{
    lemma_first_dup_correct(s);
    if spec_first_dup(s) is Some {
        let w = spec_first_dup(s)->Some_0;
        let (i, j) = choose|i: int, j: int| 0 <= i < j < s.len() && s[i] == s[j] && s[j] == w;
        assert(s[j] == v);
    }
}

/// Finds the first repeated outpoint in `s`.
pub fn find_duplicate_outpoint(s: &Vec<OutPoint>) -> (r: Option<OutPoint>)
    ensures
        r == spec_first_dup(s@),
{
    let n = s.len();
    if n == 0 {
        proof {
            assert(s@.take(0) =~= s@);
        }
        return None;
    }
    proof {
        assert(s@.take(1).drop_last() =~= Seq::<OutPoint>::empty());
        assert(spec_first_dup(Seq::<OutPoint>::empty()) is None);
        assert(!Seq::<OutPoint>::empty().contains(s@.take(1).last()));
        assert(spec_first_dup(s@.take(1)) is None);
    }
    let mut j: usize = 1;
    while j < n
        invariant
            n == s@.len(),
            1 <= j <= n,
            spec_first_dup(s@.take(j as int)) is None,
        decreases n - j,
    {
        let mut i: usize = 0;
        while i < j
            invariant
                n == s@.len(),
                i <= j < n,
                spec_first_dup(s@.take(j as int)) is None,
                forall|k: int| 0 <= k < i ==> s@[k] != s@[j as int],
            decreases j - i,
        {
            if s[i].eq_outpoint(&s[j]) {
                proof {
                    assert(s@.take(j as int)[i as int] == s@[j as int]);
                    assert(s@.take(j as int).contains(s@[j as int]));
                    assert(s@.take(j + 1 as int).drop_last() =~= s@.take(j as int));
                    assert(s@.take(j + 1 as int).last() == s@[j as int]);
                    assert(spec_first_dup(s@.take(j + 1 as int)) == Some(s@[j as int]));
                    lemma_first_dup_extend(s@, j + 1 as int);
                }
                return Some(s[j]);
            }
            i = i + 1;
        }
        proof {
            assert forall|k: int| 0 <= k < j implies !(s@.take(j as int)[k] == s@[j as int]) by {
                assert(s@[k] != s@[j as int]);
            }
            assert(!s@.take(j as int).contains(s@[j as int]));
            assert(s@.take(j + 1 as int).drop_last() =~= s@.take(j as int));
            assert(s@.take(j + 1 as int).last() == s@[j as int]);
        }
        j = j + 1;
    }
    proof {
        assert(s@.take(n as int) =~= s@);
    }
    None
}

/// Finds the first repeated Sprout nullifier in `s`.
pub fn find_duplicate_sprout_nullifier(s: &Vec<sprout::Nullifier>) -> (r: Option<sprout::Nullifier>)
    ensures
        r == spec_first_dup(s@),
{
    let n = s.len();
    if n == 0 {
        proof {
            assert(s@.take(0) =~= s@);
        }
        return None;
    }
    proof {
        assert(s@.take(1).drop_last() =~= Seq::<sprout::Nullifier>::empty());
        assert(spec_first_dup(Seq::<sprout::Nullifier>::empty()) is None);
        assert(!Seq::<sprout::Nullifier>::empty().contains(s@.take(1).last()));
        assert(spec_first_dup(s@.take(1)) is None);
    }
    let mut j: usize = 1;
    while j < n
        invariant
            n == s@.len(),
            1 <= j <= n,
            spec_first_dup(s@.take(j as int)) is None,
        decreases n - j,
    {
        let mut i: usize = 0;
        while i < j
            invariant
                n == s@.len(),
                i <= j < n,
                spec_first_dup(s@.take(j as int)) is None,
                forall|k: int| 0 <= k < i ==> s@[k] != s@[j as int],
            decreases j - i,
        {
            if s[i].eq_nullifier(&s[j]) {
                proof {
                    assert(s@.take(j as int)[i as int] == s@[j as int]);
                    assert(s@.take(j as int).contains(s@[j as int]));
                    assert(s@.take(j + 1 as int).drop_last() =~= s@.take(j as int));
                    assert(s@.take(j + 1 as int).last() == s@[j as int]);
                    assert(spec_first_dup(s@.take(j + 1 as int)) == Some(s@[j as int]));
                    lemma_first_dup_extend(s@, j + 1 as int);
                }
                return Some(s[j]);
            }
            i = i + 1;
        }
        proof {
            assert forall|k: int| 0 <= k < j implies !(s@.take(j as int)[k] == s@[j as int]) by {
                assert(s@[k] != s@[j as int]);
            }
            assert(!s@.take(j as int).contains(s@[j as int]));
            assert(s@.take(j + 1 as int).drop_last() =~= s@.take(j as int));
            assert(s@.take(j + 1 as int).last() == s@[j as int]);
        }
        j = j + 1;
    }
    proof {
        assert(s@.take(n as int) =~= s@);
    }
    None
}

/// Finds the first repeated Sapling nullifier in `s`.
pub fn find_duplicate_sapling_nullifier(s: &Vec<sapling::Nullifier>) -> (r: Option<sapling::Nullifier>)
    ensures
        r == spec_first_dup(s@),
{
    let n = s.len();
    if n == 0 {
        proof {
            assert(s@.take(0) =~= s@);
        }
        return None;
    }
    proof {
        assert(s@.take(1).drop_last() =~= Seq::<sapling::Nullifier>::empty());
        assert(spec_first_dup(Seq::<sapling::Nullifier>::empty()) is None);
        assert(!Seq::<sapling::Nullifier>::empty().contains(s@.take(1).last()));
        assert(spec_first_dup(s@.take(1)) is None);
    }
    let mut j: usize = 1;
    while j < n
        invariant
            n == s@.len(),
            1 <= j <= n,
            spec_first_dup(s@.take(j as int)) is None,
        decreases n - j,
    {
        let mut i: usize = 0;
        while i < j
            invariant
                n == s@.len(),
                i <= j < n,
                spec_first_dup(s@.take(j as int)) is None,
                forall|k: int| 0 <= k < i ==> s@[k] != s@[j as int],
            decreases j - i,
        {
            if s[i].eq_nullifier(&s[j]) {
                proof {
                    assert(s@.take(j as int)[i as int] == s@[j as int]);
                    assert(s@.take(j as int).contains(s@[j as int]));
                    assert(s@.take(j + 1 as int).drop_last() =~= s@.take(j as int));
                    assert(s@.take(j + 1 as int).last() == s@[j as int]);
                    assert(spec_first_dup(s@.take(j + 1 as int)) == Some(s@[j as int]));
                    lemma_first_dup_extend(s@, j + 1 as int);
                }
                return Some(s[j]);
            }
            i = i + 1;
        }
        proof {
            assert forall|k: int| 0 <= k < j implies !(s@.take(j as int)[k] == s@[j as int]) by {
                assert(s@[k] != s@[j as int]);
            }
            assert(!s@.take(j as int).contains(s@[j as int]));
            assert(s@.take(j + 1 as int).drop_last() =~= s@.take(j as int));
            assert(s@.take(j + 1 as int).last() == s@[j as int]);
        }
        j = j + 1;
    }
    proof {
        assert(s@.take(n as int) =~= s@);
    }
    None
}

/// Finds the first repeated Orchard nullifier in `s`.
pub fn find_duplicate_orchard_nullifier(s: &Vec<orchard::Nullifier>) -> (r: Option<orchard::Nullifier>)
    ensures
        r == spec_first_dup(s@),
{
    let n = s.len();
    if n == 0 {
        proof {
            assert(s@.take(0) =~= s@);
        }
        return None;
    }
    proof {
        assert(s@.take(1).drop_last() =~= Seq::<orchard::Nullifier>::empty());
        assert(spec_first_dup(Seq::<orchard::Nullifier>::empty()) is None);
        assert(!Seq::<orchard::Nullifier>::empty().contains(s@.take(1).last()));
        assert(spec_first_dup(s@.take(1)) is None);
    }
    let mut j: usize = 1;
    while j < n
        invariant
            n == s@.len(),
            1 <= j <= n,
            spec_first_dup(s@.take(j as int)) is None,
        decreases n - j,
    {
        let mut i: usize = 0;
        while i < j
            invariant
                n == s@.len(),
                i <= j < n,
                spec_first_dup(s@.take(j as int)) is None,
                forall|k: int| 0 <= k < i ==> s@[k] != s@[j as int],
            decreases j - i,
        {
            if s[i].eq_nullifier(&s[j]) {
                proof {
                    assert(s@.take(j as int)[i as int] == s@[j as int]);
                    assert(s@.take(j as int).contains(s@[j as int]));
                    assert(s@.take(j + 1 as int).drop_last() =~= s@.take(j as int));
                    assert(s@.take(j + 1 as int).last() == s@[j as int]);
                    assert(spec_first_dup(s@.take(j + 1 as int)) == Some(s@[j as int]));
                    lemma_first_dup_extend(s@, j + 1 as int);
                }
                return Some(s[j]);
            }
            i = i + 1;
        }
        proof {
            assert forall|k: int| 0 <= k < j implies !(s@.take(j as int)[k] == s@[j as int]) by {
                assert(s@[k] != s@[j as int]);
            }
            assert(!s@.take(j as int).contains(s@[j as int]));
            assert(s@.take(j + 1 as int).drop_last() =~= s@.take(j as int));
            assert(s@.take(j + 1 as int).last() == s@[j as int]);
        }
        j = j + 1;
    }
    proof {
        assert(s@.take(n as int) =~= s@);
    }
    None
}

} // verus!
