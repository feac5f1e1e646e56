//! Character-level string helpers: equality, the propagation-prefix test and
//! strip, and counting occurrences of a character. Everything here is plain
//! verified code over `Seq<char>` views.

use vstd::prelude::*;

verus! {

/// The marker that distinguishes project labels meant to be copied onto
/// namespaces.
pub open spec fn propagate_prefix() -> Seq<char> {
    "propagate."@
}

/// `k` begins with the propagation marker.
pub open spec fn has_propagate_prefix(k: Seq<char>) -> bool {
    k.len() >= propagate_prefix().len() && k.subrange(
        0,
        propagate_prefix().len() as int,
    ) == propagate_prefix()
}

/// `k` with the propagation marker removed, once, from the start.
pub open spec fn strip_propagate_prefix(k: Seq<char>) -> Seq<char> {
    k.skip(propagate_prefix().len() as int)
}

/// How many times `c` occurs in `s`.
pub open spec fn count_char(s: Seq<char>, c: char) -> nat
    decreases s.len(),
{
    if s.len() == 0 {
        0
    } else {
        count_char(s.drop_last(), c) + (if s.last() == c {
            1nat
        } else {
            0nat
        })
    }
}

/// `c` occurs nowhere in `s` exactly when its count is zero.
pub proof fn lemma_count_char_zero(s: Seq<char>, c: char)
    ensures
        (count_char(s, c) == 0) <==> (forall|i: int| 0 <= i < s.len() ==> s[i] != c),
    decreases s.len(),
{
    if s.len() > 0 {
        lemma_count_char_zero(s.drop_last(), c);
        if count_char(s, c) == 0 {
            assert forall|i: int| 0 <= i < s.len() implies s[i] != c by {
                if i < s.len() - 1 {
                    assert(s.drop_last()[i] == s[i]);
                } else {
                    assert(s.last() == s[i]);
                }
            }
        } else {
            if forall|i: int| 0 <= i < s.len() ==> s[i] != c {
                assert forall|i: int| 0 <= i < s.drop_last().len() implies s.drop_last()[i] != c by {
                    assert(s.drop_last()[i] == s[i]);
                }
                assert(s.last() == s[s.len() - 1]);
            }
        }
    }
}

/// Counting distributes over concatenation.
pub proof fn lemma_count_char_concat(a: Seq<char>, b: Seq<char>, c: char)
    ensures
        count_char(a + b, c) == count_char(a, c) + count_char(b, c),
    decreases b.len(),
{
    if b.len() == 0 {
        assert(a + b =~= a);
    } else {
        lemma_count_char_concat(a, b.drop_last(), c);
        assert((a + b).drop_last() =~= a + b.drop_last());
        assert((a + b).last() == b.last());
    }
}

/// Extending a prefix by one character adds that character's contribution.
pub proof fn lemma_count_char_prefix_step(s: Seq<char>, c: char, i: int)
    requires
        0 <= i < s.len(),
    ensures
        count_char(s.subrange(0, i + 1), c) == count_char(s.subrange(0, i), c) + (if s[i] == c {
            1int
        } else {
            0int
        }),
{
    assert(s.subrange(0, i + 1).drop_last() =~= s.subrange(0, i));
    assert(s.subrange(0, i + 1).last() == s[i]);
}

/// A sequence with exactly one occurrence of `c` has it at a single index.
pub proof fn lemma_count_char_one_unique(s: Seq<char>, c: char, i: int, j: int)
    requires
        count_char(s, c) == 1,
        0 <= i < s.len(),
        0 <= j < s.len(),
        s[i] == c,
        s[j] == c,
    ensures
        i == j,
{
    if i < j {
        lemma_count_char_two(s, c, i, j);
    }
    if j < i {
        lemma_count_char_two(s, c, j, i);
    }
}

/// Two distinct occurrences force a count of at least two.
proof fn lemma_count_char_two(s: Seq<char>, c: char, i: int, j: int)
    requires
        0 <= i < j < s.len(),
        s[i] == c,
        s[j] == c,
    ensures
        count_char(s, c) >= 2,
{
    let front = s.subrange(0, j);
    let back = s.subrange(j, s.len() as int);
    assert(s =~= front + back);
    lemma_count_char_concat(front, back, c);
    assert(front[i] == c);
    lemma_count_char_zero(front, c);
    assert(back[0] == c);
    lemma_count_char_zero(back, c);
}

/// True when `a` and `b` hold the same characters.
pub fn str_eq(a: &str, b: &str) -> (r: bool)
    ensures
        r == (a@ == b@),
{
    let a_len = a.unicode_len();
    let b_len = b.unicode_len();
    if a_len != b_len {
        return false;
    }
    let mut i: usize = 0;
    while i < a_len
        invariant
            i <= a_len,
            a_len == a@.len(),
            b_len == b@.len(),
            a_len == b_len,
            forall|j: int| 0 <= j < i ==> a@[j] == b@[j],
        decreases a_len - i,
    {
        if a.get_char(i) != b.get_char(i) {
            return false;
        }
        i += 1;
    }
    proof {
        assert(a@ =~= b@);
    }
    true
}

/// Whether `k` starts with the propagation marker.
pub fn key_has_propagate_prefix(k: &str) -> (r: bool)
    ensures
        r == has_propagate_prefix(k@),
{
    let prefix: &str = "propagate.";
    proof {
        reveal_strlit("propagate.");
    }
    let p_len = prefix.unicode_len();
    let k_len = k.unicode_len();
    if k_len < p_len {
        return false;
    }
    let mut i: usize = 0;
    while i < p_len
        invariant
            i <= p_len,
            p_len == propagate_prefix().len(),
            prefix@ == propagate_prefix(),
            k_len == k@.len(),
            k_len >= p_len,
            forall|j: int| 0 <= j < i ==> k@[j] == propagate_prefix()[j],
        decreases p_len - i,
    {
        if k.get_char(i) != prefix.get_char(i) {
            proof {
                assert(!has_propagate_prefix(k@)) by {
                    if has_propagate_prefix(k@) {
                        assert(k@.subrange(0, propagate_prefix().len() as int)[i as int] == k@[
                            i as int
                        ]);
                    }
                }
            }
            return false;
        }
        i += 1;
    }
    proof {
        assert(k@.subrange(0, propagate_prefix().len() as int) =~= propagate_prefix());
    }
    true
}

/// `k` with the propagation marker removed.
pub fn strip_key_prefix(k: &str) -> (r: String)
    requires
        has_propagate_prefix(k@),
    ensures
        r@ == strip_propagate_prefix(k@),
{
    let prefix: &str = "propagate.";
    proof {
        reveal_strlit("propagate.");
        assert(prefix@ == propagate_prefix());
    }
    let p_len = prefix.unicode_len();
    let k_len = k.unicode_len();
    let sub = k.substring_char(p_len, k_len);
    proof {
        assert(k@.subrange(p_len as int, k_len as int) =~= strip_propagate_prefix(k@));
    }
    sub.to_owned()
}

} // verus!
