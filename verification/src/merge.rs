//! The label-merge semantics: what the merged label set of a namespace is,
//! given the labels of its project, and the laws that merge obeys.
//!
//! A project label whose key starts with the propagation marker is copied
//! onto the namespace under the stripped key, overwriting a different value;
//! every other namespace label is left untouched.

use vstd::prelude::*;

use crate::strings::{has_propagate_prefix, propagate_prefix, strip_propagate_prefix};

verus! {

/// The merged label set: `tgt` together with, for every source key
/// `propagate.k`, the binding of `k` to the source's value.
pub open spec fn spec_merge(
    src: Map<Seq<char>, Seq<char>>,
    tgt: Map<Seq<char>, Seq<char>>,
) -> Map<Seq<char>, Seq<char>> {
    Map::new(
        |k: Seq<char>| tgt.dom().contains(k) || src.dom().contains(propagate_prefix() + k),
        |k: Seq<char>|
            if src.dom().contains(propagate_prefix() + k) {
                src[propagate_prefix() + k]
            } else {
                tgt[k]
            },
    )
}

/// Stripping undoes prefixing: a key that carries the marker is the marker
/// followed by its stripped form.
pub proof fn lemma_prefix_strip(k: Seq<char>)
    requires
        has_propagate_prefix(k),
    ensures
        propagate_prefix() + strip_propagate_prefix(k) == k,
{
    assert forall|i: int|
        0 <= i < k.len() implies (propagate_prefix() + strip_propagate_prefix(k))[i] == k[i] by {
        if i < propagate_prefix().len() {
            assert(k.subrange(0, propagate_prefix().len() as int)[i] == k[i]);
        }
    }
    assert(propagate_prefix() + strip_propagate_prefix(k) =~= k);
}

/// Prefixing then stripping is the identity, and a prefixed key carries the
/// marker.
pub proof fn lemma_prefixed_has_prefix(q: Seq<char>)
    ensures
        has_propagate_prefix(propagate_prefix() + q),
        strip_propagate_prefix(propagate_prefix() + q) == q,
{
    let s = propagate_prefix() + q;
    assert(s.subrange(0, propagate_prefix().len() as int) =~= propagate_prefix());
    assert(s.skip(propagate_prefix().len() as int) =~= q);
}

/// Adding one source binding changes the merge at exactly the stripped key,
/// or not at all when the key carries no marker.
pub proof fn lemma_merge_insert_source(
    src: Map<Seq<char>, Seq<char>>,
    tgt: Map<Seq<char>, Seq<char>>,
    k: Seq<char>,
    v: Seq<char>,
)
    ensures
        has_propagate_prefix(k) ==> spec_merge(src.insert(k, v), tgt) == spec_merge(
            src,
            tgt,
        ).insert(strip_propagate_prefix(k), v),
        !has_propagate_prefix(k) ==> spec_merge(src.insert(k, v), tgt) == spec_merge(src, tgt),
{
    if has_propagate_prefix(k) {
        lemma_prefix_strip(k);
        let m1 = spec_merge(src.insert(k, v), tgt);
        let m2 = spec_merge(src, tgt).insert(strip_propagate_prefix(k), v);
        assert forall|q: Seq<char>|
            (#[trigger] m1.dom().contains(q) == m2.dom().contains(q)) && (m1.dom().contains(q)
                ==> m1[q] == m2[q]) by {
            lemma_prefixed_has_prefix(q);
        }
        assert(m1 =~= m2);
    } else {
        let m1 = spec_merge(src.insert(k, v), tgt);
        let m2 = spec_merge(src, tgt);
        assert forall|q: Seq<char>|
            (#[trigger] m1.dom().contains(q) == m2.dom().contains(q)) && (m1.dom().contains(q)
                ==> m1[q] == m2[q]) by {
            lemma_prefixed_has_prefix(q);
        }
        assert(m1 =~= m2);
    }
}

/// At a key whose prefixed form the source lacks, the merge behaves as the
/// target does.
pub proof fn lemma_merge_untouched(
    src: Map<Seq<char>, Seq<char>>,
    tgt: Map<Seq<char>, Seq<char>>,
    q: Seq<char>,
)
    requires
        !src.dom().contains(propagate_prefix() + q),
    ensures
        spec_merge(src, tgt).dom().contains(q) <==> tgt.dom().contains(q),
        tgt.dom().contains(q) ==> spec_merge(src, tgt)[q] == tgt[q],
{
}

/// Merging is idempotent: feeding the merged set back in as the target
/// changes nothing further.
pub proof fn lemma_merge_idempotent(src: Map<Seq<char>, Seq<char>>, tgt: Map<Seq<char>, Seq<char>>)
    ensures
        spec_merge(src, spec_merge(src, tgt)) == spec_merge(src, tgt),
{
    let m1 = spec_merge(src, tgt);
    let m2 = spec_merge(src, m1);
    assert forall|q: Seq<char>|
        (#[trigger] m2.dom().contains(q) == m1.dom().contains(q)) && (m2.dom().contains(q) ==> m2[q]
            == m1[q]) by {}
    assert(m2 =~= m1);
}

/// Merging is non-destructive: a key of the merged set either stood in the
/// target or is the stripped form of a marked source key; no target key is
/// ever removed, and one with no marked counterpart keeps its value.
pub proof fn lemma_merge_non_destructive(
    src: Map<Seq<char>, Seq<char>>,
    tgt: Map<Seq<char>, Seq<char>>,
)
    ensures
        forall|q: Seq<char>| #[trigger]
            spec_merge(src, tgt).dom().contains(q) <==> (tgt.dom().contains(q) || exists|
                k: Seq<char>,
            |
                #[trigger] src.dom().contains(k) && has_propagate_prefix(k)
                    && strip_propagate_prefix(k) == q),
        forall|q: Seq<char>| #[trigger]
            tgt.dom().contains(q) ==> spec_merge(src, tgt).dom().contains(q),
        forall|q: Seq<char>| #[trigger]
            tgt.dom().contains(q) && !src.dom().contains(propagate_prefix() + q) ==> spec_merge(
                src,
                tgt,
            )[q] == tgt[q],
{
    assert forall|q: Seq<char>| #[trigger]
        spec_merge(src, tgt).dom().contains(q) <==> (tgt.dom().contains(q) || exists|k: Seq<char>|
            #[trigger] src.dom().contains(k) && has_propagate_prefix(k) && strip_propagate_prefix(k)
                == q) by {
        if spec_merge(src, tgt).dom().contains(q) && !tgt.dom().contains(q) {
            lemma_prefixed_has_prefix(q);
            assert(src.dom().contains(propagate_prefix() + q) && has_propagate_prefix(
                propagate_prefix() + q,
            ) && strip_propagate_prefix(propagate_prefix() + q) == q);
        }
        if exists|k: Seq<char>|
            #[trigger] src.dom().contains(k) && has_propagate_prefix(k) && strip_propagate_prefix(k)
                == q {
            let k = choose|k: Seq<char>|
                #[trigger] src.dom().contains(k) && has_propagate_prefix(k)
                    && strip_propagate_prefix(k) == q;
            lemma_prefix_strip(k);
        }
    }
}

/// Merging detects a no-op: when every marked source key already stands in
/// the target, stripped, with the same value, the merge is the target.
pub proof fn lemma_merge_noop(src: Map<Seq<char>, Seq<char>>, tgt: Map<Seq<char>, Seq<char>>)
    requires
        forall|k: Seq<char>|
            #[trigger] src.dom().contains(k) && has_propagate_prefix(k) ==> tgt.dom().contains(
                strip_propagate_prefix(k),
            ) && tgt[strip_propagate_prefix(k)] == src[k],
    ensures
        spec_merge(src, tgt) == tgt,
{
    let m = spec_merge(src, tgt);
    assert forall|q: Seq<char>|
        (#[trigger] m.dom().contains(q) == tgt.dom().contains(q)) && (m.dom().contains(q) ==> m[q]
            == tgt[q]) by {
        if src.dom().contains(propagate_prefix() + q) {
            lemma_prefixed_has_prefix(q);
            assert(src.dom().contains(propagate_prefix() + q) && has_propagate_prefix(
                propagate_prefix() + q,
            ));
        }
    }
    assert(m =~= tgt);
}

} // verus!
