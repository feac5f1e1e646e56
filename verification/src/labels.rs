//! A label set: string keys mapped to string values, modelled as
//! `Map<Seq<char>, Seq<char>>`. Backed by a vector of pairs whose keys are
//! pairwise distinct.

use vstd::prelude::*;

use crate::merge::{
    lemma_merge_insert_source, lemma_merge_untouched, lemma_prefix_strip, spec_merge,
};
use crate::strings::{key_has_propagate_prefix, str_eq, strip_key_prefix};

verus! {

/// The mapping a namespace's optional label set stands for: absent labels
/// count as none at all.
pub open spec fn spec_opt_labels(labels: Option<&LabelMap>) -> Map<Seq<char>, Seq<char>> {
    match labels {
        Some(m) => m@,
        None => Map::<Seq<char>, Seq<char>>::empty(),
    }
}

/// The views of a sequence of owned string pairs.
pub open spec fn entry_views(s: Seq<(String, String)>) -> Seq<(Seq<char>, Seq<char>)> {
    s.map_values(|p: (String, String)| (p.0@, p.1@))
}

/// No two entries share a key.
pub open spec fn unique_keys(s: Seq<(Seq<char>, Seq<char>)>) -> bool {
    forall|i: int, j: int| 0 <= i < j < s.len() ==> s[i].0 != s[j].0
}

/// The mapping a sequence of entries stands for; later entries win.
pub open spec fn map_of(s: Seq<(Seq<char>, Seq<char>)>) -> Map<Seq<char>, Seq<char>>
    decreases s.len(),
{
    if s.len() == 0 {
        Map::empty()
    } else {
        map_of(s.drop_last()).insert(s.last().0, s.last().1)
    }
}

/// A key is in the mapping exactly when some entry carries it.
pub proof fn lemma_map_of_dom(s: Seq<(Seq<char>, Seq<char>)>)
    ensures
        forall|k: Seq<char>| #[trigger]
            map_of(s).dom().contains(k) <==> exists|i: int|
                0 <= i < s.len() && (#[trigger] s[i]).0 == k,
    decreases s.len(),
{
    if s.len() > 0 {
        lemma_map_of_dom(s.drop_last());
        assert forall|k: Seq<char>| #[trigger]
            map_of(s).dom().contains(k) implies exists|i: int|
            0 <= i < s.len() && (#[trigger] s[i]).0 == k by {
            if k == s.last().0 {
                assert(s[s.len() - 1].0 == k);
            } else {
                assert(map_of(s.drop_last()).dom().contains(k));
                let i = choose|i: int| 0 <= i < s.drop_last().len() && (#[trigger] s.drop_last()[i]).0
                    == k;
                assert(s[i].0 == k);
            }
        }
        assert forall|k: Seq<char>|
            exists|i: int| 0 <= i < s.len() && (#[trigger] s[i]).0 == k implies #[trigger] map_of(
            s,
        ).dom().contains(k) by {
            let i = choose|i: int| 0 <= i < s.len() && (#[trigger] s[i]).0 == k;
            if i == s.len() - 1 {
                assert(map_of(s).dom().contains(s.last().0));
            } else {
                assert(s.drop_last()[i].0 == k);
                assert(map_of(s.drop_last()).dom().contains(k));
            }
        }
    }
}

/// With distinct keys, entry `i` gives the mapping's value at its key.
pub proof fn lemma_map_of_value(s: Seq<(Seq<char>, Seq<char>)>, i: int)
    requires
        unique_keys(s),
        0 <= i < s.len(),
    ensures
        map_of(s).dom().contains(s[i].0),
        map_of(s)[s[i].0] == s[i].1,
    decreases s.len(),
{
    if i == s.len() - 1 {
        assert(s.last() == s[i]);
    } else {
        assert forall|p: int, q: int| 0 <= p < q < s.drop_last().len() implies s.drop_last()[p].0
            != s.drop_last()[q].0 by {
            assert(s.drop_last()[p] == s[p]);
            assert(s.drop_last()[q] == s[q]);
        }
        lemma_map_of_value(s.drop_last(), i);
        assert(s.drop_last()[i] == s[i]);
        assert(s[i].0 != s.last().0);
    }
}

/// Replacing the value of entry `i` updates the mapping at its key.
pub proof fn lemma_map_of_update(s: Seq<(Seq<char>, Seq<char>)>, i: int, v: Seq<char>)
    requires
        unique_keys(s),
        0 <= i < s.len(),
    ensures
        map_of(s.update(i, (s[i].0, v))) == map_of(s).insert(s[i].0, v),
    decreases s.len(),
{
    let t = s.update(i, (s[i].0, v));
    if i == s.len() - 1 {
        assert(t.drop_last() =~= s.drop_last());
        assert(t.last() == (s[i].0, v));
        assert(map_of(t) =~= map_of(s).insert(s[i].0, v));
    } else {
        assert forall|p: int, q: int| 0 <= p < q < s.drop_last().len() implies s.drop_last()[p].0
            != s.drop_last()[q].0 by {
            assert(s.drop_last()[p] == s[p]);
            assert(s.drop_last()[q] == s[q]);
        }
        lemma_map_of_update(s.drop_last(), i, v);
        assert(t.drop_last() =~= s.drop_last().update(i, (s[i].0, v)));
        assert(s.drop_last()[i] == s[i]);
        assert(t.last() == s.last());
        assert(s[i].0 != s.last().0);
        assert(map_of(t) =~= map_of(s).insert(s[i].0, v));
    }
}

/// With distinct keys, the mapping has one member per entry.
pub proof fn lemma_map_of_len(s: Seq<(Seq<char>, Seq<char>)>)
    requires
        unique_keys(s),
    ensures
        map_of(s).dom().finite(),
        map_of(s).len() == s.len(),
    decreases s.len(),
{
    if s.len() > 0 {
        assert forall|p: int, q: int| 0 <= p < q < s.drop_last().len() implies s.drop_last()[p].0
            != s.drop_last()[q].0 by {
            assert(s.drop_last()[p] == s[p]);
            assert(s.drop_last()[q] == s[q]);
        }
        lemma_map_of_len(s.drop_last());
        lemma_map_of_dom(s.drop_last());
        assert(!map_of(s.drop_last()).dom().contains(s.last().0)) by {
            if map_of(s.drop_last()).dom().contains(s.last().0) {
                let i = choose|i: int|
                    0 <= i < s.drop_last().len() && (#[trigger] s.drop_last()[i]).0 == s.last().0;
                assert(s[i] == s.drop_last()[i]);
                assert(s[i].0 != s[s.len() - 1].0);
            }
        }
    }
}

/// A label set: a mapping from string keys to string values.
pub struct LabelMap {
    entries: Vec<(String, String)>,
}

impl View for LabelMap {
    type V = Map<Seq<char>, Seq<char>>;

    closed spec fn view(&self) -> Map<Seq<char>, Seq<char>> {
        map_of(entry_views(self.entries@))
    }
}

impl LabelMap {
    /// The entries' views, in storage order.
    pub closed spec fn entries_view(&self) -> Seq<(Seq<char>, Seq<char>)> {
        entry_views(self.entries@)
    }

    #[verifier::type_invariant]
    spec fn inv(&self) -> bool {
        unique_keys(self.entries_view())
    }

    /// With distinct keys, the mapping and the entries say the same thing.
    pub proof fn lemma_entries_agree(s: Seq<(Seq<char>, Seq<char>)>)
        requires
            unique_keys(s),
        ensures
            map_of(s).dom().finite(),
            map_of(s).len() == s.len(),
            forall|i: int|
                0 <= i < s.len() ==> map_of(s).dom().contains((#[trigger] s[i]).0) && map_of(s)[
                    s[i].0
                ] == s[i].1,
            forall|k: Seq<char>| #[trigger]
                map_of(s).dom().contains(k) ==> exists|i: int|
                    0 <= i < s.len() && (#[trigger] s[i]).0 == k,
    {
        lemma_map_of_dom(s);
        lemma_map_of_len(s);
        assert forall|i: int| 0 <= i < s.len() implies map_of(s).dom().contains(
            (#[trigger] s[i]).0,
        ) && map_of(s)[s[i].0] == s[i].1 by {
            lemma_map_of_value(s, i);
        }
    }

    /// An empty label set.
    pub fn new() -> (m: Self)
        ensures
            m@ == Map::<Seq<char>, Seq<char>>::empty(),
    {
        let m = LabelMap { entries: Vec::new() };
        proof {
            assert(m.entries_view() =~= Seq::<(Seq<char>, Seq<char>)>::empty());
        }
        m
    }

    /// How many keys the set holds.
    pub fn len(&self) -> (n: usize)
        ensures
            n == self@.len(),
    {
        proof {
            use_type_invariant(self);
            LabelMap::lemma_entries_agree(self.entries_view());
        }
        self.entries.len()
    }

    /// The value stored under `key`, if any.
    pub fn get<'a>(&'a self, key: &str) -> (r: Option<&'a String>)
        ensures
            match r {
                Some(v) => self@.contains_key(key@) && v@ == self@[key@],
                None => !self@.contains_key(key@),
            },
    {
        proof {
            use_type_invariant(self);
            LabelMap::lemma_entries_agree(self.entries_view());
        }
        let n = self.entries.len();
        let mut i: usize = 0;
        while i < n
            invariant
                i <= n,
                n == self.entries@.len(),
                forall|j: int| 0 <= j < i ==> (#[trigger] self.entries_view()[j]).0 != key@,
            decreases n - i,
        {
            if str_eq(self.entries[i].0.as_str(), key) {
                proof {
                    use_type_invariant(self);
                    LabelMap::lemma_entries_agree(self.entries_view());
                    assert(self.entries_view()[i as int].0 == key@);
                }
                return Some(&self.entries[i].1);
            }
            proof {
                assert(self.entries_view()[i as int].0 == self.entries@[i as int].0@);
            }
            i += 1;
        }
        proof {
            use_type_invariant(self);
            LabelMap::lemma_entries_agree(self.entries_view());
            if self@.dom().contains(key@) {
                let j = choose|j: int|
                    0 <= j < self.entries_view().len() && (#[trigger] self.entries_view()[j]).0
                        == key@;
                assert(self.entries_view()[j].0 != key@);
            }
        }
        None
    }

    /// Store `value` under `key`, replacing any previous value.
    pub fn insert(&mut self, key: String, value: String)
        ensures
            final(self)@ == old(self)@.insert(key@, value@),
    {
        proof {
            use_type_invariant(&*self);
        }
        let mut entries: Vec<(String, String)> = Vec::new();
        core::mem::swap(&mut entries, &mut self.entries);
        proof {
            assert(self.entries_view() =~= Seq::<(Seq<char>, Seq<char>)>::empty());
        }
        let ghost s = entry_views(entries@);
        let n = entries.len();
        let mut i: usize = 0;
        while i < n
            invariant
                i <= n,
                n == entries@.len(),
                s == entry_views(entries@),
                unique_keys(s),
                old(self)@ == map_of(s),
                forall|j: int| 0 <= j < i ==> (#[trigger] s[j]).0 != key@,
            decreases n - i,
        {
            if str_eq(entries[i].0.as_str(), key.as_str()) {
                proof {
                    assert(s[i as int].0 == key@);
                    lemma_map_of_update(s, i as int, value@);
                }
                entries.set(i, (key, value));
                proof {
                    assert(entry_views(entries@) =~= s.update(i as int, (s[i as int].0, value@)));
                    assert forall|p: int, q: int|
                        0 <= p < q < entry_views(entries@).len() implies (#[trigger] entry_views(
                        entries@,
                    )[p]).0 != (#[trigger] entry_views(entries@)[q]).0 by {
                        assert(s[p].0 == entry_views(entries@)[p].0 || p == i);
                        assert(s[q].0 == entry_views(entries@)[q].0 || q == i);
                        assert(s[p].0 != s[q].0);
                        assert(s[i as int].0 == entry_views(entries@)[i as int].0);
                    }
                }
                self.entries = entries;
                return;
            }
            proof {
                assert(s[i as int].0 == entries@[i as int].0@);
            }
            i += 1;
        }
        proof {
            lemma_map_of_dom(s);
            if map_of(s).dom().contains(key@) {
                let j = choose|j: int| 0 <= j < s.len() && (#[trigger] s[j]).0 == key@;
                assert(s[j].0 != key@);
            }
        }
        entries.push((key, value));
        proof {
            assert(entry_views(entries@) =~= s.push((key@, value@)));
            let t = entry_views(entries@);
            assert forall|p: int, q: int| 0 <= p < q < t.len() implies (#[trigger] t[p]).0 != (
            #[trigger] t[q]).0 by {
                if q < t.len() - 1 {
                    assert(t[p] == s[p] && t[q] == s[q]);
                } else {
                    assert(t[p] == s[p] && t[q] == (key@, value@));
                }
            }
            assert(t.drop_last() =~= s);
            assert(t.last() == (key@, value@));
        }
        self.entries = entries;
    }

    /// An independent copy holding the same mapping.
    pub fn duplicate(&self) -> (m: Self)
        ensures
            m@ == self@,
    {
        proof {
            use_type_invariant(self);
        }
        let n = self.entries.len();
        let mut entries: Vec<(String, String)> = Vec::new();
        let mut i: usize = 0;
        while i < n
            invariant
                i <= n,
                n == self.entries@.len(),
                entries@.len() == i,
                forall|j: int| 0 <= j < i ==> entries@[j] == self.entries@[j],
            decreases n - i,
        {
            let k = self.entries[i].0.clone();
            let v = self.entries[i].1.clone();
            entries.push((k, v));
            i += 1;
        }
        proof {
            assert(entries@ =~= self.entries@);
        }
        let m = LabelMap { entries };
        proof {
            assert(m.entries_view() =~= self.entries_view());
            use_type_invariant(self);
        }
        m
    }

    /// The stored pairs, cloned, in storage order.
    pub fn to_pairs(&self) -> (r: Vec<(String, String)>)
        ensures
            entry_views(r@) == self.entries_view(),
            unique_keys(entry_views(r@)),
            map_of(entry_views(r@)) == self@,
    {
        proof {
            use_type_invariant(self);
        }
        let n = self.entries.len();
        let mut out: Vec<(String, String)> = Vec::new();
        let mut i: usize = 0;
        while i < n
            invariant
                i <= n,
                n == self.entries@.len(),
                out@.len() == i,
                forall|j: int| 0 <= j < i ==> out@[j] == self.entries@[j],
            decreases n - i,
        {
            let k = self.entries[i].0.clone();
            let v = self.entries[i].1.clone();
            out.push((k, v));
            i += 1;
        }
        proof {
            assert(out@ =~= self.entries@);
            assert(entry_views(out@) =~= self.entries_view());
        }
        out
    }
}

/// Merge the project's marked labels into the namespace's labels.
///
/// Returns `None` exactly when the merged set is the namespace's own label
/// set — nothing was inserted or overwritten — and otherwise the merged set,
/// which then differs from it. Only the final key-to-value mapping matters;
/// the source's storage order cannot show in the result.
pub fn merge_labels(project_labels: &LabelMap, namespace_labels: Option<&LabelMap>) -> (r: Option<
    LabelMap,
>)
    ensures
        ({
            let merged = spec_merge(project_labels@, spec_opt_labels(namespace_labels));
            match r {
                Some(m) => m@ == merged && merged != spec_opt_labels(namespace_labels),
                None => merged == spec_opt_labels(namespace_labels),
            }
        }),
{
    let ghost tgt = spec_opt_labels(namespace_labels);
    let mut work: LabelMap = match namespace_labels {
        Some(m) => m.duplicate(),
        None => LabelMap::new(),
    };
    let mut changed = false;
    proof {
        use_type_invariant(project_labels);
    }
    let ghost sv = project_labels.entries_view();
    let n = project_labels.entries.len();
    let mut i: usize = 0;
    proof {
        assert(sv.subrange(0, 0) =~= Seq::<(Seq<char>, Seq<char>)>::empty());
        assert(spec_merge(map_of(sv.subrange(0, 0)), tgt) =~= tgt);
    }
    while i < n
        invariant
            i <= n,
            n == project_labels.entries@.len(),
            sv == project_labels.entries_view(),
            unique_keys(sv),
            tgt == spec_opt_labels(namespace_labels),
            work@ == spec_merge(map_of(sv.subrange(0, i as int)), tgt),
            changed == (work@ != tgt),
        decreases n - i,
    {
        let key_ref: &String = &project_labels.entries[i].0;
        let val_ref: &String = &project_labels.entries[i].1;
        let ghost pre = map_of(sv.subrange(0, i as int));
        proof {
            assert(sv[i as int] == (key_ref@, val_ref@));
            assert(sv.subrange(0, i as int + 1).drop_last() =~= sv.subrange(0, i as int));
            assert(sv.subrange(0, i as int + 1).last() == sv[i as int]);
            lemma_merge_insert_source(pre, tgt, key_ref@, val_ref@);
        }
        if key_has_propagate_prefix(key_ref.as_str()) {
            let stripped = strip_key_prefix(key_ref.as_str());
            proof {
                lemma_prefix_strip(key_ref@);
                assert(!pre.dom().contains(key_ref@)) by {
                    lemma_map_of_dom(sv.subrange(0, i as int));
                    if pre.dom().contains(key_ref@) {
                        let j = choose|j: int|
                            0 <= j < sv.subrange(0, i as int).len() && (#[trigger] sv.subrange(
                                0,
                                i as int,
                            )[j]).0 == key_ref@;
                        assert(sv[j].0 == sv[i as int].0);
                    }
                }
                lemma_merge_untouched(pre, tgt, stripped@);
            }
            let mut needs_insert = false;
            match work.get(stripped.as_str()) {
                Some(existing) => {
                    if !str_eq(existing.as_str(), val_ref.as_str()) {
                        needs_insert = true;
                    }
                },
                None => {
                    needs_insert = true;
                },
            }
            let ghost w0 = work@;
            if needs_insert {
                work.insert(stripped, val_ref.clone());
                changed = true;
                proof {
                    assert(work@ != tgt) by {
                        if tgt.dom().contains(stripped@) {
                            assert(w0[stripped@] == tgt[stripped@]);
                            assert(work@[stripped@] == val_ref@);
                            if work@ == tgt {
                                assert(work@[stripped@] == tgt[stripped@]);
                            }
                        } else {
                            assert(work@.dom().contains(stripped@));
                            if work@ == tgt {
                                assert(tgt.dom().contains(stripped@));
                            }
                        }
                    }
                }
            } else {
                proof {
                    assert(w0.insert(stripped@, val_ref@) =~= w0);
                }
            }
        }
        i += 1;
    }
    proof {
        assert(sv.subrange(0, n as int) =~= sv);
    }
    if changed {
        Some(work)
    } else {
        None
    }
}

} // verus!
