//! Resolving the project-locality annotation: a value of the form
//! `<cluster_id>:<resource_id>` is split at its single colon into a locality
//! reference; any other number of colons is malformed.

use vstd::prelude::*;

use crate::labels::LabelMap;
use crate::strings::{count_char, lemma_count_char_concat, lemma_count_char_one_unique,
    lemma_count_char_prefix_step};

verus! {

/// The well-known annotation that carries a namespace's locality reference.
pub open spec fn spec_project_annotation_key() -> Seq<char> {
    "field.cattle.io/projectId"@
}

/// The annotation key, as a string.
pub fn project_annotation_key() -> (r: &'static str)
    ensures
        r@ == spec_project_annotation_key(),
{
    "field.cattle.io/projectId"
}

/// Which cluster and which project-like resource a namespace belongs to,
/// parsed fresh per request from the locality annotation.
pub struct LocalityReference {
    pub cluster_id: String,
    pub resource_id: String,
}

/// What a locality annotation value splits into: its two colon-separated
/// halves when it holds exactly one colon, nothing otherwise.
pub open spec fn spec_split_locality(s: Seq<char>) -> Option<(Seq<char>, Seq<char>)> {
    if count_char(s, ':') == 1 {
        let i = choose|i: int| 0 <= i < s.len() && s[i] == ':';
        Some((s.subrange(0, i), s.subrange(i + 1, s.len() as int)))
    } else {
        None
    }
}

/// A value with any number of colons other than one fails to split.
pub proof fn lemma_split_locality_malformed(s: Seq<char>)
    requires
        count_char(s, ':') != 1,
    ensures
        spec_split_locality(s) is None,
{
}

/// Joining two colon-free halves with a colon and splitting gives the halves
/// back.
pub proof fn lemma_split_locality_round_trip(a: Seq<char>, b: Seq<char>)
    requires
        a.len() > 0,
        b.len() > 0,
        count_char(a, ':') == 0,
        count_char(b, ':') == 0,
    ensures
        spec_split_locality(a + seq![':'] + b) == Some((a, b)),
{
    let s = a + seq![':'] + b;
    assert(count_char(seq![':'], ':') == 1) by {
        assert(count_char(Seq::<char>::empty(), ':') == 0);
        assert(seq![':'].drop_last() =~= Seq::<char>::empty());
        assert(seq![':'].last() == ':');
    }
    lemma_count_char_concat(a + seq![':'], b, ':');
    lemma_count_char_concat(a, seq![':'], ':');
    assert(count_char(s, ':') == 1) by {
        assert(s =~= (a + seq![':']) + b);
    }
    assert(s[a.len() as int] == ':');
    let i = choose|i: int| 0 <= i < s.len() && s[i] == ':';
    lemma_count_char_one_unique(s, ':', i, a.len() as int);
    assert(s.subrange(0, a.len() as int) =~= a);
    assert(s.subrange(a.len() as int + 1, s.len() as int) =~= b);
}

/// Split an annotation value at its single colon.
pub fn parse_locality(value: &str) -> (r: Option<LocalityReference>)
    ensures
        match r {
            Some(loc) => spec_split_locality(value@) == Some((loc.cluster_id@, loc.resource_id@)),
            None => spec_split_locality(value@) is None,
        },
{
    let len = value.unicode_len();
    let mut colons: usize = 0;
    let mut first: usize = 0;
    let mut i: usize = 0;
    while i < len
        invariant
            i <= len,
            len == value@.len(),
            colons == count_char(value@.subrange(0, i as int), ':'),
            colons <= i,
            colons > 0 ==> first < i && value@[first as int] == ':',
        decreases len - i,
    {
        proof {
            lemma_count_char_prefix_step(value@, ':', i as int);
        }
        if value.get_char(i) == ':' {
            if colons == 0 {
                first = i;
            }
            colons = colons + 1;
        }
        i += 1;
    }
    proof {
        assert(value@.subrange(0, len as int) =~= value@);
    }
    if colons != 1 {
        return None;
    }
    let cluster = value.substring_char(0, first).to_owned();
    let resource = value.substring_char(first + 1, len).to_owned();
    proof {
        let j = choose|j: int| 0 <= j < value@.len() && value@[j] == ':';
        lemma_count_char_one_unique(value@, ':', j, first as int);
    }
    Some(LocalityReference { cluster_id: cluster, resource_id: resource })
}

/// The outcome of looking for the locality annotation on a namespace.
pub enum AnnotationResolution {
    /// The annotation is absent: no propagation policy applies.
    NoAnnotation,
    /// The annotation is present and well-formed.
    Resolved(LocalityReference),
    /// The annotation is present but does not split into two colon-separated
    /// halves; the request fails to evaluate.
    Malformed,
}

/// Look up the locality annotation among a namespace's annotations, absent
/// annotations counting as none at all, and split its value.
pub fn resolve_project_annotation(annotations: Option<&LabelMap>) -> (r: AnnotationResolution)
    ensures
        ({
            let anns = crate::labels::spec_opt_labels(annotations);
            match r {
                AnnotationResolution::NoAnnotation => !anns.dom().contains(
                    spec_project_annotation_key(),
                ),
                AnnotationResolution::Resolved(loc) => anns.dom().contains(
                    spec_project_annotation_key(),
                ) && spec_split_locality(anns[spec_project_annotation_key()]) == Some(
                    (loc.cluster_id@, loc.resource_id@),
                ),
                AnnotationResolution::Malformed => anns.dom().contains(
                    spec_project_annotation_key(),
                ) && spec_split_locality(anns[spec_project_annotation_key()]) is None,
            }
        }),
{
    let key = project_annotation_key();
    match annotations {
        None => AnnotationResolution::NoAnnotation,
        Some(m) => {
            match m.get(key) {
                None => AnnotationResolution::NoAnnotation,
                Some(value) => {
                    match parse_locality(value.as_str()) {
                        Some(loc) => AnnotationResolution::Resolved(loc),
                        None => AnnotationResolution::Malformed,
                    }
                },
            }
        },
    }
}

} // verus!
