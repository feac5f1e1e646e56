//! Tests of the label-merge semantics on concrete values.

use project_propagate_labels::labels::{merge_labels, LabelMap};

fn label_map(pairs: &[(&str, &str)]) -> LabelMap {
    let mut m = LabelMap::new();
    for (k, v) in pairs {
        m.insert(k.to_string(), v.to_string());
    }
    m
}

fn assert_pairs(m: &LabelMap, pairs: &[(&str, &str)]) {
    assert_eq!(m.len(), pairs.len());
    for (k, v) in pairs {
        assert_eq!(m.get(k), Some(&v.to_string()));
    }
}

#[test]
fn merge_matching_value_is_noop() {
    let project = label_map(&[("propagate.hello", "world"), ("foo", "bar")]);
    let namespace = label_map(&[("hello", "world"), ("ciao", "mondo")]);
    let merged = merge_labels(&project, Some(&namespace));
    assert!(merged.is_none());
}

#[test]
fn merge_overwrites_different_value() {
    let project = label_map(&[("propagate.hello", "world"), ("foo", "bar")]);
    let namespace = label_map(&[("hello", "world2"), ("ciao", "mondo")]);
    let merged = merge_labels(&project, Some(&namespace)).expect("labels should change");
    assert_pairs(&merged, &[("hello", "world"), ("ciao", "mondo")]);
}

#[test]
fn merge_without_marked_keys_is_noop() {
    let project = label_map(&[("foo", "bar")]);
    let namespace = label_map(&[("ciao", "mondo")]);
    let merged = merge_labels(&project, Some(&namespace));
    assert!(merged.is_none());
}

#[test]
fn merge_into_absent_labels_inserts() {
    let project = label_map(&[("propagate.hi", "world"), ("foo", "bar")]);
    let merged = merge_labels(&project, None).expect("labels should change");
    assert_pairs(&merged, &[("hi", "world")]);
}

#[test]
fn merge_inserts_missing_key() {
    let project = label_map(&[("propagate.hello", "world"), ("foo", "bar")]);
    let namespace = label_map(&[("ciao", "mondo")]);
    let merged = merge_labels(&project, Some(&namespace)).expect("labels should change");
    assert_pairs(&merged, &[("hello", "world"), ("ciao", "mondo")]);
}

#[test]
fn merge_empty_source_is_noop() {
    let project = label_map(&[]);
    let namespace = label_map(&[("ciao", "mondo")]);
    assert!(merge_labels(&project, Some(&namespace)).is_none());
    assert!(merge_labels(&project, None).is_none());
}

#[test]
fn merge_twice_gives_what_one_merge_gives() {
    let project = label_map(&[
        ("propagate.hello", "world"),
        ("propagate.new", "value"),
        ("foo", "bar"),
    ]);
    let namespace = label_map(&[("hello", "stale"), ("ciao", "mondo")]);
    let once = merge_labels(&project, Some(&namespace)).expect("labels should change");
    // Feeding the merged set back in finds nothing left to do.
    assert!(merge_labels(&project, Some(&once)).is_none());
    assert_pairs(
        &once,
        &[("hello", "world"), ("new", "value"), ("ciao", "mondo")],
    );
}

#[test]
fn merge_never_removes_target_keys() {
    let project = label_map(&[("propagate.a", "1"), ("unrelated", "x")]);
    let namespace = label_map(&[("keep.me", "here"), ("a", "0")]);
    let merged = merge_labels(&project, Some(&namespace)).expect("labels should change");
    // Every output key existed in the target or is a stripped marked key,
    // and the target-only key survives untouched.
    assert_pairs(&merged, &[("keep.me", "here"), ("a", "1")]);
}

#[test]
fn marker_only_key_strips_to_empty_key() {
    // "propagate." strips to the empty key, which is still inserted.
    let project = label_map(&[("propagate.", "v")]);
    let merged = merge_labels(&project, None).expect("labels should change");
    assert_pairs(&merged, &[("", "v")]);
}

#[test]
fn label_map_insert_get_len() {
    let mut m = LabelMap::new();
    assert_eq!(m.len(), 0);
    assert!(m.get("a").is_none());
    m.insert("a".to_string(), "1".to_string());
    m.insert("b".to_string(), "2".to_string());
    m.insert("a".to_string(), "3".to_string());
    assert_eq!(m.len(), 2);
    assert_eq!(m.get("a"), Some(&"3".to_string()));
    assert_eq!(m.get("b"), Some(&"2".to_string()));
    let copy = m.duplicate();
    assert_eq!(copy.len(), 2);
    assert_eq!(copy.get("a"), Some(&"3".to_string()));
    let mut pairs = m.to_pairs();
    pairs.sort();
    assert_eq!(
        pairs,
        vec![
            ("a".to_string(), "3".to_string()),
            ("b".to_string(), "2".to_string())
        ]
    );
}
