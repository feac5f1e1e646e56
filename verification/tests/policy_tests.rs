//! Tests of annotation resolution and the admission decision on concrete
//! requests.

use project_propagate_labels::annotation::{
    parse_locality, project_annotation_key, resolve_project_annotation, AnnotationResolution,
};
use project_propagate_labels::labels::LabelMap;
use project_propagate_labels::settings::{FailureMode, Settings};
use project_propagate_labels::{
    conclude_with_project, evaluate_namespace, plan_propagation, Decision, EvaluationStep,
    NamespaceObject, PolicyError,
};

fn label_map(pairs: &[(&str, &str)]) -> LabelMap {
    let mut m = LabelMap::new();
    for (k, v) in pairs {
        m.insert(k.to_string(), v.to_string());
    }
    m
}

fn namespace_with(annotation: Option<&str>, labels: Option<&[(&str, &str)]>) -> NamespaceObject {
    NamespaceObject {
        name: Some("testing-namespace".to_string()),
        labels: labels.map(label_map),
        annotations: annotation
            .map(|value| label_map(&[(project_annotation_key(), value)])),
    }
}

#[test]
fn locality_round_trip() {
    let loc = parse_locality("a:b").expect("one colon should parse");
    assert_eq!(loc.cluster_id, "a");
    assert_eq!(loc.resource_id, "b");
    let loc = parse_locality("local:p-abc123").expect("one colon should parse");
    assert_eq!(loc.cluster_id, "local");
    assert_eq!(loc.resource_id, "p-abc123");
}

#[test]
fn locality_empty_halves_are_accepted() {
    let loc = parse_locality(":b").expect("one colon should parse");
    assert_eq!(loc.cluster_id, "");
    assert_eq!(loc.resource_id, "b");
    let loc = parse_locality("a:").expect("one colon should parse");
    assert_eq!(loc.cluster_id, "a");
    assert_eq!(loc.resource_id, "");
}

#[test]
fn locality_without_colon_fails() {
    assert!(parse_locality("onlyonetoken").is_none());
    assert!(parse_locality("").is_none());
}

#[test]
fn locality_with_two_colons_fails() {
    assert!(parse_locality("a:b:c").is_none());
    assert!(parse_locality("::").is_none());
}

#[test]
fn absent_annotation_resolves_to_none() {
    let anns = label_map(&[("unrelated", "x")]);
    assert!(matches!(
        resolve_project_annotation(Some(&anns)),
        AnnotationResolution::NoAnnotation
    ));
    assert!(matches!(
        resolve_project_annotation(None),
        AnnotationResolution::NoAnnotation
    ));
}

#[test]
fn no_annotation_accepts_without_fetch() {
    let ns = namespace_with(None, Some(&[("a", "b")]));
    let settings = Settings::default();
    match evaluate_namespace(&ns, &settings) {
        Ok(EvaluationStep::Conclude(Decision::Accept)) => {}
        _ => panic!("expected an outright accept"),
    }
}

#[test]
fn local_cluster_asks_for_one_uncached_fetch() {
    let ns = namespace_with(Some("local:p-abc123"), None);
    let settings = Settings::default();
    match evaluate_namespace(&ns, &settings) {
        Ok(EvaluationStep::FetchProject(req)) => {
            assert_eq!(req.api_version, "management.cattle.io/v3");
            assert_eq!(req.kind, "Project");
            assert_eq!(req.name, "p-abc123");
            assert_eq!(req.namespace, Some("local".to_string()));
            assert!(req.disable_cache);
        }
        _ => panic!("expected a project fetch"),
    }
}

#[test]
fn remote_cluster_fail_mode_rejects_without_fetch() {
    let ns = namespace_with(Some("downstream-cluster-1:proj"), None);
    let settings = Settings {
        downstream_cluster_failure_mode: FailureMode::Fail,
    };
    match evaluate_namespace(&ns, &settings) {
        Ok(EvaluationStep::Conclude(Decision::Reject(msg))) => {
            assert!(msg.contains("upstream cluster"));
        }
        _ => panic!("expected a rejection"),
    }
}

#[test]
fn remote_cluster_ignore_mode_accepts_without_fetch() {
    let ns = namespace_with(Some("downstream-cluster-1:proj"), None);
    let settings = Settings {
        downstream_cluster_failure_mode: FailureMode::Ignore,
    };
    match evaluate_namespace(&ns, &settings) {
        Ok(EvaluationStep::Conclude(Decision::Accept)) => {}
        _ => panic!("expected an accept"),
    }
}

#[test]
fn malformed_annotation_is_a_processing_error() {
    let settings = Settings::default();
    for bad in ["onlyonetoken", "a:b:c"] {
        let ns = namespace_with(Some(bad), None);
        match evaluate_namespace(&ns, &settings) {
            Err(PolicyError::MalformedAnnotation(key)) => {
                assert_eq!(key, project_annotation_key());
            }
            _ => panic!("expected a processing error, not a decision"),
        }
    }
}

#[test]
fn plan_propagation_remote_consults_failure_mode() {
    let loc = parse_locality("other:proj").unwrap();
    let fail = Settings {
        downstream_cluster_failure_mode: FailureMode::Fail,
    };
    assert!(matches!(
        plan_propagation(&loc, &fail),
        EvaluationStep::Conclude(Decision::Reject(_))
    ));
    let ignore = Settings {
        downstream_cluster_failure_mode: FailureMode::Ignore,
    };
    assert!(matches!(
        plan_propagation(&loc, &ignore),
        EvaluationStep::Conclude(Decision::Accept)
    ));
}

#[test]
fn matching_project_labels_accept_without_mutation() {
    let ns = namespace_with(
        Some("local:test-namespace"),
        Some(&[("hello", "world"), ("ciao", "mondo")]),
    );
    let project_labels = label_map(&[("propagate.hello", "world"), ("foo", "bar")]);
    match conclude_with_project(&ns, &project_labels) {
        Decision::Accept => {}
        _ => panic!("expected an accept without mutation"),
    }
}

#[test]
fn differing_project_label_mutates_namespace() {
    let ns = namespace_with(
        Some("local:test-namespace"),
        Some(&[("hello", "world2"), ("ciao", "mondo")]),
    );
    let project_labels = label_map(&[("propagate.hello", "world"), ("foo", "bar")]);
    match conclude_with_project(&ns, &project_labels) {
        Decision::Mutate(patched) => {
            let labels = patched.labels.expect("mutated labels present");
            assert_eq!(labels.len(), 2);
            assert_eq!(labels.get("hello"), Some(&"world".to_string()));
            assert_eq!(labels.get("ciao"), Some(&"mondo".to_string()));
            assert_eq!(patched.name, Some("testing-namespace".to_string()));
            let anns = patched.annotations.expect("annotations preserved");
            assert_eq!(
                anns.get(project_annotation_key()),
                Some(&"local:test-namespace".to_string())
            );
        }
        _ => panic!("expected a mutation"),
    }
}

#[test]
fn absent_namespace_labels_mutate_to_stripped_keys() {
    let ns = namespace_with(Some("local:test-namespace"), None);
    let project_labels = label_map(&[("propagate.hi", "world")]);
    match conclude_with_project(&ns, &project_labels) {
        Decision::Mutate(patched) => {
            let labels = patched.labels.expect("mutated labels present");
            assert_eq!(labels.len(), 1);
            assert_eq!(labels.get("hi"), Some(&"world".to_string()));
        }
        _ => panic!("expected a mutation"),
    }
}

#[test]
fn settings_always_validate() {
    assert!(Settings::default().validate().is_ok());
    let s = Settings {
        downstream_cluster_failure_mode: FailureMode::Fail,
    };
    assert!(s.validate().is_ok());
    assert_eq!(FailureMode::default(), FailureMode::Ignore);
}
