//! Admission-control decision core for propagating project labels onto
//! namespaces in a multi-tenant cluster-management system.
//!
//! Given a namespace object and the policy settings, the core resolves the
//! namespace's project-locality annotation, branches on local versus remote
//! cluster, and — for local projects — merges the project's
//! `propagate.`-prefixed labels into the namespace's labels. The host shell
//! performs the transport and the single project fetch; everything the policy
//! decides is verified here.

pub mod annotation;
pub mod custom_resources;
pub mod labels;
pub mod merge;
pub mod settings;
pub mod strings;

use vstd::prelude::*;

use crate::annotation::{
    project_annotation_key, resolve_project_annotation, spec_project_annotation_key,
    spec_split_locality, AnnotationResolution, LocalityReference,
};
use crate::labels::{merge_labels, LabelMap};
use crate::merge::spec_merge;
use crate::settings::{FailureMode, Settings};
use crate::strings::str_eq;

verus! {

/// The sentinel cluster identifier of the locally-managed cluster.
pub open spec fn spec_local_cluster_id() -> Seq<char> {
    "local"@
}

/// The rejection diagnostic for namespaces whose project lives in a
/// remotely-managed cluster.
pub open spec fn spec_remote_cluster_message() -> Seq<char> {
    "Namespace belongs to project defined inside of an upstream cluster. This is not supported yet, accepting the request"@
}

/// The API group and version of the project-like resource.
pub open spec fn spec_project_api_version() -> Seq<char> {
    "management.cattle.io/v3"@
}

/// The kind of the project-like resource.
pub open spec fn spec_project_kind() -> Seq<char> {
    "Project"@
}

/// The fields of a namespace object that the policy reads or rewrites. The
/// host keeps the full object and carries every other field over unchanged.
pub struct NamespaceObject {
    pub name: Option<String>,
    pub labels: Option<LabelMap>,
    pub annotations: Option<LabelMap>,
}

/// The mapping an optional owned label set stands for.
pub open spec fn spec_labels_of(labels: Option<LabelMap>) -> Map<Seq<char>, Seq<char>> {
    match labels {
        Some(m) => m@,
        None => Map::<Seq<char>, Seq<char>>::empty(),
    }
}

/// The three-way admission outcome.
pub enum Decision {
    /// Let the request through unchanged.
    Accept,
    /// Let the request through with the namespace rewritten as carried here.
    Mutate(NamespaceObject),
    /// Deny the request, with a human-readable reason.
    Reject(String),
}

/// The coordinates of the single project fetch the host must issue on the
/// local-cluster path. The cache must be bypassed so that every decision
/// observes the project's current labels.
pub struct ProjectFetchRequest {
    pub api_version: String,
    pub kind: String,
    pub name: String,
    pub namespace: Option<String>,
    pub disable_cache: bool,
}

/// What the host must do next: conclude with a decision already made, or
/// fetch the project resource and hand its labels to
/// [`conclude_with_project`].
pub enum EvaluationStep {
    Conclude(Decision),
    FetchProject(ProjectFetchRequest),
}

/// A hard request-processing failure: the request fails to evaluate rather
/// than being accepted or rejected.
pub enum PolicyError {
    /// The locality annotation exists but does not split into exactly two
    /// colon-separated halves; carries the annotation key's name.
    MalformedAnnotation(String),
}

/// Decide what to do for a resolved locality reference: the remote-cluster
/// path concludes by the failure mode without any fetch; the local-cluster
/// path asks for exactly one cache-bypassing fetch of the project resource.
pub fn plan_propagation(locality: &LocalityReference, settings: &Settings) -> (r: EvaluationStep)
    ensures
        locality.cluster_id@ != spec_local_cluster_id() ==> match settings.downstream_cluster_failure_mode {
            FailureMode::Fail => r matches EvaluationStep::Conclude(Decision::Reject(msg))
                && msg@ == spec_remote_cluster_message(),
            FailureMode::Ignore => r == EvaluationStep::Conclude(Decision::Accept),
        },
        locality.cluster_id@ == spec_local_cluster_id() ==> (r matches EvaluationStep::FetchProject(
            req,
        ) && req.api_version@ == spec_project_api_version() && req.kind@ == spec_project_kind()
            && req.name@ == locality.resource_id@ && (req.namespace matches Some(ns) && ns@
            == locality.cluster_id@) && req.disable_cache),
{
    if !str_eq(locality.cluster_id.as_str(), "local") {
        match settings.downstream_cluster_failure_mode {
            FailureMode::Fail => EvaluationStep::Conclude(
                Decision::Reject(
                    String::from_str(
                        "Namespace belongs to project defined inside of an upstream cluster. This is not supported yet, accepting the request",
                    ),
                ),
            ),
            FailureMode::Ignore => EvaluationStep::Conclude(Decision::Accept),
        }
    } else {
        EvaluationStep::FetchProject(
            ProjectFetchRequest {
                api_version: String::from_str("management.cattle.io/v3"),
                kind: String::from_str("Project"),
                name: locality.resource_id.clone(),
                namespace: Some(locality.cluster_id.clone()),
                disable_cache: true,
            },
        )
    }
}

/// Evaluate a namespace against the policy as far as no fetched data is
/// needed: accept outright when the locality annotation is absent, fail on a
/// malformed annotation, conclude by the failure mode for a remote cluster,
/// and otherwise ask for the project fetch.
pub fn evaluate_namespace(namespace: &NamespaceObject, settings: &Settings) -> (r: Result<
    EvaluationStep,
    PolicyError,
>)
    ensures
        ({
            let anns = spec_labels_of(namespace.annotations);
            let key = spec_project_annotation_key();
            if !anns.dom().contains(key) {
                r == Ok::<EvaluationStep, PolicyError>(EvaluationStep::Conclude(Decision::Accept))
            } else {
                match spec_split_locality(anns[key]) {
                    None => r matches Err(PolicyError::MalformedAnnotation(k)) && k@ == key,
                    Some((c, p)) => {
                        if c != spec_local_cluster_id() {
                            match settings.downstream_cluster_failure_mode {
                                FailureMode::Fail => r matches Ok(
                                    EvaluationStep::Conclude(Decision::Reject(msg)),
                                ) && msg@ == spec_remote_cluster_message(),
                                FailureMode::Ignore => r == Ok::<EvaluationStep, PolicyError>(
                                    EvaluationStep::Conclude(Decision::Accept),
                                ),
                            }
                        } else {
                            r matches Ok(EvaluationStep::FetchProject(req)) && req.api_version@
                                == spec_project_api_version() && req.kind@ == spec_project_kind()
                                && req.name@ == p && (req.namespace matches Some(ns) && ns@ == c)
                                && req.disable_cache
                        }
                    },
                }
            }
        }),
{
    match resolve_project_annotation(namespace.annotations.as_ref()) {
        AnnotationResolution::NoAnnotation => Ok(EvaluationStep::Conclude(Decision::Accept)),
        AnnotationResolution::Malformed => Err(
            PolicyError::MalformedAnnotation(project_annotation_key().to_owned()),
        ),
        AnnotationResolution::Resolved(loc) => Ok(plan_propagation(&loc, settings)),
    }
}

/// Conclude the local-cluster path once the project's labels are in hand:
/// accept when merging would change nothing, and otherwise rewrite the
/// namespace's labels to the merged set, leaving its other fields alone.
pub fn conclude_with_project(namespace: &NamespaceObject, project_labels: &LabelMap) -> (d:
    Decision)
    ensures
        ({
            let tgt = spec_labels_of(namespace.labels);
            let merged = spec_merge(project_labels@, tgt);
            if merged == tgt {
                d == Decision::Accept
            } else {
                d matches Decision::Mutate(patched) && (patched.labels matches Some(m) && m@
                    == merged) && patched.name == namespace.name && spec_labels_of(
                    patched.annotations,
                ) == spec_labels_of(namespace.annotations) && (patched.annotations is Some
                    <==> namespace.annotations is Some)
            }
        }),
{
    match merge_labels(project_labels, namespace.labels.as_ref()) {
        None => Decision::Accept,
        Some(new_labels) => {
            let name = match &namespace.name {
                Some(n) => Some(n.clone()),
                None => None,
            };
            let annotations = match &namespace.annotations {
                Some(a) => Some(a.duplicate()),
                None => None,
            };
            Decision::Mutate(
                NamespaceObject { name, labels: Some(new_labels), annotations },
            )
        },
    }
}

} // verus!
