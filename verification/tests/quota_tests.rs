//! Tests of the project quota records and their deep-merge rules.

use project_propagate_labels::custom_resources::{
    ContainerResourceLimit, NamespaceResourceQuota, ProjectResourceQuota, ProjectSpec,
    ResourceQuotaLimit,
};

fn quantity(s: &str) -> Option<String> {
    Some(s.to_string())
}

#[test]
fn quota_limit_default_is_all_zero() {
    let d = ResourceQuotaLimit::default();
    assert_eq!(d.pods, quantity("0"));
    assert_eq!(d.services, quantity("0"));
    assert_eq!(d.replication_controllers, quantity("0"));
    assert_eq!(d.secrets, quantity("0"));
    assert_eq!(d.config_maps, quantity("0"));
    assert_eq!(d.persistent_volume_claims, quantity("0"));
    assert_eq!(d.services_node_ports, quantity("0"));
    assert_eq!(d.services_load_balancers, quantity("0"));
    assert_eq!(d.requests_cpu, quantity("0"));
    assert_eq!(d.requests_memory, quantity("0"));
    assert_eq!(d.requests_storage, quantity("0"));
    assert_eq!(d.limits_cpu, quantity("0"));
    assert_eq!(d.limits_memory, quantity("0"));
}

#[test]
fn quota_limit_merge_prefers_present_fields() {
    let mut base = ResourceQuotaLimit::default();
    let mut other = ResourceQuotaLimit::default();
    other.pods = quantity("10");
    other.services = None;
    other.requests_cpu = quantity("2");
    base.merge_from(other);
    assert_eq!(base.pods, quantity("10"));
    assert_eq!(base.services, quantity("0"));
    assert_eq!(base.requests_cpu, quantity("2"));
    assert_eq!(base.limits_memory, quantity("0"));
}

#[test]
fn namespace_quota_merge_takes_missing_limit_whole() {
    let mut base = NamespaceResourceQuota { limit: None };
    let mut incoming_limit = ResourceQuotaLimit::default();
    incoming_limit.pods = quantity("5");
    base.merge_from(NamespaceResourceQuota {
        limit: Some(incoming_limit.clone()),
    });
    assert_eq!(base.limit, Some(incoming_limit));
}

#[test]
fn project_quota_merge_merges_both_limits() {
    let mut lhs_limit = ResourceQuotaLimit::default();
    lhs_limit.pods = quantity("1");
    let mut base = ProjectResourceQuota {
        limit: Some(lhs_limit),
        used_limit: None,
    };
    let mut rhs_limit = ResourceQuotaLimit::default();
    rhs_limit.services = quantity("7");
    let mut used = ResourceQuotaLimit::default();
    used.pods = quantity("3");
    base.merge_from(ProjectResourceQuota {
        limit: Some(rhs_limit),
        used_limit: Some(used.clone()),
    });
    let merged = base.limit.expect("limit present");
    // The right side replaces every field it carries; both sides here carry
    // every field, so the right side's values win throughout.
    assert_eq!(merged.pods, quantity("0"));
    assert_eq!(merged.services, quantity("7"));
    assert_eq!(base.used_limit, Some(used));
}

#[test]
fn container_limit_merge_keeps_absent_fields() {
    let mut base = ContainerResourceLimit {
        requests_cpu: quantity("100m"),
        requests_memory: None,
        limits_cpu: None,
        limits_memory: quantity("128Mi"),
    };
    base.merge_from(ContainerResourceLimit {
        requests_cpu: None,
        requests_memory: quantity("64Mi"),
        limits_cpu: quantity("200m"),
        limits_memory: None,
    });
    assert_eq!(base.requests_cpu, quantity("100m"));
    assert_eq!(base.requests_memory, quantity("64Mi"));
    assert_eq!(base.limits_cpu, quantity("200m"));
    assert_eq!(base.limits_memory, quantity("128Mi"));
}

#[test]
fn project_spec_merge_is_deep() {
    let mut base = ProjectSpec {
        display_name: quantity("old name"),
        description: "old description".to_string(),
        cluster_name: None,
        resource_quota: None,
        namespace_default_resource_quota: None,
        container_default_resource_limit: Some(ContainerResourceLimit {
            requests_cpu: quantity("100m"),
            requests_memory: None,
            limits_cpu: None,
            limits_memory: None,
        }),
        enable_project_monitoring: false,
    };
    let other = ProjectSpec {
        display_name: None,
        description: "new description".to_string(),
        cluster_name: quantity("local"),
        resource_quota: None,
        namespace_default_resource_quota: Some(NamespaceResourceQuota { limit: None }),
        container_default_resource_limit: Some(ContainerResourceLimit {
            requests_cpu: None,
            requests_memory: quantity("64Mi"),
            limits_cpu: None,
            limits_memory: None,
        }),
        enable_project_monitoring: true,
    };
    base.merge_from(other);
    assert_eq!(base.display_name, quantity("old name"));
    assert_eq!(base.description, "new description");
    assert_eq!(base.cluster_name, quantity("local"));
    assert_eq!(base.resource_quota, None);
    assert_eq!(
        base.namespace_default_resource_quota,
        Some(NamespaceResourceQuota { limit: None })
    );
    let container = base.container_default_resource_limit.expect("present");
    assert_eq!(container.requests_cpu, quantity("100m"));
    assert_eq!(container.requests_memory, quantity("64Mi"));
    assert!(base.enable_project_monitoring);
}
