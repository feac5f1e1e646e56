//! The project custom resource's quota records, with their deep-merge rules.
//!
//! Quantities are carried as plain strings. Merging follows the usual
//! deep-merge convention for such records: an atomic field is replaced
//! whenever the other side carries a value, an absent optional record is
//! taken from the other side whole, and two present records merge field by
//! field.

use vstd::prelude::*;

verus! {

/// The merge of two optional atomic fields: the right side wins whenever it
/// carries a value.
pub open spec fn spec_merge_atom(a: Option<String>, b: Option<String>) -> Option<String> {
    if b is Some {
        b
    } else {
        a
    }
}

/// An optional field holding the quantity zero.
pub open spec fn spec_is_zero_quantity(q: Option<String>) -> bool {
    q matches Some(s) && s@ == "0"@
}

/// Replace `target` when `other` carries a value.
fn merge_atom_field(target: &mut Option<String>, other: Option<String>)
    ensures
        *final(target) == spec_merge_atom(*old(target), other),
{
    if other.is_some() {
        *target = other;
    }
}

/// Per-resource caps a project or namespace quota can impose.
#[derive(Clone, Debug, PartialEq)]
pub struct ResourceQuotaLimit {
    pub pods: Option<String>,
    pub services: Option<String>,
    pub replication_controllers: Option<String>,
    pub secrets: Option<String>,
    pub config_maps: Option<String>,
    pub persistent_volume_claims: Option<String>,
    pub services_node_ports: Option<String>,
    pub services_load_balancers: Option<String>,
    pub requests_cpu: Option<String>,
    pub requests_memory: Option<String>,
    pub requests_storage: Option<String>,
    pub limits_cpu: Option<String>,
    pub limits_memory: Option<String>,
}

/// The field-wise merge of two quota limits.
pub open spec fn spec_merge_quota_limit(
    a: ResourceQuotaLimit,
    b: ResourceQuotaLimit,
) -> ResourceQuotaLimit {
    ResourceQuotaLimit {
        pods: spec_merge_atom(a.pods, b.pods),
        services: spec_merge_atom(a.services, b.services),
        replication_controllers: spec_merge_atom(a.replication_controllers, b.replication_controllers),
        secrets: spec_merge_atom(a.secrets, b.secrets),
        config_maps: spec_merge_atom(a.config_maps, b.config_maps),
        persistent_volume_claims: spec_merge_atom(a.persistent_volume_claims, b.persistent_volume_claims),
        services_node_ports: spec_merge_atom(a.services_node_ports, b.services_node_ports),
        services_load_balancers: spec_merge_atom(a.services_load_balancers, b.services_load_balancers),
        requests_cpu: spec_merge_atom(a.requests_cpu, b.requests_cpu),
        requests_memory: spec_merge_atom(a.requests_memory, b.requests_memory),
        requests_storage: spec_merge_atom(a.requests_storage, b.requests_storage),
        limits_cpu: spec_merge_atom(a.limits_cpu, b.limits_cpu),
        limits_memory: spec_merge_atom(a.limits_memory, b.limits_memory),
    }
}

/// The merge of two optional quota limits.
pub open spec fn spec_merge_opt_quota_limit(
    a: Option<ResourceQuotaLimit>,
    b: Option<ResourceQuotaLimit>,
) -> Option<ResourceQuotaLimit> {
    match b {
        None => a,
        Some(bv) => match a {
            None => Some(bv),
            Some(av) => Some(spec_merge_quota_limit(av, bv)),
        },
    }
}

impl Default for ResourceQuotaLimit {
    /// A limit of zero for every resource.
    fn default() -> (r: Self)
        ensures
            spec_is_zero_quantity(r.pods),
            spec_is_zero_quantity(r.services),
            spec_is_zero_quantity(r.replication_controllers),
            spec_is_zero_quantity(r.secrets),
            spec_is_zero_quantity(r.config_maps),
            spec_is_zero_quantity(r.persistent_volume_claims),
            spec_is_zero_quantity(r.services_node_ports),
            spec_is_zero_quantity(r.services_load_balancers),
            spec_is_zero_quantity(r.requests_cpu),
            spec_is_zero_quantity(r.requests_memory),
            spec_is_zero_quantity(r.requests_storage),
            spec_is_zero_quantity(r.limits_cpu),
            spec_is_zero_quantity(r.limits_memory),
    {
        ResourceQuotaLimit {
            pods: Some(String::from_str("0")),
            services: Some(String::from_str("0")),
            replication_controllers: Some(String::from_str("0")),
            secrets: Some(String::from_str("0")),
            config_maps: Some(String::from_str("0")),
            persistent_volume_claims: Some(String::from_str("0")),
            services_node_ports: Some(String::from_str("0")),
            services_load_balancers: Some(String::from_str("0")),
            requests_cpu: Some(String::from_str("0")),
            requests_memory: Some(String::from_str("0")),
            requests_storage: Some(String::from_str("0")),
            limits_cpu: Some(String::from_str("0")),
            limits_memory: Some(String::from_str("0")),
        }
    }
}

impl ResourceQuotaLimit {
    /// Deep-merge `other` into this limit: every field `other` carries wins.
    pub fn merge_from(&mut self, other: Self)
        ensures
            *final(self) == spec_merge_quota_limit(*old(self), other),
    {
        merge_atom_field(&mut self.pods, other.pods);
        merge_atom_field(&mut self.services, other.services);
        merge_atom_field(&mut self.replication_controllers, other.replication_controllers);
        merge_atom_field(&mut self.secrets, other.secrets);
        merge_atom_field(&mut self.config_maps, other.config_maps);
        merge_atom_field(&mut self.persistent_volume_claims, other.persistent_volume_claims);
        merge_atom_field(&mut self.services_node_ports, other.services_node_ports);
        merge_atom_field(&mut self.services_load_balancers, other.services_load_balancers);
        merge_atom_field(&mut self.requests_cpu, other.requests_cpu);
        merge_atom_field(&mut self.requests_memory, other.requests_memory);
        merge_atom_field(&mut self.requests_storage, other.requests_storage);
        merge_atom_field(&mut self.limits_cpu, other.limits_cpu);
        merge_atom_field(&mut self.limits_memory, other.limits_memory);
    }
}

/// Merge `other` into an optional quota limit.
fn merge_opt_quota_limit(target: &mut Option<ResourceQuotaLimit>, other: Option<ResourceQuotaLimit>)
    ensures
        *final(target) == spec_merge_opt_quota_limit(*old(target), other),
{
    match other {
        None => {},
        Some(bv) => {
            match target {
                Some(av) => {
                    av.merge_from(bv);
                },
                None => {
                    *target = Some(bv);
                },
            }
        },
    }
}

/// The default quota a project imposes on each of its namespaces.
#[derive(Clone, Debug, PartialEq)]
pub struct NamespaceResourceQuota {
    pub limit: Option<ResourceQuotaLimit>,
}

/// The merge of two namespace quotas.
pub open spec fn spec_merge_namespace_quota(
    a: NamespaceResourceQuota,
    b: NamespaceResourceQuota,
) -> NamespaceResourceQuota {
    NamespaceResourceQuota { limit: spec_merge_opt_quota_limit(a.limit, b.limit) }
}

impl NamespaceResourceQuota {
    /// Deep-merge `other` into this quota.
    pub fn merge_from(&mut self, other: Self)
        ensures
            *final(self) == spec_merge_namespace_quota(*old(self), other),
    {
        merge_opt_quota_limit(&mut self.limit, other.limit);
    }
}

/// The quota a project imposes, and how much of it is used.
#[derive(Clone, Debug, PartialEq)]
pub struct ProjectResourceQuota {
    pub limit: Option<ResourceQuotaLimit>,
    pub used_limit: Option<ResourceQuotaLimit>,
}

/// The merge of two project quotas.
pub open spec fn spec_merge_project_quota(
    a: ProjectResourceQuota,
    b: ProjectResourceQuota,
) -> ProjectResourceQuota {
    ProjectResourceQuota {
        limit: spec_merge_opt_quota_limit(a.limit, b.limit),
        used_limit: spec_merge_opt_quota_limit(a.used_limit, b.used_limit),
    }
}

impl ProjectResourceQuota {
    /// Deep-merge `other` into this quota.
    pub fn merge_from(&mut self, other: Self)
        ensures
            *final(self) == spec_merge_project_quota(*old(self), other),
    {
        merge_opt_quota_limit(&mut self.limit, other.limit);
        merge_opt_quota_limit(&mut self.used_limit, other.used_limit);
    }
}

/// Default per-container resource bounds a project hands to its namespaces.
#[derive(Clone, Debug, PartialEq)]
pub struct ContainerResourceLimit {
    pub requests_cpu: Option<String>,
    pub requests_memory: Option<String>,
    pub limits_cpu: Option<String>,
    pub limits_memory: Option<String>,
}

/// The field-wise merge of two container limits.
pub open spec fn spec_merge_container_limit(
    a: ContainerResourceLimit,
    b: ContainerResourceLimit,
) -> ContainerResourceLimit {
    ContainerResourceLimit {
        requests_cpu: spec_merge_atom(a.requests_cpu, b.requests_cpu),
        requests_memory: spec_merge_atom(a.requests_memory, b.requests_memory),
        limits_cpu: spec_merge_atom(a.limits_cpu, b.limits_cpu),
        limits_memory: spec_merge_atom(a.limits_memory, b.limits_memory),
    }
}

impl ContainerResourceLimit {
    /// Deep-merge `other` into this limit: every field `other` carries wins.
    pub fn merge_from(&mut self, other: Self)
        ensures
            *final(self) == spec_merge_container_limit(*old(self), other),
    {
        merge_atom_field(&mut self.requests_cpu, other.requests_cpu);
        merge_atom_field(&mut self.requests_memory, other.requests_memory);
        merge_atom_field(&mut self.limits_cpu, other.limits_cpu);
        merge_atom_field(&mut self.limits_memory, other.limits_memory);
    }
}

/// Merge `other` into an optional container limit.
fn merge_opt_container_limit(
    target: &mut Option<ContainerResourceLimit>,
    other: Option<ContainerResourceLimit>,
)
    ensures
        *final(target) == ({
            match other {
                None => *old(target),
                Some(bv) => match *old(target) {
                    None => Some(bv),
                    Some(av) => Some(spec_merge_container_limit(av, bv)),
                },
            }
        }),
{
    match other {
        None => {},
        Some(bv) => {
            match target {
                Some(av) => {
                    av.merge_from(bv);
                },
                None => {
                    *target = Some(bv);
                },
            }
        },
    }
}

/// Merge `other` into an optional project quota.
fn merge_opt_project_quota(
    target: &mut Option<ProjectResourceQuota>,
    other: Option<ProjectResourceQuota>,
)
    ensures
        *final(target) == ({
            match other {
                None => *old(target),
                Some(bv) => match *old(target) {
                    None => Some(bv),
                    Some(av) => Some(spec_merge_project_quota(av, bv)),
                },
            }
        }),
{
    match other {
        None => {},
        Some(bv) => {
            match target {
                Some(av) => {
                    av.merge_from(bv);
                },
                None => {
                    *target = Some(bv);
                },
            }
        },
    }
}

/// Merge `other` into an optional namespace quota.
fn merge_opt_namespace_quota(
    target: &mut Option<NamespaceResourceQuota>,
    other: Option<NamespaceResourceQuota>,
)
    ensures
        *final(target) == ({
            match other {
                None => *old(target),
                Some(bv) => match *old(target) {
                    None => Some(bv),
                    Some(av) => Some(spec_merge_namespace_quota(av, bv)),
                },
            }
        }),
{
    match other {
        None => {},
        Some(bv) => {
            match target {
                Some(av) => {
                    av.merge_from(bv);
                },
                None => {
                    *target = Some(bv);
                },
            }
        },
    }
}

/// What the project custom resource declares: its display data and the
/// quotas and limits it hands down.
#[derive(Clone, Debug, PartialEq)]
pub struct ProjectSpec {
    pub display_name: Option<String>,
    pub description: String,
    pub cluster_name: Option<String>,
    pub resource_quota: Option<ProjectResourceQuota>,
    pub namespace_default_resource_quota: Option<NamespaceResourceQuota>,
    pub container_default_resource_limit: Option<ContainerResourceLimit>,
    pub enable_project_monitoring: bool,
}

/// The field-wise deep merge of two project declarations.
pub open spec fn spec_merge_project_spec(a: ProjectSpec, b: ProjectSpec) -> ProjectSpec {
    ProjectSpec {
        display_name: spec_merge_atom(a.display_name, b.display_name),
        description: b.description,
        cluster_name: spec_merge_atom(a.cluster_name, b.cluster_name),
        resource_quota: match b.resource_quota {
            None => a.resource_quota,
            Some(bv) => match a.resource_quota {
                None => Some(bv),
                Some(av) => Some(spec_merge_project_quota(av, bv)),
            },
        },
        namespace_default_resource_quota: match b.namespace_default_resource_quota {
            None => a.namespace_default_resource_quota,
            Some(bv) => match a.namespace_default_resource_quota {
                None => Some(bv),
                Some(av) => Some(spec_merge_namespace_quota(av, bv)),
            },
        },
        container_default_resource_limit: match b.container_default_resource_limit {
            None => a.container_default_resource_limit,
            Some(bv) => match a.container_default_resource_limit {
                None => Some(bv),
                Some(av) => Some(spec_merge_container_limit(av, bv)),
            },
        },
        enable_project_monitoring: b.enable_project_monitoring,
    }
}

impl ProjectSpec {
    /// Deep-merge `other` into this declaration: atomic fields `other`
    /// carries win, nested quota records merge field by field.
    pub fn merge_from(&mut self, other: Self)
        ensures
            *final(self) == spec_merge_project_spec(*old(self), other),
    {
        merge_atom_field(&mut self.display_name, other.display_name);
        self.description = other.description;
        merge_atom_field(&mut self.cluster_name, other.cluster_name);
        merge_opt_project_quota(&mut self.resource_quota, other.resource_quota);
        merge_opt_namespace_quota(
            &mut self.namespace_default_resource_quota,
            other.namespace_default_resource_quota,
        );
        merge_opt_container_limit(
            &mut self.container_default_resource_limit,
            other.container_default_resource_limit,
        );
        self.enable_project_monitoring = other.enable_project_monitoring;
    }
}

} // verus!
