use kubectl_light::discovery::{
    resolve_api_resource, resolve_gvk, ApiGroup, DiscoveryIndex, GroupVersionKind,
    ResourceDescriptor, Scope, VersionedResources,
};

fn descriptor(group: &str, version: &str, kind: &str, plural: &str, scope: Scope) -> ResourceDescriptor {
    ResourceDescriptor {
        group: group.to_string(),
        version: version.to_string(),
        kind: kind.to_string(),
        plural: plural.to_string(),
        scope,
        supports_apply: true,
        supports_delete: true,
    }
}

fn group_of(name: &str, version: &str, resources: Vec<ResourceDescriptor>) -> ApiGroup {
    ApiGroup {
        name: name.to_string(),
        preferred: resources.clone(),
        versions: vec![VersionedResources { version: version.to_string(), resources }],
    }
}

fn gvk(group: &str, version: &str, kind: &str) -> GroupVersionKind {
    GroupVersionKind { group: group.to_string(), version: version.to_string(), kind: kind.to_string() }
}

fn small_cluster() -> DiscoveryIndex {
    DiscoveryIndex {
        groups: vec![
            group_of(
                "apps",
                "v1",
                vec![
                    descriptor("apps", "v1", "Deployment", "deployments", Scope::Namespaced),
                    descriptor("apps", "v1", "StatefulSet", "statefulsets", Scope::Namespaced),
                ],
            ),
            group_of(
                "",
                "v1",
                vec![
                    descriptor("", "v1", "Pod", "pods", Scope::Namespaced),
                    descriptor("", "v1", "Namespace", "namespaces", Scope::Cluster),
                    descriptor("", "v1", "Event", "events", Scope::Namespaced),
                ],
            ),
            group_of(
                "events.k8s.io",
                "v1",
                vec![descriptor("events.k8s.io", "v1", "Event", "events", Scope::Namespaced)],
            ),
        ],
    }
}

#[test]
fn resolves_by_plural_and_by_kind() {
    let index = small_cluster();
    let pod = descriptor("", "v1", "Pod", "pods", Scope::Namespaced);
    assert_eq!(resolve_api_resource(&index, "pods"), Some(&pod));
    assert_eq!(resolve_api_resource(&index, "Pod"), Some(&pod));
    assert_eq!(resolve_api_resource(&index, "pod"), Some(&pod));
}

#[test]
fn resolves_whatever_the_case() {
    let index = small_cluster();
    let deployment = descriptor("apps", "v1", "Deployment", "deployments", Scope::Namespaced);
    for name in ["deployment", "Deployment", "DEPLOYMENT", "deployments", "DePlOyMeNtS"] {
        assert_eq!(resolve_api_resource(&index, name), Some(&deployment), "{name}");
    }
}

#[test]
fn unknown_names_do_not_resolve() {
    let index = small_cluster();
    assert_eq!(resolve_api_resource(&index, "deploy"), None);
    assert_eq!(resolve_api_resource(&index, "widgets"), None);
    assert_eq!(resolve_api_resource(&index, ""), None);
    assert_eq!(resolve_api_resource(&DiscoveryIndex { groups: vec![] }, "pods"), None);
}

#[test]
fn the_smaller_group_name_wins() {
    let index = small_cluster();
    let core_event = descriptor("", "v1", "Event", "events", Scope::Namespaced);
    assert_eq!(resolve_api_resource(&index, "events"), Some(&core_event));
}

#[test]
fn the_order_of_discovery_does_not_matter() {
    let a = group_of("alpha.example", "v1", vec![descriptor("alpha.example", "v1", "Widget", "widgets", Scope::Namespaced)]);
    let b = group_of("beta.example", "v1", vec![descriptor("beta.example", "v1", "Widget", "widgets", Scope::Cluster)]);
    let c = group_of("gamma.example", "v1", vec![descriptor("gamma.example", "v1", "Gadget", "gadgets", Scope::Cluster)]);
    let expected = descriptor("alpha.example", "v1", "Widget", "widgets", Scope::Namespaced);
    let orders = [
        vec![a.clone(), b.clone(), c.clone()],
        vec![b.clone(), a.clone(), c.clone()],
        vec![c.clone(), b.clone(), a.clone()],
        vec![b.clone(), c.clone(), a.clone()],
    ];
    for groups in orders {
        let index = DiscoveryIndex { groups };
        assert_eq!(resolve_api_resource(&index, "widgets"), Some(&expected));
        assert_eq!(resolve_api_resource(&index, "WIDGET"), Some(&expected));
    }
}

#[test]
fn within_a_group_the_first_match_is_taken() {
    let index = DiscoveryIndex {
        groups: vec![group_of(
            "example.io",
            "v1",
            vec![
                descriptor("example.io", "v1", "Thing", "stuff", Scope::Namespaced),
                descriptor("example.io", "v1", "Stuff", "stuffs", Scope::Namespaced),
            ],
        )],
    };
    let first = descriptor("example.io", "v1", "Thing", "stuff", Scope::Namespaced);
    assert_eq!(resolve_api_resource(&index, "stuff"), Some(&first));
}

#[test]
fn names_resolve_against_preferred_resources_only() {
    let mut group = group_of("batch", "v1", vec![descriptor("batch", "v1", "Job", "jobs", Scope::Namespaced)]);
    group.versions.push(VersionedResources {
        version: "v1beta1".to_string(),
        resources: vec![descriptor("batch", "v1beta1", "CronJob", "cronjobs", Scope::Namespaced)],
    });
    let index = DiscoveryIndex { groups: vec![group] };
    assert_eq!(resolve_api_resource(&index, "cronjobs"), None);
    let cron = descriptor("batch", "v1beta1", "CronJob", "cronjobs", Scope::Namespaced);
    assert_eq!(resolve_gvk(&index, &gvk("batch", "v1beta1", "CronJob")), Some(&cron));
}

#[test]
fn resolves_group_version_and_kind_exactly() {
    let index = small_cluster();
    let deployment = descriptor("apps", "v1", "Deployment", "deployments", Scope::Namespaced);
    let namespace = descriptor("", "v1", "Namespace", "namespaces", Scope::Cluster);
    let event = descriptor("events.k8s.io", "v1", "Event", "events", Scope::Namespaced);
    assert_eq!(resolve_gvk(&index, &gvk("apps", "v1", "Deployment")), Some(&deployment));
    assert_eq!(resolve_gvk(&index, &gvk("", "v1", "Namespace")), Some(&namespace));
    assert_eq!(resolve_gvk(&index, &gvk("events.k8s.io", "v1", "Event")), Some(&event));
}

#[test]
fn group_version_and_kind_must_all_match() {
    let index = small_cluster();
    assert_eq!(resolve_gvk(&index, &gvk("apps", "v1", "deployment")), None);
    assert_eq!(resolve_gvk(&index, &gvk("apps", "v1", "deployments")), None);
    assert_eq!(resolve_gvk(&index, &gvk("apps", "v2", "Deployment")), None);
    assert_eq!(resolve_gvk(&index, &gvk("Apps", "v1", "Deployment")), None);
    assert_eq!(resolve_gvk(&index, &gvk("", "v1", "Deployment")), None);
    assert_eq!(resolve_gvk(&index, &gvk("example.io", "v1", "Widget")), None);
}

#[test]
fn a_descriptor_copy_equals_what_it_copies() {
    let first = descriptor("apps", "v1", "Deployment", "deployments", Scope::Namespaced);
    assert_eq!(first.duplicate(), first);
}
