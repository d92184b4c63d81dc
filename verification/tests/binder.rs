use kubectl_light::binder::{dynamic_api, ApiScope, BoundApi};
use kubectl_light::discovery::{ResourceDescriptor, Scope};

fn kind_with_scope(scope: Scope) -> ResourceDescriptor {
    ResourceDescriptor {
        group: "example.io".to_string(),
        version: "v1".to_string(),
        kind: "Widget".to_string(),
        plural: "widgets".to_string(),
        scope,
        supports_apply: true,
        supports_delete: false,
    }
}

#[test]
fn cluster_scoped_kinds_ignore_the_namespace() {
    let resource = kind_with_scope(Scope::Cluster);
    for (namespace, all) in [(None, false), (Some("ns"), false), (None, true), (Some("ns"), true)] {
        let api = dynamic_api(&resource, namespace, all);
        assert_eq!(api, BoundApi { resource: resource.clone(), scope: ApiScope::Cluster });
    }
}

#[test]
fn all_namespaces_means_cluster_wide() {
    let resource = kind_with_scope(Scope::Namespaced);
    assert_eq!(dynamic_api(&resource, None, true).scope, ApiScope::Cluster);
    assert_eq!(dynamic_api(&resource, Some("ns"), true).scope, ApiScope::Cluster);
}

#[test]
fn an_explicit_namespace_is_used() {
    let resource = kind_with_scope(Scope::Namespaced);
    let api = dynamic_api(&resource, Some("kube-system"), false);
    assert_eq!(api.scope, ApiScope::Namespace("kube-system".to_string()));
    assert_eq!(api.resource, resource);
}

#[test]
fn without_a_namespace_the_default_is_used() {
    let resource = kind_with_scope(Scope::Namespaced);
    assert_eq!(dynamic_api(&resource, None, false).scope, ApiScope::DefaultNamespace);
}
