//! The API binder: from a resource descriptor and the scope flags of a
//! command to the scope in which the cluster is addressed.
//!
//! The binder keeps no state. A cluster-scoped kind, or a request for all
//! namespaces, is addressed cluster-wide and any namespace given is
//! ignored; otherwise the explicit namespace is used where there is one, and
//! the connection's default namespace where there is none.

use crate::discovery::{ResourceDescriptor, ResourceDescriptorView, Scope};
use crate::text::opt_str;
use vstd::prelude::*;
use vstd::string::*;

verus! {

/// Where the requests of a bound client go.
#[derive(Clone, Debug, PartialEq, Eq)]
pub enum ApiScope {
    /// The whole cluster.
    Cluster,
    /// The namespace of this name.
    Namespace(String),
    /// The default namespace of the connection.
    DefaultNamespace,
}

pub enum ApiScopeView {
    Cluster,
    Namespace(Seq<char>),
    DefaultNamespace,
}

impl View for ApiScope {
    type V = ApiScopeView;

    open spec fn view(&self) -> ApiScopeView {
        match self {
            ApiScope::Cluster => ApiScopeView::Cluster,
            ApiScope::Namespace(ns) => ApiScopeView::Namespace(ns@),
            ApiScope::DefaultNamespace => ApiScopeView::DefaultNamespace,
        }
    }
}

/// A resource kind together with the scope in which it is addressed: all
/// that a generic client needs besides the connection.
#[derive(Clone, Debug, PartialEq, Eq)]
pub struct BoundApi {
    pub resource: ResourceDescriptor,
    pub scope: ApiScope,
}

pub struct BoundApiView {
    pub resource: ResourceDescriptorView,
    pub scope: ApiScopeView,
}

impl View for BoundApi {
    type V = BoundApiView;

    open spec fn view(&self) -> BoundApiView {
        BoundApiView { resource: self.resource@, scope: self.scope@ }
    }
}

/// The scope in which a kind of scope `scope` is addressed.
pub open spec fn bound_scope(scope: Scope, namespace: Option<Seq<char>>, all: bool)
    -> ApiScopeView {
    if scope == Scope::Cluster || all {
        ApiScopeView::Cluster
    } else {
        match namespace {
            Some(ns) => ApiScopeView::Namespace(ns),
            None => ApiScopeView::DefaultNamespace,
        }
    }
}

/// The binding of `resource` under the given scope flags.
pub open spec fn bound_api(resource: ResourceDescriptorView, namespace: Option<Seq<char>>, all: bool)
    -> BoundApiView {
    BoundApiView { resource, scope: bound_scope(resource.scope, namespace, all) }
}

/// Binds `resource` to the scope that the flags select.
pub fn dynamic_api(resource: &ResourceDescriptor, namespace: Option<&str>, all: bool) -> (api:
    BoundApi)
    ensures
        api@ == bound_api(resource@, opt_str(namespace), all),
{
    let scope = if matches!(resource.scope, Scope::Cluster) || all {
        ApiScope::Cluster
    } else {
        match namespace {
            Some(ns) => ApiScope::Namespace(String::from_str(ns)),
            None => ApiScope::DefaultNamespace,
        }
    };
    BoundApi { resource: resource.duplicate(), scope }
}

/// A request for all namespaces is addressed cluster-wide whatever the
/// namespace given; without that request and without a namespace, a
/// namespaced kind is addressed in the default namespace.
pub proof fn lemma_scope_flags(resource: ResourceDescriptorView, namespace: Option<Seq<char>>)
    ensures
        bound_api(resource, namespace, true).scope == ApiScopeView::Cluster,
        resource.scope == Scope::Cluster ==> bound_api(resource, namespace, false).scope
            == ApiScopeView::Cluster,
        resource.scope == Scope::Namespaced ==> bound_api(resource, None, false).scope
            == ApiScopeView::DefaultNamespace,
        resource.scope == Scope::Namespaced && namespace is Some ==> bound_api(
            resource,
            namespace,
            false,
        ).scope == ApiScopeView::Namespace(namespace->0),
{
}

} // verus!
