//! The discovery index: what a cluster serves, as plain data, and the two
//! lookups the engine makes in it.
//!
//! A name typed on a command line is matched, ignoring ASCII case, against
//! the kind and the plural of every resource at its most stable version;
//! among the groups that have a match the one whose name sorts first wins.
//! A document's group, version and kind are looked up exactly.

use crate::text::{
    chars_eq_ignore_ascii_case, eq_ignore_ascii_case, lemma_lex_lt_irreflexive,
    lemma_lex_lt_total, lemma_lex_lt_transitive, lex_lt, str_eq, str_lex_lt, to_chars,
};
use vstd::prelude::*;

verus! {

/// Whether a resource kind exists once per cluster or once per namespace.
#[derive(Clone, Copy, Debug, PartialEq, Eq, Structural)]
pub enum Scope {
    Cluster,
    Namespaced,
}

/// One served resource kind at one version.
#[derive(Clone, Debug, PartialEq, Eq)]
pub struct ResourceDescriptor {
    /// API group; empty for the core group.
    pub group: String,
    pub version: String,
    pub kind: String,
    pub plural: String,
    pub scope: Scope,
    /// Whether the server accepts patches of this kind.
    pub supports_apply: bool,
    /// Whether the server accepts deletes of this kind.
    pub supports_delete: bool,
}

pub struct ResourceDescriptorView {
    pub group: Seq<char>,
    pub version: Seq<char>,
    pub kind: Seq<char>,
    pub plural: Seq<char>,
    pub scope: Scope,
    pub supports_apply: bool,
    pub supports_delete: bool,
}

impl View for ResourceDescriptor {
    type V = ResourceDescriptorView;

    open spec fn view(&self) -> ResourceDescriptorView {
        ResourceDescriptorView {
            group: self.group@,
            version: self.version@,
            kind: self.kind@,
            plural: self.plural@,
            scope: self.scope,
            supports_apply: self.supports_apply,
            supports_delete: self.supports_delete,
        }
    }
}

impl ResourceDescriptor {
    /// A copy of this descriptor.
    pub fn duplicate(&self) -> (copy: ResourceDescriptor)
        ensures
            copy@ == self@,
    {
        ResourceDescriptor {
            group: self.group.clone(),
            version: self.version.clone(),
            kind: self.kind.clone(),
            plural: self.plural.clone(),
            scope: self.scope,
            supports_apply: self.supports_apply,
            supports_delete: self.supports_delete,
        }
    }
}

/// The views of a sequence of descriptors, element by element.
pub open spec fn descriptors(v: Seq<ResourceDescriptor>) -> Seq<ResourceDescriptorView> {
    Seq::new(v.len(), |i: int| v[i]@)
}

/// The resources a group serves at one of its versions.
#[derive(Clone, Debug, PartialEq, Eq)]
pub struct VersionedResources {
    pub version: String,
    pub resources: Vec<ResourceDescriptor>,
}

pub struct VersionedResourcesView {
    pub version: Seq<char>,
    pub resources: Seq<ResourceDescriptorView>,
}

impl View for VersionedResources {
    type V = VersionedResourcesView;

    open spec fn view(&self) -> VersionedResourcesView {
        VersionedResourcesView { version: self.version@, resources: descriptors(self.resources@) }
    }
}

/// One API group as discovery found it.
#[derive(Clone, Debug, PartialEq, Eq)]
pub struct ApiGroup {
    /// Canonical group name; empty for the core group.
    pub name: String,
    /// Each kind of the group once, at its most stable version.
    pub preferred: Vec<ResourceDescriptor>,
    /// Every served version with its resources.
    pub versions: Vec<VersionedResources>,
}

pub struct ApiGroupView {
    pub name: Seq<char>,
    pub preferred: Seq<ResourceDescriptorView>,
    pub versions: Seq<VersionedResourcesView>,
}

impl View for ApiGroup {
    type V = ApiGroupView;

    open spec fn view(&self) -> ApiGroupView {
        ApiGroupView {
            name: self.name@,
            preferred: descriptors(self.preferred@),
            versions: Seq::new(self.versions@.len(), |i: int| self.versions@[i]@),
        }
    }
}

/// Everything one discovery pass found. Built anew for every request.
#[derive(Clone, Debug, PartialEq, Eq)]
pub struct DiscoveryIndex {
    pub groups: Vec<ApiGroup>,
}

impl View for DiscoveryIndex {
    type V = Seq<ApiGroupView>;

    open spec fn view(&self) -> Seq<ApiGroupView> {
        Seq::new(self.groups@.len(), |i: int| self.groups@[i]@)
    }
}

/// The group, version and kind that a document declares.
#[derive(Clone, Debug, PartialEq, Eq)]
pub struct GroupVersionKind {
    pub group: String,
    pub version: String,
    pub kind: String,
}

pub struct GroupVersionKindView {
    pub group: Seq<char>,
    pub version: Seq<char>,
    pub kind: Seq<char>,
}

impl View for GroupVersionKind {
    type V = GroupVersionKindView;

    open spec fn view(&self) -> GroupVersionKindView {
        GroupVersionKindView { group: self.group@, version: self.version@, kind: self.kind@ }
    }
}

/// Whether `name` names the resource: it equals the kind or the plural up
/// to ASCII case.
pub open spec fn names_resource(name: Seq<char>, r: ResourceDescriptorView) -> bool {
    eq_ignore_ascii_case(name, r.kind) || eq_ignore_ascii_case(name, r.plural)
}

/// The first position at or after `from` whose resource `name` names.
pub open spec fn first_named(resources: Seq<ResourceDescriptorView>, name: Seq<char>, from: int)
    -> Option<int>
    decreases resources.len() - from,
{
    if from < 0 || from >= resources.len() {
        None
    } else if names_resource(name, resources[from]) {
        Some(from)
    } else {
        first_named(resources, name, from + 1)
    }
}

/// Whether the group has a preferred resource that `name` names.
pub open spec fn group_exposes(group: ApiGroupView, name: Seq<char>) -> bool {
    first_named(group.preferred, name, 0) is Some
}

/// Among the first `upto` groups, the one that wins `name`: it exposes the
/// name, no other exposing group sorts before it, and of several with the
/// same name it is the earliest.
pub open spec fn winning_group(groups: Seq<ApiGroupView>, name: Seq<char>, upto: int) -> Option<
    int,
>
    decreases upto,
{
    if upto <= 0 || upto > groups.len() {
        None
    } else {
        let earlier = winning_group(groups, name, upto - 1);
        let g = upto - 1;
        if !group_exposes(groups[g], name) {
            earlier
        } else {
            match earlier {
                None => Some(g),
                Some(b) => if lex_lt(groups[g].name, groups[b].name) {
                    Some(g)
                } else {
                    Some(b)
                },
            }
        }
    }
}

/// The descriptor that a command-line resource name stands for.
pub open spec fn resolve_name(index: Seq<ApiGroupView>, name: Seq<char>) -> Option<
    ResourceDescriptorView,
> {
    match winning_group(index, name, index.len() as int) {
        None => None,
        Some(g) => Some(index[g].preferred[first_named(index[g].preferred, name, 0).unwrap()]),
    }
}

/// The first position at or after `from` that holds `key`.
pub open spec fn first_equal(keys: Seq<Seq<char>>, key: Seq<char>, from: int) -> Option<int>
    decreases keys.len() - from,
{
    if from < 0 || from >= keys.len() {
        None
    } else if keys[from] == key {
        Some(from)
    } else {
        first_equal(keys, key, from + 1)
    }
}

pub open spec fn group_names(index: Seq<ApiGroupView>) -> Seq<Seq<char>> {
    Seq::new(index.len(), |i: int| index[i].name)
}

pub open spec fn version_names(versions: Seq<VersionedResourcesView>) -> Seq<Seq<char>> {
    Seq::new(versions.len(), |i: int| versions[i].version)
}

pub open spec fn kind_names(resources: Seq<ResourceDescriptorView>) -> Seq<Seq<char>> {
    Seq::new(resources.len(), |i: int| resources[i].kind)
}

/// The descriptor served for exactly this group, version and kind: the
/// first group of that name, its first entry for that version, and there
/// the first resource of that kind.
pub open spec fn resolve_exact(index: Seq<ApiGroupView>, gvk: GroupVersionKindView) -> Option<
    ResourceDescriptorView,
> {
    match first_equal(group_names(index), gvk.group, 0) {
        None => None,
        Some(g) => match first_equal(version_names(index[g].versions), gvk.version, 0) {
            None => None,
            Some(v) => {
                let resources = index[g].versions[v].resources;
                match first_equal(kind_names(resources), gvk.kind, 0) {
                    None => None,
                    Some(r) => Some(resources[r]),
                }
            },
        },
    }
}

/// What `first_named` finds is a match, and nothing before it is.
pub proof fn lemma_first_named(resources: Seq<ResourceDescriptorView>, name: Seq<char>, from: int)
    requires
        0 <= from,
    ensures
        match first_named(resources, name, from) {
            Some(r) => from <= r < resources.len() && names_resource(name, resources[r])
                && forall|k: int| from <= k < r ==> !names_resource(name, #[trigger] resources[k]),
            None => forall|k: int|
                from <= k < resources.len() ==> !names_resource(name, #[trigger] resources[k]),
        },
    decreases resources.len() - from,
{
    if from < resources.len() && !names_resource(name, resources[from]) {
        lemma_first_named(resources, name, from + 1);
    }
}

/// What `first_equal` finds holds the key, and nothing before it does.
pub proof fn lemma_first_equal(keys: Seq<Seq<char>>, key: Seq<char>, from: int)
    requires
        0 <= from,
    ensures
        match first_equal(keys, key, from) {
            Some(r) => from <= r < keys.len() && keys[r] == key && forall|k: int|
                from <= k < r ==> #[trigger] keys[k] != key,
            None => forall|k: int| from <= k < keys.len() ==> #[trigger] keys[k] != key,
        },
    decreases keys.len() - from,
{
    if from < keys.len() && keys[from] != key {
        lemma_first_equal(keys, key, from + 1);
    }
}

/// The winner among the first `upto` groups exposes the name; no exposing
/// group among them sorts before it; and an exposing group among them that
/// stands earlier sorts strictly after it. Without an exposing group there is
/// no winner.
pub proof fn lemma_winning_group(groups: Seq<ApiGroupView>, name: Seq<char>, upto: int)
    requires
        0 <= upto <= groups.len(),
    ensures
        match winning_group(groups, name, upto) {
            Some(b) => {
                &&& 0 <= b < upto
                &&& group_exposes(groups[b], name)
                &&& forall|g: int|
                    0 <= g < upto && group_exposes(#[trigger] groups[g], name) ==> !lex_lt(
                        groups[g].name,
                        groups[b].name,
                    )
                &&& forall|g: int|
                    0 <= g < b && group_exposes(#[trigger] groups[g], name) ==> lex_lt(
                        groups[b].name,
                        groups[g].name,
                    )
            },
            None => forall|g: int| 0 <= g < upto ==> !group_exposes(#[trigger] groups[g], name),
        },
    decreases upto,
{
    if upto > 0 {
        lemma_winning_group(groups, name, upto - 1);
        let g = upto - 1;
        let earlier = winning_group(groups, name, upto - 1);
        lemma_lex_lt_irreflexive(groups[g].name);
        if group_exposes(groups[g], name) && earlier is Some {
            let b = earlier.unwrap();
            if lex_lt(groups[g].name, groups[b].name) {
                assert forall|h: int|
                    0 <= h < upto && group_exposes(#[trigger] groups[h], name) implies !lex_lt(
                    groups[h].name,
                    groups[g].name,
                ) by {
                    if h == g {
                        lemma_lex_lt_irreflexive(groups[g].name);
                    } else if lex_lt(groups[h].name, groups[g].name) {
                        lemma_lex_lt_transitive(groups[h].name, groups[g].name, groups[b].name);
                    }
                }
                assert forall|h: int|
                    0 <= h < g && group_exposes(#[trigger] groups[h], name) implies lex_lt(
                    groups[g].name,
                    groups[h].name,
                ) by {
                    if !lex_lt(groups[g].name, groups[h].name) {
                        if lex_lt(groups[b].name, groups[h].name) {
                            lemma_lex_lt_transitive(groups[g].name, groups[b].name, groups[h].name);
                        } else {
                            lemma_lex_lt_total(groups[h].name, groups[b].name);
                        }
                    }
                }
            }
        }
    }
}

/// Resolution is deterministic in the group names: whenever two groups
/// expose the same name, the one that sorts later is never chosen, so the
/// lexicographically smaller group name wins whatever the order in which
/// discovery listed the groups.
pub proof fn lemma_smaller_group_wins(
    index: Seq<ApiGroupView>,
    name: Seq<char>,
    smaller: int,
    larger: int,
)
    requires
        0 <= smaller < index.len(),
        0 <= larger < index.len(),
        group_exposes(index[smaller], name),
        group_exposes(index[larger], name),
        lex_lt(index[smaller].name, index[larger].name),
    ensures
        resolve_name(index, name) is Some,
        winning_group(index, name, index.len() as int) is Some,
        winning_group(index, name, index.len() as int) != Some(larger),
        !lex_lt(
            index[smaller].name,
            index[winning_group(index, name, index.len() as int).unwrap()].name,
        ),
{
    lemma_winning_group(index, name, index.len() as int);
}

/// Where exactly two groups expose a name, the one whose name sorts first
/// is chosen, wherever the two stand in the index.
pub proof fn lemma_two_groups(index: Seq<ApiGroupView>, name: Seq<char>, smaller: int, larger: int)
    requires
        0 <= smaller < index.len(),
        0 <= larger < index.len(),
        group_exposes(index[smaller], name),
        group_exposes(index[larger], name),
        lex_lt(index[smaller].name, index[larger].name),
        forall|g: int|
            0 <= g < index.len() && group_exposes(#[trigger] index[g], name) ==> g == smaller || g
                == larger,
    ensures
        winning_group(index, name, index.len() as int) == Some(smaller),
        resolve_name(index, name) == Some(
            index[smaller].preferred[first_named(index[smaller].preferred, name, 0).unwrap()],
        ),
{
    lemma_winning_group(index, name, index.len() as int);
}

/// A name resolves exactly when some group exposes it, and then to a
/// resource that the name names, in a group that exposes it.
pub proof fn lemma_resolve_name(index: Seq<ApiGroupView>, name: Seq<char>)
    ensures
        resolve_name(index, name) is Some <==> exists|g: int|
            0 <= g < index.len() && group_exposes(#[trigger] index[g], name),
        resolve_name(index, name) matches Some(d) ==> names_resource(name, d),
{
    lemma_winning_group(index, name, index.len() as int);
    if let Some(g) = winning_group(index, name, index.len() as int) {
        lemma_first_named(index[g].preferred, name, 0);
    }
}

/// What resolves exactly is of the kind asked for, and is served by a
/// group of the name asked for at the version asked for.
pub proof fn lemma_resolve_exact(index: Seq<ApiGroupView>, gvk: GroupVersionKindView)
    ensures
        resolve_exact(index, gvk) matches Some(d) ==> d.kind == gvk.kind && exists|g: int, v: int|
            0 <= g < index.len() && 0 <= v < index[g].versions.len() && index[g].name == gvk.group
                && (#[trigger] index[g].versions[v]).version == gvk.version
                && index[g].versions[v].resources.contains(d),
{
    lemma_first_equal(group_names(index), gvk.group, 0);
    if let Some(g) = first_equal(group_names(index), gvk.group, 0) {
        lemma_first_equal(version_names(index[g].versions), gvk.version, 0);
        if let Some(v) = first_equal(version_names(index[g].versions), gvk.version, 0) {
            let resources = index[g].versions[v].resources;
            lemma_first_equal(kind_names(resources), gvk.kind, 0);
            if let Some(r) = first_equal(kind_names(resources), gvk.kind, 0) {
                assert(resources.contains(resources[r]));
                assert(index[g].versions[v].version == gvk.version);
            }
        }
    }
}

/// The position of the first resource of `resources` that `name` names.
fn find_named(resources: &Vec<ResourceDescriptor>, name: &[char]) -> (found: Option<usize>)
    ensures
        match found {
            Some(r) => first_named(descriptors(resources@), name@, 0) == Some(r as int),
            None => first_named(descriptors(resources@), name@, 0) is None,
        },
{
    let n: usize = resources.len();
    let mut r: usize = 0;
    while r < n
        invariant
            r <= n,
            n == resources@.len(),
            first_named(descriptors(resources@), name@, 0) == first_named(
                descriptors(resources@),
                name@,
                r as int,
            ),
        decreases n - r,
    {
        let kind = to_chars(resources[r].kind.as_str());
        let plural = to_chars(resources[r].plural.as_str());
        if chars_eq_ignore_ascii_case(name, kind.as_slice()) || chars_eq_ignore_ascii_case(
            name,
            plural.as_slice(),
        ) {
            return Some(r);
        }
        r += 1;
    }
    None
}

/// Resolves a resource name typed on a command line: the kind or plural it
/// matches, ignoring ASCII case, in the exposing group whose name sorts
/// first. `None` when no group exposes the name.
pub fn resolve_api_resource<'a>(index: &'a DiscoveryIndex, name: &str) -> (found: Option<
    &'a ResourceDescriptor,
>)
    ensures
        match found {
            Some(d) => resolve_name(index@, name@) == Some(d@),
            None => resolve_name(index@, name@) is None,
        },
{
    let wanted = to_chars(name);
    let n: usize = index.groups.len();
    let mut best: Option<(usize, usize)> = None;
    let mut g: usize = 0;
    while g < n
        invariant
            g <= n,
            n == index@.len(),
            n == index.groups@.len(),
            wanted@ == name@,
            match best {
                Some((b, r)) => winning_group(index@, name@, g as int) == Some(b as int) && b < g
                    && first_named(index@[b as int].preferred, name@, 0) == Some(r as int),
                None => winning_group(index@, name@, g as int) is None,
            },
        decreases n - g,
    {
        let group = &index.groups[g];
        assert(group@ == index@[g as int]);
        if let Some(r) = find_named(&group.preferred, wanted.as_slice()) {
            let wins = match best {
                None => true,
                Some((b, _)) => {
                    assert(index.groups@[b as int]@ == index@[b as int]);
                    str_lex_lt(group.name.as_str(), index.groups[b].name.as_str())
                },
            };
            if wins {
                best = Some((g, r));
            }
        }
        g += 1;
    }
    match best {
        None => None,
        Some((b, r)) => {
            proof {
                lemma_first_named(index@[b as int].preferred, name@, 0);
                assert(index.groups@[b as int]@ == index@[b as int]);
            }
            Some(&index.groups[b].preferred[r])
        },
    }
}

/// The position of the first group called `name`.
fn find_group(index: &DiscoveryIndex, name: &str) -> (found: Option<usize>)
    ensures
        match found {
            Some(g) => first_equal(group_names(index@), name@, 0) == Some(g as int),
            None => first_equal(group_names(index@), name@, 0) is None,
        },
{
    let n: usize = index.groups.len();
    let mut g: usize = 0;
    while g < n
        invariant
            g <= n,
            n == index.groups@.len(),
            first_equal(group_names(index@), name@, 0) == first_equal(
                group_names(index@),
                name@,
                g as int,
            ),
        decreases n - g,
    {
        if str_eq(index.groups[g].name.as_str(), name) {
            return Some(g);
        }
        g += 1;
    }
    None
}

/// The position of the first entry of `versions` for `version`.
fn find_version(versions: &Vec<VersionedResources>, version: &str) -> (found: Option<usize>)
    ensures
        match found {
            Some(v) => first_equal(
                version_names(Seq::new(versions@.len(), |i: int| versions@[i]@)),
                version@,
                0,
            ) == Some(v as int),
            None => first_equal(
                version_names(Seq::new(versions@.len(), |i: int| versions@[i]@)),
                version@,
                0,
            ) is None,
        },
{
    let ghost names = version_names(Seq::new(versions@.len(), |i: int| versions@[i]@));
    let n: usize = versions.len();
    let mut v: usize = 0;
    while v < n
        invariant
            v <= n,
            n == versions@.len(),
            names == version_names(Seq::new(versions@.len(), |i: int| versions@[i]@)),
            first_equal(names, version@, 0) == first_equal(names, version@, v as int),
        decreases n - v,
    {
        if str_eq(versions[v].version.as_str(), version) {
            return Some(v);
        }
        v += 1;
    }
    None
}

/// The position of the first resource of `resources` whose kind is `kind`.
fn find_kind(resources: &Vec<ResourceDescriptor>, kind: &str) -> (found: Option<usize>)
    ensures
        match found {
            Some(r) => first_equal(kind_names(descriptors(resources@)), kind@, 0) == Some(r as int),
            None => first_equal(kind_names(descriptors(resources@)), kind@, 0) is None,
        },
{
    let ghost names = kind_names(descriptors(resources@));
    let n: usize = resources.len();
    let mut r: usize = 0;
    while r < n
        invariant
            r <= n,
            n == resources@.len(),
            names == kind_names(descriptors(resources@)),
            first_equal(names, kind@, 0) == first_equal(names, kind@, r as int),
        decreases n - r,
    {
        if str_eq(resources[r].kind.as_str(), kind) {
            return Some(r);
        }
        r += 1;
    }
    None
}

/// Resolves the group, version and kind of a document, exactly as written.
/// `None` when the cluster does not serve that kind at that version.
pub fn resolve_gvk<'a>(index: &'a DiscoveryIndex, gvk: &GroupVersionKind) -> (found: Option<
    &'a ResourceDescriptor,
>)
    ensures
        match found {
            Some(d) => resolve_exact(index@, gvk@) == Some(d@),
            None => resolve_exact(index@, gvk@) is None,
        },
{
    let g = match find_group(index, gvk.group.as_str()) {
        None => { return None; },
        Some(g) => g,
    };
    proof {
        lemma_first_equal(group_names(index@), gvk@.group, 0);
    }
    let group = &index.groups[g];
    assert(group@ == index@[g as int]);
    assert(group@.versions == Seq::new(group.versions@.len(), |i: int| group.versions@[i]@));
    let v = match find_version(&group.versions, gvk.version.as_str()) {
        None => { return None; },
        Some(v) => v,
    };
    proof {
        lemma_first_equal(version_names(group@.versions), gvk@.version, 0);
    }
    let entry = &group.versions[v];
    assert(entry@ == group@.versions[v as int]);
    match find_kind(&entry.resources, gvk.kind.as_str()) {
        None => None,
        Some(r) => {
            proof {
                lemma_first_equal(kind_names(entry@.resources), gvk@.kind, 0);
            }
            Some(&entry.resources[r])
        },
    }
}

} // verus!
