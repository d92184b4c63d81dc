//! Schema-agnostic objects: the envelope that every verb works on.
//!
//! An object is its type metadata, the part of its metadata that the engine
//! reads, and an opaque payload. Nothing here depends on the kind of an
//! object, and nothing looks inside the payload.

use crate::discovery::{GroupVersionKind, GroupVersionKindView};
use crate::manifest::ManifestDocument;
use crate::text::{opt_text, texts};
use vstd::prelude::*;
use vstd::string::*;

verus! {

/// The `apiVersion` and `kind` of an object.
#[derive(Clone, Debug, PartialEq, Eq)]
pub struct TypeMeta {
    pub api_version: String,
    pub kind: String,
}

pub struct TypeMetaView {
    pub api_version: Seq<char>,
    pub kind: Seq<char>,
}

impl View for TypeMeta {
    type V = TypeMetaView;

    open spec fn view(&self) -> TypeMetaView {
        TypeMetaView { api_version: self.api_version@, kind: self.kind@ }
    }
}

/// The metadata that the engine reads or changes.
#[derive(Clone, Debug, PartialEq, Eq)]
pub struct ObjectMeta {
    pub name: Option<String>,
    pub generate_name: Option<String>,
    pub namespace: Option<String>,
    /// The records of which manager owns which fields, each as JSON text;
    /// `None` where the object carries no such list.
    pub managed_fields: Option<Vec<String>>,
}

pub struct ObjectMetaView {
    pub name: Option<Seq<char>>,
    pub generate_name: Option<Seq<char>>,
    pub namespace: Option<Seq<char>>,
    pub managed_fields: Option<Seq<Seq<char>>>,
}

impl View for ObjectMeta {
    type V = ObjectMetaView;

    open spec fn view(&self) -> ObjectMetaView {
        ObjectMetaView {
            name: opt_text(self.name),
            generate_name: opt_text(self.generate_name),
            namespace: opt_text(self.namespace),
            managed_fields: match self.managed_fields {
                Some(records) => Some(texts(records@)),
                None => None,
            },
        }
    }
}

/// A resource instance of any kind.
#[derive(Clone, Debug, PartialEq, Eq)]
pub struct DynamicObject {
    /// The type metadata; absent where the source gave no `apiVersion` or no
    /// `kind`.
    pub types: Option<TypeMeta>,
    pub metadata: ObjectMeta,
    /// The object as JSON text, without its managed-field records. The
    /// engine carries it and never reads it.
    pub data: String,
}

pub struct DynamicObjectView {
    pub types: Option<TypeMetaView>,
    pub metadata: ObjectMetaView,
    pub data: Seq<char>,
}

impl View for DynamicObject {
    type V = DynamicObjectView;

    open spec fn view(&self) -> DynamicObjectView {
        DynamicObjectView {
            types: match self.types {
                Some(t) => Some(t@),
                None => None,
            },
            metadata: self.metadata@,
            data: self.data@,
        }
    }
}

/// The views of a sequence of objects, element by element.
pub open spec fn objects(v: Seq<DynamicObject>) -> Seq<DynamicObjectView> {
    Seq::new(v.len(), |i: int| v[i]@)
}

impl ObjectMetaView {
    /// The most useful name there is: the name, else the name prefix, else
    /// the empty text.
    pub open spec fn name_any(self) -> Seq<char> {
        match self.name {
            Some(name) => name,
            None => match self.generate_name {
                Some(prefix) => prefix,
                None => Seq::empty(),
            },
        }
    }
}

impl DynamicObjectView {
    /// This object with an empty list of managed-field records.
    pub open spec fn without_managed_fields(self) -> DynamicObjectView {
        DynamicObjectView {
            metadata: ObjectMetaView { managed_fields: Some(Seq::empty()), ..self.metadata },
            ..self
        }
    }
}

impl TypeMeta {
    /// A copy of this type metadata.
    pub fn duplicate(&self) -> (copy: TypeMeta)
        ensures
            copy@ == self@,
    {
        TypeMeta { api_version: self.api_version.clone(), kind: self.kind.clone() }
    }
}

impl DynamicObject {
    /// The most useful name there is: the name, else the name prefix, else
    /// the empty text.
    pub fn name_any(&self) -> (name: String)
        ensures
            name@ == self@.metadata.name_any(),
    {
        match &self.metadata.name {
            Some(name) => name.clone(),
            None => match &self.metadata.generate_name {
                Some(prefix) => prefix.clone(),
                None => String::new(),
            },
        }
    }

    /// Empties the list of managed-field records, which is bookkeeping and
    /// not meant for display. Everything else stays.
    pub fn hide_managed_fields(self) -> (hidden: DynamicObject)
        ensures
            hidden@ == self@.without_managed_fields(),
    {
        let records: Vec<String> = Vec::new();
        assert(texts(records@) =~= Seq::empty());
        DynamicObject {
            types: self.types,
            metadata: ObjectMeta {
                name: self.metadata.name,
                generate_name: self.metadata.generate_name,
                namespace: self.metadata.namespace,
                managed_fields: Some(records),
            },
            data: self.data,
        }
    }
}

/// Position of the first `/` of `s` at or after `from`.
pub open spec fn slash_position(s: Seq<char>, from: int) -> Option<int>
    decreases s.len() - from,
{
    if from < 0 || from >= s.len() {
        None
    } else if s[from] == '/' {
        Some(from)
    } else {
        slash_position(s, from + 1)
    }
}

/// The group, version and kind that an `apiVersion` and a `kind` spell: the
/// group is what stands before the first `/` of the `apiVersion` and the
/// version what stands after it; without a `/` the group is the core group,
/// whose name is empty, and the version the whole text.
pub open spec fn group_version_kind(types: TypeMetaView) -> GroupVersionKindView {
    match slash_position(types.api_version, 0) {
        Some(i) => GroupVersionKindView {
            group: types.api_version.subrange(0, i),
            version: types.api_version.subrange(i + 1, types.api_version.len() as int),
            kind: types.kind,
        },
        None => GroupVersionKindView {
            group: Seq::empty(),
            version: types.api_version,
            kind: types.kind,
        },
    }
}

/// What a YAML value decodes to as an object, or the decoder's error text.
pub uninterp spec fn decoded_object(value: serde_yaml::Value) -> Result<
    DynamicObjectView,
    Seq<char>,
>;

/// The view of the result of decoding an object.
pub open spec fn object_decoding(r: Result<DynamicObject, String>) -> Result<
    DynamicObjectView,
    Seq<char>,
> {
    match r {
        Ok(o) => Ok(o@),
        Err(e) => Err(e@),
    }
}

/// Calls `serde_yaml::from_value` for kube's `DynamicObject` and moves what
/// comes out into an object of this crate: the type metadata and the three
/// names as they are, each managed-field record as JSON text, and as `data`
/// the JSON text of the object without those records (`serde_json::to_string`).
///
/// Claimed: the result depends on the value alone.
#[verifier::external_body]
fn decode_value(value: &serde_yaml::Value) -> (r: Result<DynamicObject, String>)
    ensures
        object_decoding(r) == decoded_object(*value),
{
    let mut o: kube::api::DynamicObject = serde_yaml::from_value(value.clone()).map_err(|e| e.to_string())?;
    let records = o.metadata.managed_fields.take();
    let data = serde_json::to_string(&o).map_err(|e| e.to_string())?;
    let types = o.types.map(|t| TypeMeta { api_version: t.api_version, kind: t.kind });
    let managed_fields = records.map(|v| v.iter().map(|f| serde_json::to_string(f).unwrap_or_default()).collect());
    let (name, generate_name, namespace) = (o.metadata.name, o.metadata.generate_name, o.metadata.namespace);
    Ok(DynamicObject { types, metadata: ObjectMeta { name, generate_name, namespace, managed_fields }, data })
}

/// Calls kube's `GroupVersionKind::try_from` on a `TypeMeta` with these two
/// fields.
///
/// Claimed: the call splits the `apiVersion` at its first `/` as
/// [`group_version_kind`] says. It cannot fail: a split into at most two
/// parts yields one part or two, and both are accepted.
#[verifier::external_body]
fn parse_gvk(types: &TypeMeta) -> (r: Result<GroupVersionKind, String>)
    ensures
        r is Ok,
        r->Ok_0@ == group_version_kind(types@),
{
    let tm = kube::core::TypeMeta { api_version: types.api_version.clone(), kind: types.kind.clone() };
    kube::core::GroupVersionKind::try_from(&tm)
        .map(|g| GroupVersionKind { group: g.group, version: g.version, kind: g.kind })
        .map_err(|e| e.to_string())
}

/// Decodes one manifest document into an object.
///
/// Fails, with the decoder's words, where the document is no mapping or a
/// field of its metadata has the wrong shape. A document without
/// `apiVersion` or without `kind` decodes, to an object without type
/// metadata.
pub fn decode_object(doc: &ManifestDocument) -> (r: Result<DynamicObject, String>)
    ensures
        object_decoding(r) == decoded_object(doc.value),
{
    decode_value(&doc.value)
}

/// The group, version and kind that the type metadata of an object spells.
/// Every `apiVersion` spells one, so this never fails.
pub fn type_gvk(types: &TypeMeta) -> (r: Result<GroupVersionKind, String>)
    ensures
        r is Ok,
        r->Ok_0@ == group_version_kind(types@),
{
    parse_gvk(types)
}

/// Hides the managed fields of every object of a collection. The
/// collection keeps its length and its order; an empty one stays empty.
pub fn hide_all_managed_fields(found: Vec<DynamicObject>) -> (shown: Vec<DynamicObject>)
    ensures
        shown@.len() == found@.len(),
        forall|i: int|
            0 <= i < found@.len() ==> (#[trigger] shown@[i])@ == found@[i]@.without_managed_fields(),
{
    let ghost all = found@;
    let mut shown: Vec<DynamicObject> = Vec::new();
    for object in it: found
        invariant
            it.seq() == all,
            shown@.len() == it.index(),
            forall|i: int|
                0 <= i < shown@.len() ==> (#[trigger] shown@[i])@
                    == all[i]@.without_managed_fields(),
    {
        shown.push(object.hide_managed_fields());
    }
    shown
}

} // verus!
