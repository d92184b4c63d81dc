use kubectl_light::discovery::GroupVersionKind;
use kubectl_light::manifest::{multidoc_deserialize, ManifestDocument};
use kubectl_light::object::{
    decode_object, hide_all_managed_fields, type_gvk, DynamicObject, ObjectMeta, TypeMeta,
};

fn document(text: &str) -> ManifestDocument {
    let mut docs = multidoc_deserialize(text).unwrap();
    assert_eq!(docs.len(), 1);
    docs.remove(0)
}

fn json(text: &str) -> serde_json::Value {
    serde_json::from_str(text).unwrap()
}

fn types_of(api_version: &str, kind: &str) -> TypeMeta {
    TypeMeta { api_version: api_version.to_string(), kind: kind.to_string() }
}

fn object_named(name: Option<&str>, generate_name: Option<&str>) -> DynamicObject {
    DynamicObject {
        types: Some(types_of("v1", "ConfigMap")),
        metadata: ObjectMeta {
            name: name.map(String::from),
            generate_name: generate_name.map(String::from),
            namespace: None,
            managed_fields: None,
        },
        data: "{}".to_string(),
    }
}

#[test]
fn decodes_the_envelope_of_a_document() {
    let doc = document(
        "apiVersion: v1\nkind: ConfigMap\nmetadata:\n  name: settings\n  namespace: staging\n  labels:\n    app: web\ndata:\n  colour: blue\n",
    );
    let object = decode_object(&doc).unwrap();
    assert_eq!(object.types, Some(types_of("v1", "ConfigMap")));
    assert_eq!(object.metadata.name, Some("settings".to_string()));
    assert_eq!(object.metadata.generate_name, None);
    assert_eq!(object.metadata.namespace, Some("staging".to_string()));
    assert_eq!(object.metadata.managed_fields, None);
    assert_eq!(
        json(&object.data),
        json(
            "{\"apiVersion\":\"v1\",\"kind\":\"ConfigMap\",\"metadata\":{\"name\":\"settings\",\"namespace\":\"staging\",\"labels\":{\"app\":\"web\"}},\"data\":{\"colour\":\"blue\"}}"
        )
    );
}

#[test]
fn decodes_a_name_prefix() {
    let doc = document("apiVersion: batch/v1\nkind: Job\nmetadata:\n  generateName: run-\n");
    let object = decode_object(&doc).unwrap();
    assert_eq!(object.types, Some(types_of("batch/v1", "Job")));
    assert_eq!(object.metadata.name, None);
    assert_eq!(object.metadata.generate_name, Some("run-".to_string()));
    assert_eq!(object.name_any(), "run-");
}

#[test]
fn managed_field_records_are_kept_apart_from_the_payload() {
    let doc = document(
        "apiVersion: v1\nkind: Pod\nmetadata:\n  name: web\n  managedFields:\n    - manager: kubectl\n      operation: Apply\n    - manager: kubelet\n      operation: Update\n",
    );
    let object = decode_object(&doc).unwrap();
    let records = object.metadata.managed_fields.clone().unwrap();
    assert_eq!(records.len(), 2);
    assert_eq!(json(&records[0]), json("{\"manager\":\"kubectl\",\"operation\":\"Apply\"}"));
    assert_eq!(json(&records[1]), json("{\"manager\":\"kubelet\",\"operation\":\"Update\"}"));
    assert_eq!(
        json(&object.data),
        json("{\"apiVersion\":\"v1\",\"kind\":\"Pod\",\"metadata\":{\"name\":\"web\"}}")
    );
}

#[test]
fn a_document_without_kind_has_no_type_metadata() {
    let object = decode_object(&document("apiVersion: v1\nmetadata:\n  name: web\n")).unwrap();
    assert_eq!(object.types, None);
    assert_eq!(object.metadata.name, Some("web".to_string()));
    let object = decode_object(&document("kind: Pod\n")).unwrap();
    assert_eq!(object.types, None);
    let object = decode_object(&document("spec: {}\n")).unwrap();
    assert_eq!(object.types, None);
    assert_eq!(object.metadata.name, None);
}

#[test]
fn a_document_that_is_no_mapping_does_not_decode() {
    assert!(decode_object(&document("just a string\n")).is_err());
    assert!(decode_object(&document("- a\n- b\n")).is_err());
    assert!(decode_object(&document("7\n")).is_err());
}

#[test]
fn a_null_document_decodes_to_an_object_without_type_metadata() {
    let object = decode_object(&document("\n")).unwrap();
    assert_eq!(object.types, None);
    assert_eq!(object.metadata.name, None);
}

#[test]
fn metadata_of_the_wrong_shape_does_not_decode() {
    let error = decode_object(&document("apiVersion: v1\nkind: Pod\nmetadata: 7\n")).unwrap_err();
    assert!(!error.is_empty());
}

#[test]
fn splits_the_api_version_at_its_first_slash() {
    let gvk = |group: &str, version: &str, kind: &str| {
        Ok(GroupVersionKind { group: group.to_string(), version: version.to_string(), kind: kind.to_string() })
    };
    assert_eq!(type_gvk(&types_of("apps/v1", "Deployment")), gvk("apps", "v1", "Deployment"));
    assert_eq!(type_gvk(&types_of("v1", "Pod")), gvk("", "v1", "Pod"));
    assert_eq!(type_gvk(&types_of("kube.rs/v1", "Example")), gvk("kube.rs", "v1", "Example"));
    assert_eq!(type_gvk(&types_of("a/b/c", "K")), gvk("a", "b/c", "K"));
    assert_eq!(type_gvk(&types_of("/v1", "K")), gvk("", "v1", "K"));
    assert_eq!(type_gvk(&types_of("apps/", "K")), gvk("apps", "", "K"));
    assert_eq!(type_gvk(&types_of("", "")), gvk("", "", ""));
}

#[test]
fn the_name_falls_back_on_the_prefix() {
    assert_eq!(object_named(Some("web"), Some("gen-")).name_any(), "web");
    assert_eq!(object_named(Some("web"), None).name_any(), "web");
    assert_eq!(object_named(None, Some("gen-")).name_any(), "gen-");
    assert_eq!(object_named(None, None).name_any(), "");
}

#[test]
fn hiding_empties_the_records_and_keeps_the_rest() {
    let mut object = object_named(Some("web"), None);
    object.metadata.namespace = Some("ns".to_string());
    object.metadata.managed_fields = Some(vec!["{\"manager\":\"kubectl\"}".to_string()]);
    object.data = "{\"spec\":{}}".to_string();
    let mut expected = object.clone();
    expected.metadata.managed_fields = Some(vec![]);
    assert_eq!(object.hide_managed_fields(), expected);
}

#[test]
fn hiding_gives_an_object_without_records_an_empty_list() {
    let object = object_named(Some("web"), None);
    assert_eq!(object.hide_managed_fields().metadata.managed_fields, Some(vec![]));
}

#[test]
fn hiding_keeps_length_and_order() {
    let mut first = object_named(Some("a"), None);
    first.metadata.managed_fields = Some(vec!["{}".to_string(), "{}".to_string()]);
    let second = object_named(Some("b"), None);
    let shown = hide_all_managed_fields(vec![first, second]);
    assert_eq!(shown.len(), 2);
    assert_eq!(shown[0].metadata.name, Some("a".to_string()));
    assert_eq!(shown[1].metadata.name, Some("b".to_string()));
    assert!(shown.iter().all(|object| object.metadata.managed_fields == Some(vec![])));
    assert_eq!(hide_all_managed_fields(vec![]), vec![]);
}

#[test]
fn a_type_copy_equals_what_it_copies() {
    let first = types_of("apps/v1", "Deployment");
    assert_eq!(first.duplicate(), first);
}
