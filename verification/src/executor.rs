//! The command executor, as far as it can be decided without the cluster.
//!
//! A command is carried out in two steps around the cluster calls. [`kubectl`]
//! turns a parsed command, the discovery index and the request body into the
//! calls to make: one read, one delete, or the upserts of an apply in document
//! order. The caller makes them and hands what came back to
//! [`finish_get`], [`finish_delete`] or [`finish_apply`], which say how the
//! command ends.
//!
//! Apply treats its documents unevenly, on purpose. A document of a kind the
//! cluster does not serve is skipped with a note. A document that is no
//! object, or carries no type metadata, stops the batch there: what stood
//! before it is still applied, what stands after it is not. A failed cluster
//! call stops the batch as well.

use crate::binder::{bound_api, dynamic_api, BoundApi, BoundApiView};
use crate::command::{parse_message, Command, CommandView, ParseError, ParseErrorView, Verb};
use crate::discovery::{
    lemma_resolve_exact, resolve_api_resource, resolve_exact, resolve_gvk, resolve_name,
    ApiGroupView, DiscoveryIndex, GroupVersionKind, GroupVersionKindView,
};
use crate::manifest::{
    decoded_manifest, document_values, multidoc_deserialize, DecodeError, DecodeErrorView,
    ManifestDocument,
};
use crate::object::{
    decode_object, decoded_object, group_version_kind, hide_all_managed_fields, object_decoding,
    objects, type_gvk, DynamicObject, DynamicObjectView,
};
use crate::text::{
    clone_opt, decimal, decimal_text, enclose, join_lines, joined, opt_str, opt_text, texts,
};
use vstd::prelude::*;
use vstd::string::*;

verus! {

/// Why an apply stopped at a document.
#[derive(Clone, Debug, PartialEq, Eq)]
pub enum AbortReason {
    /// The document carries no `apiVersion` or no `kind`.
    MissingTypeMeta,
    /// The document does not decode into an object.
    Undecodable(String),
}

pub enum AbortReasonView {
    MissingTypeMeta,
    Undecodable(Seq<char>),
}

impl View for AbortReason {
    type V = AbortReasonView;

    open spec fn view(&self) -> AbortReasonView {
        match self {
            AbortReason::MissingTypeMeta => AbortReasonView::MissingTypeMeta,
            AbortReason::Undecodable(m) => AbortReasonView::Undecodable(m@),
        }
    }
}

/// An apply that stopped: at which document, and why.
#[derive(Clone, Debug, PartialEq, Eq)]
pub struct ApplyAbort {
    pub index: usize,
    pub reason: AbortReason,
}

pub struct ApplyAbortView {
    pub index: nat,
    pub reason: AbortReasonView,
}

impl View for ApplyAbort {
    type V = ApplyAbortView;

    open spec fn view(&self) -> ApplyAbortView {
        ApplyAbortView { index: self.index as nat, reason: self.reason@ }
    }
}

/// Every way in which a command can fail.
#[derive(Clone, Debug, PartialEq, Eq)]
pub enum EngineError {
    /// The command line was refused.
    Parse(ParseError),
    /// `get` or `delete` without a resource.
    InvalidCommand,
    /// No served resource goes by this name.
    ResourceNotFound(String),
    /// The manifest is malformed.
    ManifestDecode(DecodeError),
    /// An apply stopped at a document that cannot be applied.
    AbortApply(ApplyAbort),
    /// A cluster call failed.
    Transport(String),
    /// The object named in a `get` or a `delete` does not exist.
    NotFound(String),
}

pub enum EngineErrorView {
    Parse(ParseErrorView),
    InvalidCommand,
    ResourceNotFound(Seq<char>),
    ManifestDecode(DecodeErrorView),
    AbortApply(ApplyAbortView),
    Transport(Seq<char>),
    NotFound(Seq<char>),
}

impl View for EngineError {
    type V = EngineErrorView;

    open spec fn view(&self) -> EngineErrorView {
        match self {
            EngineError::Parse(e) => EngineErrorView::Parse(e@),
            EngineError::InvalidCommand => EngineErrorView::InvalidCommand,
            EngineError::ResourceNotFound(n) => EngineErrorView::ResourceNotFound(n@),
            EngineError::ManifestDecode(e) => EngineErrorView::ManifestDecode(e@),
            EngineError::AbortApply(a) => EngineErrorView::AbortApply(a@),
            EngineError::Transport(m) => EngineErrorView::Transport(m@),
            EngineError::NotFound(n) => EngineErrorView::NotFound(n@),
        }
    }
}

/// The text shown for an engine error.
pub open spec fn error_message(e: EngineErrorView) -> Seq<char> {
    match e {
        EngineErrorView::Parse(p) => parse_message(p),
        EngineErrorView::InvalidCommand => "Invalid command."@,
        EngineErrorView::ResourceNotFound(n) => "resource \""@ + n + "\" not found in cluster"@,
        EngineErrorView::ManifestDecode(d) => "cannot decode document "@ + decimal(d.index)
            + ": "@ + d.message,
        EngineErrorView::AbortApply(a) => match a.reason {
            AbortReasonView::MissingTypeMeta => "cannot apply document "@ + decimal(a.index)
                + ": object without valid TypeMeta"@,
            AbortReasonView::Undecodable(m) => "cannot apply document "@ + decimal(a.index)
                + ": "@ + m,
        },
        EngineErrorView::Transport(m) => m,
        EngineErrorView::NotFound(n) => "object \""@ + n + "\" not found"@,
    }
}

impl EngineError {
    /// The text shown for this error.
    pub fn message(&self) -> (text: String)
        ensures
            text@ == error_message(self@),
    {
        match self {
            EngineError::Parse(p) => p.message(),
            EngineError::InvalidCommand => String::from_str("Invalid command."),
            EngineError::ResourceNotFound(n) => enclose(
                "resource \"",
                n.as_str(),
                "\" not found in cluster",
            ),
            EngineError::ManifestDecode(d) => {
                let mut text = enclose("cannot decode document ", decimal_text(d.index as u64).as_str(), ": ");
                text.append(d.message.as_str());
                text
            },
            EngineError::AbortApply(a) => {
                let number = decimal_text(a.index as u64);
                match &a.reason {
                    AbortReason::MissingTypeMeta => enclose(
                        "cannot apply document ",
                        number.as_str(),
                        ": object without valid TypeMeta",
                    ),
                    AbortReason::Undecodable(m) => {
                        let mut text = enclose("cannot apply document ", number.as_str(), ": ");
                        text.append(m.as_str());
                        text
                    },
                }
            },
            EngineError::Transport(m) => m.clone(),
            EngineError::NotFound(n) => enclose("object \"", n.as_str(), "\" not found"),
        }
    }
}

/// One declarative upsert: create the object or merge it into the live
/// one, under a field manager.
#[derive(Clone, Debug, PartialEq, Eq)]
pub struct UpsertRequest {
    pub api: BoundApi,
    /// Name of the object to create or update.
    pub name: String,
    /// The identity under which the fields are claimed.
    pub field_manager: String,
    /// Whether fields that another manager claims are taken over.
    pub force: bool,
    pub object: DynamicObject,
}

pub struct UpsertRequestView {
    pub api: BoundApiView,
    pub name: Seq<char>,
    pub field_manager: Seq<char>,
    pub force: bool,
    pub object: DynamicObjectView,
}

impl View for UpsertRequest {
    type V = UpsertRequestView;

    open spec fn view(&self) -> UpsertRequestView {
        UpsertRequestView {
            api: self.api@,
            name: self.name@,
            field_manager: self.field_manager@,
            force: self.force,
            object: self.object@,
        }
    }
}

/// What becomes of one document of an apply.
#[derive(Clone, Debug, PartialEq, Eq)]
pub enum Routing {
    /// The batch stops here.
    Abort(AbortReason),
    /// The cluster does not serve this kind: note it and go on.
    Skip(GroupVersionKind),
    /// Apply it.
    Upsert(UpsertRequest),
}

pub enum RoutingView {
    Abort(AbortReasonView),
    Skip(GroupVersionKindView),
    Upsert(UpsertRequestView),
}

impl View for Routing {
    type V = RoutingView;

    open spec fn view(&self) -> RoutingView {
        match self {
            Routing::Abort(r) => RoutingView::Abort(r@),
            Routing::Skip(g) => RoutingView::Skip(g@),
            Routing::Upsert(u) => RoutingView::Upsert(u@),
        }
    }
}

/// One step of an apply that goes ahead.
#[derive(Clone, Debug, PartialEq, Eq)]
pub enum ApplyStep {
    Upsert(UpsertRequest),
    Skip(GroupVersionKind),
}

pub enum ApplyStepView {
    Upsert(UpsertRequestView),
    Skip(GroupVersionKindView),
}

impl View for ApplyStep {
    type V = ApplyStepView;

    open spec fn view(&self) -> ApplyStepView {
        match self {
            ApplyStep::Upsert(u) => ApplyStepView::Upsert(u@),
            ApplyStep::Skip(g) => ApplyStepView::Skip(g@),
        }
    }
}

/// The steps of an apply, in document order, and where it stops early.
#[derive(Clone, Debug, PartialEq, Eq)]
pub struct ApplyPlan {
    /// One step for each document before the one that stops the batch, or
    /// for every document where none does.
    pub steps: Vec<ApplyStep>,
    /// The document that stops the batch, to be reported once the steps
    /// before it are done.
    pub abort: Option<ApplyAbort>,
}

pub struct ApplyPlanView {
    pub steps: Seq<ApplyStepView>,
    pub abort: Option<ApplyAbortView>,
}

impl View for ApplyPlan {
    type V = ApplyPlanView;

    open spec fn view(&self) -> ApplyPlanView {
        ApplyPlanView {
            steps: Seq::new(self.steps@.len(), |i: int| self.steps@[i]@),
            abort: match self.abort {
                Some(a) => Some(a@),
                None => None,
            },
        }
    }
}

/// The cluster calls that carry a command out.
#[derive(Clone, Debug, PartialEq, Eq)]
pub enum ClusterRequest {
    /// Fetch the one object of this name.
    Get { api: BoundApi, name: String },
    /// List the objects that match the selector; all objects in scope
    /// without one.
    List { api: BoundApi, selector: Option<String> },
    /// Delete the one object of this name.
    Delete { api: BoundApi, name: String },
    /// Delete the objects that match the selector; all objects in scope
    /// without one.
    DeleteCollection { api: BoundApi, selector: Option<String> },
    /// Make the upserts of the plan, one after the other.
    Apply(ApplyPlan),
}

pub enum ClusterRequestView {
    Get { api: BoundApiView, name: Seq<char> },
    List { api: BoundApiView, selector: Option<Seq<char>> },
    Delete { api: BoundApiView, name: Seq<char> },
    DeleteCollection { api: BoundApiView, selector: Option<Seq<char>> },
    Apply(ApplyPlanView),
}

impl View for ClusterRequest {
    type V = ClusterRequestView;

    open spec fn view(&self) -> ClusterRequestView {
        match self {
            ClusterRequest::Get { api, name } => ClusterRequestView::Get {
                api: api@,
                name: name@,
            },
            ClusterRequest::List { api, selector } => ClusterRequestView::List {
                api: api@,
                selector: opt_text(*selector),
            },
            ClusterRequest::Delete { api, name } => ClusterRequestView::Delete {
                api: api@,
                name: name@,
            },
            ClusterRequest::DeleteCollection { api, selector } => {
                ClusterRequestView::DeleteCollection { api: api@, selector: opt_text(*selector) }
            },
            ClusterRequest::Apply(plan) => ClusterRequestView::Apply(plan@),
        }
    }
}

/// The view of a planning result.
pub open spec fn planning(r: Result<ClusterRequest, EngineError>) -> Result<
    ClusterRequestView,
    EngineErrorView,
> {
    match r {
        Ok(request) => Ok(request@),
        Err(e) => Err(e@),
    }
}

/// How a read or a delete failed at the cluster.
#[derive(Clone, Debug, PartialEq, Eq)]
pub enum ClusterFailure {
    /// The cluster has no such object.
    NotFound,
    /// Anything else: the connection, the credentials, the server.
    Other(String),
}

/// The status with which a cluster answers that it has no such object.
pub const STATUS_NOT_FOUND: u16 = 404;

/// Classifies a failed cluster call by the status the cluster answered
/// with, if it answered at all: status 404 means that the object does not
/// exist, everything else is passed on with its text.
pub fn classify_failure(status: Option<u16>, message: String) -> (failure: ClusterFailure)
    ensures
        failure == if status == Some(STATUS_NOT_FOUND) {
            ClusterFailure::NotFound
        } else {
            ClusterFailure::Other(message)
        },
{
    match status {
        Some(code) => if code == STATUS_NOT_FOUND {
            ClusterFailure::NotFound
        } else {
            ClusterFailure::Other(message)
        },
        None => ClusterFailure::Other(message),
    }
}

/// The field manager under which this engine applies.
pub open spec fn field_manager() -> Seq<char> {
    "kubectl-light"@
}

/// The read that a `get` makes: the named object where the command names
/// one, else the list of what the selector matches.
pub open spec fn get_request(command: CommandView, api: BoundApiView) -> ClusterRequestView {
    match command.name {
        Some(name) => ClusterRequestView::Get { api, name },
        None => ClusterRequestView::List { api, selector: command.selector },
    }
}

/// The delete that a `delete` makes: of the named object where the command
/// names one, else of the collection that the selector matches.
pub open spec fn delete_request(command: CommandView, api: BoundApiView) -> ClusterRequestView {
    match command.name {
        Some(name) => ClusterRequestView::Delete { api, name },
        None => ClusterRequestView::DeleteCollection { api, selector: command.selector },
    }
}

/// The namespace in which a document is applied: its own where it has one,
/// else the namespace of the command.
pub open spec fn target_namespace(object: DynamicObjectView, namespace: Option<Seq<char>>)
    -> Option<Seq<char>> {
    match object.metadata.namespace {
        Some(own) => Some(own),
        None => namespace,
    }
}

/// What becomes of a document, given what it decoded to.
pub open spec fn route(
    decoded: Result<DynamicObjectView, Seq<char>>,
    index: Seq<ApiGroupView>,
    namespace: Option<Seq<char>>,
) -> RoutingView {
    match decoded {
        Err(message) => RoutingView::Abort(AbortReasonView::Undecodable(message)),
        Ok(object) => match object.types {
            None => RoutingView::Abort(AbortReasonView::MissingTypeMeta),
            Some(types) => match resolve_exact(index, group_version_kind(types)) {
                None => RoutingView::Skip(group_version_kind(types)),
                Some(resource) => RoutingView::Upsert(
                    UpsertRequestView {
                        api: bound_api(resource, target_namespace(object, namespace), false),
                        name: object.metadata.name_any(),
                        field_manager: field_manager(),
                        force: true,
                        object,
                    },
                ),
            },
        },
    }
}

/// The plan for the first `upto` documents: their routings in order, up to
/// the first that stops the batch.
pub open spec fn apply_plan(
    decoded: Seq<Result<DynamicObjectView, Seq<char>>>,
    index: Seq<ApiGroupView>,
    namespace: Option<Seq<char>>,
    upto: int,
) -> ApplyPlanView
    decreases upto,
{
    if upto <= 0 || upto > decoded.len() {
        ApplyPlanView { steps: Seq::empty(), abort: None }
    } else {
        let before = apply_plan(decoded, index, namespace, upto - 1);
        if before.abort is Some {
            before
        } else {
            match route(decoded[upto - 1], index, namespace) {
                RoutingView::Abort(reason) => ApplyPlanView {
                    steps: before.steps,
                    abort: Some(ApplyAbortView { index: (upto - 1) as nat, reason }),
                },
                RoutingView::Skip(gvk) => ApplyPlanView {
                    steps: before.steps.push(ApplyStepView::Skip(gvk)),
                    abort: None,
                },
                RoutingView::Upsert(request) => ApplyPlanView {
                    steps: before.steps.push(ApplyStepView::Upsert(request)),
                    abort: None,
                },
            }
        }
    }
}

/// What each of the values decodes to as an object.
pub open spec fn decoded_objects(values: Seq<serde_yaml::Value>) -> Seq<
    Result<DynamicObjectView, Seq<char>>,
> {
    Seq::new(values.len(), |i: int| decoded_object(values[i]))
}

/// The plan for a whole manifest.
pub open spec fn manifest_plan(
    values: Seq<serde_yaml::Value>,
    index: Seq<ApiGroupView>,
    namespace: Option<Seq<char>>,
) -> ApplyPlanView {
    apply_plan(decoded_objects(values), index, namespace, values.len() as int)
}

/// The cluster calls of an apply of the manifest `body`: none at all where
/// the manifest does not decode.
pub open spec fn apply_request(
    body: Seq<char>,
    index: Seq<ApiGroupView>,
    namespace: Option<Seq<char>>,
) -> Result<ClusterRequestView, EngineErrorView> {
    match decoded_manifest(body) {
        Err(e) => Err(EngineErrorView::ManifestDecode(e)),
        Ok(values) => Ok(ClusterRequestView::Apply(manifest_plan(values, index, namespace))),
    }
}

/// The cluster calls that carry out `command`, or the reason why there are
/// none.
pub open spec fn planned(command: CommandView, index: Seq<ApiGroupView>, body: Seq<char>)
    -> Result<ClusterRequestView, EngineErrorView> {
    match command.resource {
        Some(name) => match resolve_name(index, name) {
            None => Err(EngineErrorView::ResourceNotFound(name)),
            Some(resource) => {
                let api = bound_api(resource, command.namespace, command.all_namespaces);
                match command.verb {
                    Verb::Get => Ok(get_request(command, api)),
                    Verb::Delete => Ok(delete_request(command, api)),
                    Verb::Apply => Err(EngineErrorView::Parse(ParseErrorView::InvalidArguments)),
                }
            },
        },
        None => if command.verb == Verb::Apply {
            apply_request(body, index, command.namespace)
        } else {
            Err(EngineErrorView::InvalidCommand)
        },
    }
}

/// The log line of one applied document: its kind and its name.
pub open spec fn applied_line(request: UpsertRequestView) -> Seq<char> {
    "applied "@ + request.api.resource.kind + " "@ + request.name
}

/// The log lines of the first `upto` steps: one for each upsert.
pub open spec fn applied_lines(steps: Seq<ApplyStepView>, upto: int) -> Seq<Seq<char>>
    decreases upto,
{
    if upto <= 0 || upto > steps.len() {
        Seq::empty()
    } else {
        match steps[upto - 1] {
            ApplyStepView::Upsert(request) => applied_lines(steps, upto - 1).push(
                applied_line(request),
            ),
            ApplyStepView::Skip(_) => applied_lines(steps, upto - 1),
        }
    }
}

/// How an apply ends: with the failure of a cluster call where one failed;
/// else with the document that stopped the batch where one did; else with
/// the log of what was applied, one line for each document.
pub open spec fn apply_outcome(plan: ApplyPlanView, failure: Option<Seq<char>>) -> Result<
    Seq<char>,
    EngineErrorView,
> {
    match failure {
        Some(message) => Err(EngineErrorView::Transport(message)),
        None => match plan.abort {
            Some(abort) => Err(EngineErrorView::AbortApply(abort)),
            None => Ok(joined(applied_lines(plan.steps, plan.steps.len() as int))),
        },
    }
}

/// The name of the object that a request names, if it names one.
pub open spec fn named_object(request: ClusterRequestView) -> Option<Seq<char>> {
    match request {
        ClusterRequestView::Get { api, name } => Some(name),
        ClusterRequestView::Delete { api, name } => Some(name),
        _ => None,
    }
}

/// How a failure at the cluster is reported: a missing object by its
/// name where the request names one, anything else as it came.
pub open spec fn failure_report(request: ClusterRequestView, failure: ClusterFailure)
    -> EngineErrorView {
    match failure {
        ClusterFailure::NotFound => match named_object(request) {
            Some(name) => EngineErrorView::NotFound(name),
            None => EngineErrorView::Transport("not found"@),
        },
        ClusterFailure::Other(message) => EngineErrorView::Transport(message@),
    }
}

/// How a read ends: with every object found, its managed fields hidden.
pub open spec fn get_outcome(
    request: ClusterRequestView,
    found: Result<Seq<DynamicObjectView>, ClusterFailure>,
) -> Result<Seq<DynamicObjectView>, EngineErrorView> {
    match found {
        Ok(all) => Ok(Seq::new(all.len(), |i: int| all[i].without_managed_fields())),
        Err(failure) => Err(failure_report(request, failure)),
    }
}

/// How a delete ends: with a fixed acknowledgement.
pub open spec fn delete_outcome(request: ClusterRequestView, done: Result<(), ClusterFailure>)
    -> Result<Seq<char>, EngineErrorView> {
    match done {
        Ok(_) => Ok("deleted"@),
        Err(failure) => Err(failure_report(request, failure)),
    }
}

impl Command {
    /// The read that this command makes through `api`.
    pub fn get(&self, api: BoundApi) -> (request: ClusterRequest)
        ensures
            request@ == get_request(self@, api@),
    {
        match &self.name {
            Some(name) => ClusterRequest::Get { api, name: name.clone() },
            None => ClusterRequest::List { api, selector: clone_opt(&self.selector) },
        }
    }

    /// The delete that this command makes through `api`.
    pub fn delete(&self, api: BoundApi) -> (request: ClusterRequest)
        ensures
            request@ == delete_request(self@, api@),
    {
        match &self.name {
            Some(name) => ClusterRequest::Delete { api, name: name.clone() },
            None => ClusterRequest::DeleteCollection { api, selector: clone_opt(&self.selector) },
        }
    }

    /// The upserts that this command makes for the manifest `body`.
    ///
    /// A malformed manifest fails here, before any cluster call.
    pub fn apply(&self, index: &DiscoveryIndex, body: &str) -> (r: Result<
        ClusterRequest,
        EngineError,
    >)
        ensures
            planning(r) == apply_request(body@, index@, self@.namespace),
    {
        let docs = match multidoc_deserialize(body) {
            Err(e) => { return Err(EngineError::ManifestDecode(e)); },
            Ok(docs) => docs,
        };
        let namespace: Option<&str> = match &self.namespace {
            Some(ns) => Some(ns.as_str()),
            None => None,
        };
        Ok(ClusterRequest::Apply(plan_apply(&docs, index, namespace)))
    }
}

/// Decides what becomes of a document, given what it decoded to.
pub fn route_object(
    decoded: Result<DynamicObject, String>,
    index: &DiscoveryIndex,
    namespace: Option<&str>,
) -> (routing: Routing)
    ensures
        routing@ == route(object_decoding(decoded), index@, opt_str(namespace)),
{
    let object = match decoded {
        Err(message) => { return Routing::Abort(AbortReason::Undecodable(message)); },
        Ok(object) => object,
    };
    let gvk = match &object.types {
        None => { return Routing::Abort(AbortReason::MissingTypeMeta); },
        Some(types) => match type_gvk(types) {
            Ok(gvk) => gvk,
            Err(message) => { return Routing::Abort(AbortReason::Undecodable(message)); },
        },
    };
    match resolve_gvk(index, &gvk) {
        None => Routing::Skip(gvk),
        Some(resource) => {
            let api = match &object.metadata.namespace {
                Some(own) => dynamic_api(resource, Some(own.as_str()), false),
                None => dynamic_api(resource, namespace, false),
            };
            let name = object.name_any();
            Routing::Upsert(
                UpsertRequest {
                    api,
                    name,
                    field_manager: String::from_str("kubectl-light"),
                    force: true,
                    object,
                },
            )
        },
    }
}

/// Plans the apply of the documents of a manifest, in their order.
pub fn plan_apply(docs: &Vec<ManifestDocument>, index: &DiscoveryIndex, namespace: Option<&str>)
    -> (plan: ApplyPlan)
    ensures
        plan@ == manifest_plan(document_values(docs@), index@, opt_str(namespace)),
{
    let ghost decoded = decoded_objects(document_values(docs@));
    let mut steps: Vec<ApplyStep> = Vec::new();
    let n: usize = docs.len();
    let mut i: usize = 0;
    assert(Seq::new(steps@.len(), |k: int| steps@[k]@) =~= Seq::<ApplyStepView>::empty());
    while i < n
        invariant
            i <= n,
            n == docs@.len(),
            decoded == decoded_objects(document_values(docs@)),
            apply_plan(decoded, index@, opt_str(namespace), i as int) == (ApplyPlanView {
                steps: Seq::new(steps@.len(), |k: int| steps@[k]@),
                abort: None,
            }),
        decreases n - i,
    {
        let ghost before = Seq::new(steps@.len(), |k: int| steps@[k]@);
        let routing = route_object(decode_object(&docs[i]), index, namespace);
        assert(routing@ == route(decoded[i as int], index@, opt_str(namespace)));
        match routing {
            Routing::Abort(reason) => {
                let plan = ApplyPlan { steps, abort: Some(ApplyAbort { index: i, reason }) };
                proof {
                    lemma_plan_stops(decoded, index@, opt_str(namespace), i + 1, n as int);
                }
                return plan;
            },
            Routing::Skip(gvk) => {
                steps.push(ApplyStep::Skip(gvk));
                assert(Seq::new(steps@.len(), |k: int| steps@[k]@) =~= before.push(
                    ApplyStepView::Skip(gvk@),
                ));
            },
            Routing::Upsert(request) => {
                let ghost view = request@;
                steps.push(ApplyStep::Upsert(request));
                assert(Seq::new(steps@.len(), |k: int| steps@[k]@) =~= before.push(
                    ApplyStepView::Upsert(view),
                ));
            },
        }
        i += 1;
    }
    ApplyPlan { steps, abort: None }
}

/// Once a plan has stopped, further documents change nothing.
pub proof fn lemma_plan_stops(
    decoded: Seq<Result<DynamicObjectView, Seq<char>>>,
    index: Seq<ApiGroupView>,
    namespace: Option<Seq<char>>,
    at: int,
    upto: int,
)
    requires
        0 <= at <= upto <= decoded.len(),
        apply_plan(decoded, index, namespace, at).abort is Some,
    ensures
        apply_plan(decoded, index, namespace, upto) == apply_plan(decoded, index, namespace, at),
    decreases upto - at,
{
    if at < upto {
        lemma_plan_stops(decoded, index, namespace, at, upto - 1);
    }
}

/// Plans the cluster calls that carry a command out.
///
/// A resource name that no served resource goes by ends the command with
/// `ResourceNotFound` and that name, whatever the verb; no call is then
/// planned, so nothing in the cluster changes.
pub fn kubectl(command: &Command, index: &DiscoveryIndex, body: &str) -> (r: Result<
    ClusterRequest,
    EngineError,
>)
    ensures
        planning(r) == planned(command@, index@, body@),
{
    match &command.resource {
        Some(name) => {
            let resource = match resolve_api_resource(index, name.as_str()) {
                None => { return Err(EngineError::ResourceNotFound(name.clone())); },
                Some(resource) => resource,
            };
            let namespace: Option<&str> = match &command.namespace {
                Some(ns) => Some(ns.as_str()),
                None => None,
            };
            let api = dynamic_api(resource, namespace, command.all_namespaces);
            match command.verb {
                Verb::Get => Ok(command.get(api)),
                Verb::Delete => Ok(command.delete(api)),
                Verb::Apply => Err(EngineError::Parse(ParseError::InvalidArguments)),
            }
        },
        None => {
            if matches!(command.verb, Verb::Apply) {
                command.apply(index, body)
            } else {
                Err(EngineError::InvalidCommand)
            }
        },
    }
}

/// The error that reports `failure` of `request`.
fn report_failure(request: &ClusterRequest, failure: ClusterFailure) -> (e: EngineError)
    ensures
        e@ == failure_report(request@, failure),
{
    match failure {
        ClusterFailure::NotFound => match request {
            ClusterRequest::Get { api, name } => EngineError::NotFound(name.clone()),
            ClusterRequest::Delete { api, name } => EngineError::NotFound(name.clone()),
            _ => EngineError::Transport(String::from_str("not found")),
        },
        ClusterFailure::Other(message) => EngineError::Transport(message),
    }
}

/// The view of what a read found.
pub open spec fn finding(found: Result<Vec<DynamicObject>, ClusterFailure>) -> Result<
    Seq<DynamicObjectView>,
    ClusterFailure,
> {
    match found {
        Ok(all) => Ok(objects(all@)),
        Err(failure) => Err(failure),
    }
}

/// The view of how a read ends.
pub open spec fn shown(r: Result<Vec<DynamicObject>, EngineError>) -> Result<
    Seq<DynamicObjectView>,
    EngineErrorView,
> {
    match r {
        Ok(all) => Ok(objects(all@)),
        Err(e) => Err(e@),
    }
}

/// The view of how a command that ends in a text ends.
pub open spec fn told(r: Result<String, EngineError>) -> Result<Seq<char>, EngineErrorView> {
    match r {
        Ok(text) => Ok(text@),
        Err(e) => Err(e@),
    }
}

/// Ends a `get`, given what the cluster returned for `request`.
///
/// Every object found is shown with its managed fields hidden. A list that
/// found nothing is a success with no objects; a named object that does
/// not exist is `NotFound`.
pub fn finish_get(request: &ClusterRequest, found: Result<Vec<DynamicObject>, ClusterFailure>)
    -> (r: Result<Vec<DynamicObject>, EngineError>)
    ensures
        shown(r) == get_outcome(request@, finding(found)),
{
    match found {
        Ok(all) => {
            let hidden = hide_all_managed_fields(all);
            assert(objects(hidden@) =~= Seq::new(
                all@.len(),
                |i: int| objects(all@)[i].without_managed_fields(),
            ));
            Ok(hidden)
        },
        Err(failure) => Err(report_failure(request, failure)),
    }
}

/// Ends a `delete`, given how the cluster call for `request` went.
pub fn finish_delete(request: &ClusterRequest, done: Result<(), ClusterFailure>) -> (r: Result<
    String,
    EngineError,
>)
    ensures
        told(r) == delete_outcome(request@, done),
{
    match done {
        Ok(_) => Ok(String::from_str("deleted")),
        Err(failure) => Err(report_failure(request, failure)),
    }
}

/// The log line of one applied document.
fn line_of(request: &UpsertRequest) -> (line: String)
    ensures
        line@ == applied_line(request@),
{
    let mut line = enclose("applied ", request.api.resource.kind.as_str(), " ");
    line.append(request.name.as_str());
    line
}

/// Ends an apply, given the failure of the cluster call that failed, if one
/// did.
///
/// A failed call wins over everything. Without one, the document that
/// stopped the batch is reported; without that, the result is the log of what
/// was applied, one line `applied <kind> <name>` for each upsert.
pub fn finish_apply(plan: &ApplyPlan, failure: Option<String>) -> (r: Result<String, EngineError>)
    ensures
        told(r) == apply_outcome(plan@, opt_text(failure)),
{
    if let Some(message) = failure {
        return Err(EngineError::Transport(message));
    }
    if let Some(abort) = &plan.abort {
        return Err(
            EngineError::AbortApply(
                ApplyAbort {
                    index: abort.index,
                    reason: match &abort.reason {
                        AbortReason::MissingTypeMeta => AbortReason::MissingTypeMeta,
                        AbortReason::Undecodable(m) => AbortReason::Undecodable(m.clone()),
                    },
                },
            ),
        );
    }
    let mut lines: Vec<String> = Vec::new();
    let n: usize = plan.steps.len();
    let mut i: usize = 0;
    assert(texts(lines@) =~= Seq::<Seq<char>>::empty());
    while i < n
        invariant
            i <= n,
            n == plan.steps@.len(),
            n == plan@.steps.len(),
            texts(lines@) == applied_lines(plan@.steps, i as int),
        decreases n - i,
    {
        let ghost before = texts(lines@);
        assert(plan@.steps[i as int] == plan.steps@[i as int]@);
        match &plan.steps[i] {
            ApplyStep::Upsert(request) => {
                lines.push(line_of(request));
                assert(texts(lines@) =~= before.push(applied_line(request@)));
            },
            ApplyStep::Skip(_) => {},
        }
        i += 1;
    }
    Ok(join_lines(&lines))
}

/// An unknown resource name ends the command with `ResourceNotFound`,
/// whatever the verb and whatever else the command says. The result holds no
/// request, so no cluster call is made for it.
pub proof fn lemma_unknown_resource_is_refused(
    command: CommandView,
    index: Seq<ApiGroupView>,
    body: Seq<char>,
)
    requires
        command.resource is Some,
        resolve_name(index, command.resource->0) is None,
    ensures
        planned(command, index, body) == Err::<ClusterRequestView, EngineErrorView>(
            EngineErrorView::ResourceNotFound(command.resource->0),
        ),
{
}

/// A delete that names an object deletes that one object; a delete that
/// names none deletes the collection that its selector matches, and the whole
/// collection in scope where it has no selector.
pub proof fn lemma_delete_targets(command: CommandView, api: BoundApiView)
    ensures
        command.name is Some ==> delete_request(command, api) == (ClusterRequestView::Delete {
            api,
            name: command.name->0,
        }),
        command.name is None ==> delete_request(command, api)
            == (ClusterRequestView::DeleteCollection { api, selector: command.selector }),
        command.name is None && command.selector is None ==> delete_request(command, api)
            == (ClusterRequestView::DeleteCollection { api, selector: None }),
{
}

/// A list that finds nothing ends in success with an empty collection,
/// for every request.
pub proof fn lemma_empty_list_is_success(request: ClusterRequestView)
    ensures
        get_outcome(request, Ok(Seq::empty())) == Ok::<Seq<DynamicObjectView>, EngineErrorView>(
            Seq::empty(),
        ),
{
    assert(Seq::new(0, |i: int| Seq::<DynamicObjectView>::empty()[i].without_managed_fields())
        =~= Seq::<DynamicObjectView>::empty());
}

/// A manifest with a malformed document yields no request at all: the
/// apply fails with the position of that document before any cluster call.
pub proof fn lemma_malformed_manifest_plans_nothing(
    body: Seq<char>,
    index: Seq<ApiGroupView>,
    namespace: Option<Seq<char>>,
)
    requires
        decoded_manifest(body) is Err,
    ensures
        apply_request(body, index, namespace) == Err::<ClusterRequestView, EngineErrorView>(
            EngineErrorView::ManifestDecode(decoded_manifest(body)->Err_0),
        ),
{
}

/// While no document stops the batch, the plan has one step for each
/// document, an upsert exactly where the document routes to one.
pub proof fn lemma_plan_without_abort(
    decoded: Seq<Result<DynamicObjectView, Seq<char>>>,
    index: Seq<ApiGroupView>,
    namespace: Option<Seq<char>>,
    upto: int,
)
    requires
        0 <= upto <= decoded.len(),
        forall|i: int| 0 <= i < upto ==> !(route(#[trigger] decoded[i], index, namespace) is Abort),
    ensures
        apply_plan(decoded, index, namespace, upto).abort is None,
        apply_plan(decoded, index, namespace, upto).steps.len() == upto,
        forall|i: int|
            0 <= i < upto ==> (#[trigger] apply_plan(decoded, index, namespace, upto).steps[i]
                is Upsert <==> route(decoded[i], index, namespace) is Upsert),
    decreases upto,
{
    if upto > 0 {
        lemma_plan_without_abort(decoded, index, namespace, upto - 1);
        let before = apply_plan(decoded, index, namespace, upto - 1);
        let plan = apply_plan(decoded, index, namespace, upto);
        assert forall|i: int| 0 <= i < upto implies (#[trigger] plan.steps[i] is Upsert <==> route(
            decoded[i],
            index,
            namespace,
        ) is Upsert) by {
            if i < upto - 1 {
                assert(plan.steps[i] == before.steps[i]);
            }
        }
    }
}

/// The log has one line for each upsert: with a single skip among the
/// first `upto` steps, at `skipped`, that is one line fewer than steps.
pub proof fn lemma_lines_with_one_skip(steps: Seq<ApplyStepView>, skipped: int, upto: int)
    requires
        0 <= upto <= steps.len(),
        0 <= skipped < steps.len(),
        forall|i: int| 0 <= i < steps.len() ==> (#[trigger] steps[i] is Upsert <==> i != skipped),
    ensures
        applied_lines(steps, upto).len() == if upto > skipped {
            upto - 1
        } else {
            upto
        },
    decreases upto,
{
    if upto > 0 {
        lemma_lines_with_one_skip(steps, skipped, upto - 1);
        assert(steps[upto - 1] is Upsert <==> upto - 1 != skipped);
    }
}

/// An apply of N documents of which one is of a kind that the cluster does
/// not serve, and all others can be applied, completes: where no cluster call
/// fails it ends in success, with a log of N - 1 lines.
pub proof fn lemma_unknown_kind_is_skipped(
    decoded: Seq<Result<DynamicObjectView, Seq<char>>>,
    index: Seq<ApiGroupView>,
    namespace: Option<Seq<char>>,
    unknown: int,
)
    requires
        0 <= unknown < decoded.len(),
        route(decoded[unknown], index, namespace) is Skip,
        forall|i: int|
            0 <= i < decoded.len() && i != unknown ==> route(
                #[trigger] decoded[i],
                index,
                namespace,
            ) is Upsert,
    ensures
        ({
            let plan = apply_plan(decoded, index, namespace, decoded.len() as int);
            let lines = applied_lines(plan.steps, plan.steps.len() as int);
            &&& plan.abort is None
            &&& plan.steps.len() == decoded.len()
            &&& lines.len() == decoded.len() - 1
            &&& apply_outcome(plan, None) == Ok::<Seq<char>, EngineErrorView>(joined(lines))
        }),
{
    let n = decoded.len() as int;
    lemma_plan_without_abort(decoded, index, namespace, n);
    let plan = apply_plan(decoded, index, namespace, n);
    lemma_lines_with_one_skip(plan.steps, unknown, n);
}

/// Every upsert of a plan is made under the same field manager and takes
/// over conflicting fields, is named as its document is named, addresses the
/// kind that its document declares, and carries the document it was planned
/// for: two plans of the same manifest against the same index ask the cluster
/// for the same thing.
pub proof fn lemma_upserts_are_uniform(
    decoded: Seq<Result<DynamicObjectView, Seq<char>>>,
    index: Seq<ApiGroupView>,
    namespace: Option<Seq<char>>,
    upto: int,
    i: int,
)
    requires
        0 <= upto <= decoded.len(),
        0 <= i < apply_plan(decoded, index, namespace, upto).steps.len(),
        apply_plan(decoded, index, namespace, upto).steps[i] is Upsert,
    ensures
        ({
            let request = apply_plan(decoded, index, namespace, upto).steps[i]->Upsert_0;
            &&& request.field_manager == field_manager()
            &&& request.force
            &&& request.name == request.object.metadata.name_any()
            &&& request.object.types is Some
            &&& request.api.resource.kind == request.object.types->0.kind
            &&& exists|k: int|
                0 <= k < upto && decoded[k] == Ok::<DynamicObjectView, Seq<char>>(request.object)
        }),
    decreases upto,
{
    if upto > 0 {
        let before = apply_plan(decoded, index, namespace, upto - 1);
        let plan = apply_plan(decoded, index, namespace, upto);
        if i < before.steps.len() {
            assert(plan.steps[i] == before.steps[i]);
            lemma_upserts_are_uniform(decoded, index, namespace, upto - 1, i);
        } else {
            let object = (plan.steps[i]->Upsert_0).object;
            assert(decoded[upto - 1] == Ok::<DynamicObjectView, Seq<char>>(object));
            lemma_resolve_exact(index, group_version_kind(object.types->0));
        }
    }
}

} // verus!
