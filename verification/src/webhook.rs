//! The admission mutator: whether a pod is mutated, and what is answered to
//! the cluster. A pod is never denied.

use crate::apply::applied_all;
use crate::mappings::{role_of, Mappings, ServiceRoleMappingView};
use crate::patch::{create_pod_patch, pod_operations, AddOperationView, Patch, Pod, PodView};
use std::sync::Arc;
use vstd::prelude::*;

verus! {

/// What the mutator works with: the table in force, the address under which
/// pods reach the agent, and the region they are to use.
#[derive(Clone, Debug)]
pub struct WebhookState {
    role_mappings: Arc<Mappings>,
    agent_address: String,
    aws_region: String,
}

pub struct WebhookStateView {
    pub role_mappings: Seq<ServiceRoleMappingView>,
    pub agent_address: Seq<char>,
    pub aws_region: Seq<char>,
}

impl View for WebhookState {
    type V = WebhookStateView;

    closed spec fn view(&self) -> WebhookStateView {
        WebhookStateView {
            role_mappings: (*self.role_mappings)@,
            agent_address: self.agent_address@,
            aws_region: self.aws_region@,
        }
    }
}

/// Whether a pod of this service account and namespace is mutated: both are
/// known and not empty, and the table maps them to a role.
pub open spec fn mutates(
    table: Seq<ServiceRoleMappingView>,
    service_account: Option<Seq<char>>,
    namespace: Option<Seq<char>>,
) -> bool {
    match (service_account, namespace) {
        (Some(sa), Some(ns)) => sa.len() > 0 && ns.len() > 0 && role_of(table, ns, sa).is_some(),
        _ => false,
    }
}

/// The service account of a pod: `spec.serviceAccountName`, or the older
/// `spec.serviceAccount` where the first is absent or empty.
pub open spec fn pod_service_account(pod: PodView) -> Option<Seq<char>> {
    match pod.spec {
        None => None,
        Some(spec) => match spec.service_account_name {
            Some(name) if name.len() > 0 => Some(name),
            _ => spec.service_account,
        },
    }
}

/// An admission review as the mutator reads it.
#[derive(Clone, Debug, PartialEq, Eq)]
pub enum Review {
    /// The review holds no request; the text says why it cannot be read.
    Unreadable(String),
    /// The request of the review, with the pod it is about where it has one.
    Request { object: Option<Pod> },
}

/// What is answered to a review.
#[derive(Clone, Debug, PartialEq, Eq)]
pub enum Mutation {
    /// The review could not be read: the answer marks it invalid.
    Invalid(String),
    /// The request is allowed as it is.
    Unchanged,
    /// The request is allowed, with this patch applied to the pod.
    Patch(Patch),
}

/// The patch for a pod under a state: the pod's operations where it is
/// mutated, nothing where it is not.
pub open spec fn pod_mutation(state: WebhookStateView, pod: PodView) -> Seq<AddOperationView> {
    if mutates(state.role_mappings, pod_service_account(pod), pod.namespace) {
        pod_operations(pod, state.agent_address, state.aws_region)
    } else {
        Seq::<AddOperationView>::empty()
    }
}

fn copy_text(text: &Option<String>) -> (copy: Option<String>)
    ensures
        match (text, copy) {
            (Some(a), Some(b)) => a@ == b@,
            (None, None) => true,
            _ => false,
        },
{
    match text {
        Some(t) => Some(t.clone()),
        None => None,
    }
}

/// The service account that a pod runs as, if it names one.
pub fn service_account_of(pod: &Pod) -> (service_account: Option<String>)
    ensures
        match service_account {
            Some(sa) => pod_service_account(pod@) == Some(sa@),
            None => pod_service_account(pod@).is_none(),
        },
{
    match &pod.spec {
        None => None,
        Some(spec) => {
            match &spec.service_account_name {
                Some(name) => {
                    if name.as_str().unicode_len() > 0 {
                        return Some(name.clone());
                    }
                },
                None => {},
            }
            copy_text(&spec.service_account)
        },
    }
}

impl WebhookState {
    pub fn new(role_mappings: Arc<Mappings>, agent_address: String, aws_region: String) -> (state:
        WebhookState)
        ensures
            state@ == (WebhookStateView {
                role_mappings: (*role_mappings)@,
                agent_address: agent_address@,
                aws_region: aws_region@,
            }),
    {
        WebhookState { role_mappings, agent_address, aws_region }
    }

    /// Whether a pod of this service account and namespace is to be mutated.
    pub fn should_mutate(&self, service_account: Option<String>, namespace: Option<String>) -> (mutate:
        bool)
        ensures
            mutate == mutates(
                self@.role_mappings,
                match service_account {
                    Some(sa) => Some(sa@),
                    None => None,
                },
                match namespace {
                    Some(ns) => Some(ns@),
                    None => None,
                },
            ),
    {
        match (service_account, namespace) {
            (Some(sa), Some(ns)) => {
                if sa.as_str().unicode_len() == 0 || ns.as_str().unicode_len() == 0 {
                    false
                } else {
                    self.role_mappings.get_role(ns.as_str(), sa.as_str()).is_some()
                }
            },
            _ => false,
        }
    }
}

/// Decides the answer to a review. Only a review that cannot be read is
/// marked invalid. A request without a pod is allowed as it is. A request
/// with a pod is allowed with the pod's patch, which is empty for a pod that
/// is not mutated.
pub fn mutate_pod_handler(state: &WebhookState, review: Review) -> (answer: Mutation)
    ensures
        match review {
            Review::Unreadable(reason) => answer matches Mutation::Invalid(why) && why@ == reason@,
            Review::Request { object: None } => answer is Unchanged,
            Review::Request { object: Some(pod) } => answer matches Mutation::Patch(patch)
                && patch@ == pod_mutation(state@, pod@),
        },
{
    match review {
        Review::Unreadable(reason) => Mutation::Invalid(reason),
        Review::Request { object: None } => Mutation::Unchanged,
        Review::Request { object: Some(pod) } => {
            let mut patch = Patch(Vec::new());
            if state.should_mutate(service_account_of(&pod), copy_text(&pod.namespace)) {
                patch = create_pod_patch(
                    &pod,
                    state.agent_address.as_str(),
                    state.aws_region.as_str(),
                );
            }
            Mutation::Patch(patch)
        },
    }
}

/// The response that goes out once the patch was put into it: the patched
/// one, or the one from before where the patch could not be encoded. The
/// request is allowed either way.
pub fn fail_open<R, E>(unpatched: R, patched: Result<R, E>) -> (response: R)
    ensures
        response == match patched {
            Ok(with_patch) => with_patch,
            Err(_) => unpatched,
        },
{
    match patched {
        Ok(with_patch) => with_patch,
        Err(_) => unpatched,
    }
}

/// A pod whose identity has no role is answered with an empty patch, and so
/// is a pod without a namespace or a service account.
pub proof fn lemma_unmapped_pod_unchanged(state: WebhookStateView, pod: PodView)
    requires
        pod.namespace.is_none() || pod_service_account(pod).is_none() || role_of(
            state.role_mappings,
            pod.namespace.unwrap(),
            pod_service_account(pod).unwrap(),
        ).is_none(),
    ensures
        pod_mutation(state, pod) == Seq::<AddOperationView>::empty(),
{
}

/// Mutating is idempotent. After a pass that mutated the pod, or a pass
/// under the same table, the pod with the answer's patch applied is answered
/// with an empty patch: no credential or region variable is added twice.
pub proof fn lemma_mutation_idempotent(first: WebhookStateView, second: WebhookStateView, pod: PodView)
    requires
        mutates(first.role_mappings, pod_service_account(pod), pod.namespace)
            || first.role_mappings == second.role_mappings,
    ensures
        pod_mutation(second, applied_all(pod, pod_mutation(first, pod))) == Seq::<
            AddOperationView,
        >::empty(),
{
    if mutates(first.role_mappings, pod_service_account(pod), pod.namespace) {
        crate::apply::lemma_patch_applies(pod, first.agent_address, first.aws_region);
        crate::apply::lemma_mutation_idempotent(
            pod,
            first.agent_address,
            first.aws_region,
            second.agent_address,
            second.aws_region,
        );
    }
}

} // verus!
