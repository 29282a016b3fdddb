//! What a patch does to the pod it was made for, and that a pod so patched
//! is left alone by a second pass.

use crate::patch::{
    appends, container_operations, containers_operations, credential_vars, env_append_path,
    env_path, has_credential_var, has_region_var, lemma_patch_idempotent, patched_env,
    patched_pod, pod_operations, region_vars, AddOperationView, ContainerView, EnvVarView,
    PatchValueView, PodSpecView, PodView,
};
use crate::text::{decimal, lemma_decimal_injective};
use vstd::prelude::*;

verus! {

/// Whether `path` is the pointer of the `env` member of one of the first
/// `count` containers.
pub open spec fn addresses_env(path: Seq<char>, count: nat) -> bool {
    exists|i: nat| i < count && #[trigger] env_path(i) == path
}

/// Whether `path` is the pointer of the end of the `env` array of one of the
/// first `count` containers.
pub open spec fn addresses_env_end(path: Seq<char>, count: nat) -> bool {
    exists|i: nat| i < count && #[trigger] env_append_path(i) == path
}

/// The container whose `env` member `path` points at.
pub open spec fn env_index(path: Seq<char>, count: nat) -> nat {
    choose|i: nat| i < count && #[trigger] env_path(i) == path
}

/// The container at the end of whose `env` array `path` points.
pub open spec fn env_end_index(path: Seq<char>, count: nat) -> nat {
    choose|i: nat| i < count && #[trigger] env_append_path(i) == path
}

/// `pod` with `env` as the `env` array of the container at `index`.
pub open spec fn with_env(pod: PodView, index: int, env: Seq<EnvVarView>) -> PodView {
    match pod.spec {
        None => pod,
        Some(spec) => PodView {
            namespace: pod.namespace,
            spec: Some(
                PodSpecView {
                    service_account_name: spec.service_account_name,
                    service_account: spec.service_account,
                    containers: spec.containers.update(
                        index,
                        ContainerView { name: spec.containers[index].name, env: Some(env) },
                    ),
                },
            ),
        },
    }
}

/// The pod after one "add" operation. An array added at the `env` member of
/// a container becomes its `env` array. A variable added at the end of the
/// `env` array of a container is appended to it. An operation of any other
/// kind is not one that this mutator makes, and leaves the pod as it is.
pub open spec fn applied(pod: PodView, op: AddOperationView) -> PodView {
    match pod.spec {
        None => pod,
        Some(spec) => {
            let count = spec.containers.len();
            match op.value {
                PatchValueView::Variables(vars) => if addresses_env(op.path, count) {
                    with_env(pod, env_index(op.path, count) as int, vars)
                } else {
                    pod
                },
                PatchValueView::Variable(var) => if addresses_env_end(op.path, count) {
                    let index = env_end_index(op.path, count) as int;
                    match spec.containers[index].env {
                        Some(env) => with_env(pod, index, env.push(var)),
                        None => pod,
                    }
                } else {
                    pod
                },
            }
        },
    }
}

/// The pod after a list of operations, applied in order.
pub open spec fn applied_all(pod: PodView, ops: Seq<AddOperationView>) -> PodView
    decreases ops.len(),
{
    if ops.len() == 0 {
        pod
    } else {
        applied(applied_all(pod, ops.drop_last()), ops.last())
    }
}

/// Different containers have different pointers.
pub proof fn lemma_env_path_injective(i: nat, j: nat)
    ensures
        env_path(i) == env_path(j) ==> i == j,
        env_append_path(i) == env_append_path(j) ==> i == j,
        env_path(i) != env_append_path(j),
{
    reveal_strlit("/spec/containers/");
    reveal_strlit("/env");
    reveal_strlit("/-");
    let head = "/spec/containers/"@.len() as int;
    let tail = "/env"@.len() as int;
    if env_append_path(i) == env_append_path(j) {
        assert(env_path(i) =~= env_append_path(i).take(env_path(i).len() as int));
        assert(env_path(j) =~= env_append_path(j).take(env_path(j).len() as int));
    }
    if env_path(i) == env_path(j) {
        assert(decimal(i) =~= env_path(i).subrange(head, env_path(i).len() - tail));
        assert(decimal(j) =~= env_path(j).subrange(head, env_path(j).len() - tail));
        lemma_decimal_injective(i, j);
    }
    assert(env_path(i).last() == 'v');
    assert(env_append_path(j).last() == '-');
}

proof fn lemma_env_index(index: nat, count: nat)
    requires
        index < count,
    ensures
        addresses_env(env_path(index), count),
        env_index(env_path(index), count) == index,
        addresses_env_end(env_append_path(index), count),
        env_end_index(env_append_path(index), count) == index,
{
    lemma_env_path_injective(index, env_index(env_path(index), count));
    lemma_env_path_injective(index, env_end_index(env_append_path(index), count));
}

/// Operations applied one list after another are applied as one list.
pub proof fn lemma_applied_all_append(
    pod: PodView,
    first: Seq<AddOperationView>,
    second: Seq<AddOperationView>,
)
    ensures
        applied_all(pod, first + second) == applied_all(applied_all(pod, first), second),
    decreases second.len(),
{
    if second.len() == 0 {
        assert(first + second =~= first);
    } else {
        lemma_applied_all_append(pod, first, second.drop_last());
        assert((first + second).drop_last() =~= first + second.drop_last());
    }
}

proof fn lemma_applied_appends(pod: PodView, index: nat, env: Seq<EnvVarView>, vars: Seq<EnvVarView>)
    requires
        pod.spec is Some,
        index < pod.spec->0.containers.len(),
        pod.spec->0.containers[index as int].env == Some(env),
    ensures
        applied_all(pod, appends(index, vars)) == with_env(pod, index as int, env + vars),
    decreases vars.len(),
{
    let containers = pod.spec->0.containers;
    let name = containers[index as int].name;
    if vars.len() == 0 {
        assert(env + vars =~= env);
        assert(containers.update(index as int, ContainerView { name, env: Some(env) })
            =~= containers);
    } else {
        let front = vars.drop_last();
        lemma_applied_appends(pod, index, env, front);
        lemma_env_index(index, containers.len());
        assert(appends(index, vars).drop_last() =~= appends(index, front));
        assert((env + front).push(vars.last()) =~= env + vars);
        let before = with_env(pod, index as int, env + front);
        assert(before.spec->0.containers.update(
            index as int,
            ContainerView { name, env: Some(env + vars) },
        ) =~= containers.update(index as int, ContainerView { name, env: Some(env + vars) }));
    }
}

/// The pod with its first `count` containers patched and the rest as they were.
pub open spec fn patched_upto(
    pod: PodView,
    count: nat,
    agent_address: Seq<char>,
    region: Seq<char>,
) -> PodView {
    match pod.spec {
        None => pod,
        Some(spec) => PodView {
            namespace: pod.namespace,
            spec: Some(
                PodSpecView {
                    service_account_name: spec.service_account_name,
                    service_account: spec.service_account,
                    containers: Seq::new(
                        spec.containers.len(),
                        |i: int|
                            if i < count {
                                ContainerView {
                                    name: spec.containers[i].name,
                                    env: Some(
                                        patched_env(spec.containers[i].env, agent_address, region),
                                    ),
                                }
                            } else {
                                spec.containers[i]
                            },
                    ),
                },
            ),
        },
    }
}

proof fn lemma_applied_container(
    pod: PodView,
    index: nat,
    agent_address: Seq<char>,
    region: Seq<char>,
)
    requires
        pod.spec is Some,
        index < pod.spec->0.containers.len(),
    ensures
        applied_all(
            patched_upto(pod, index, agent_address, region),
            container_operations(
                index,
                pod.spec->0.containers[index as int],
                agent_address,
                region,
            ),
        ) == patched_upto(pod, index + 1, agent_address, region),
{
    let container = pod.spec->0.containers[index as int];
    let before = patched_upto(pod, index, agent_address, region);
    let after = patched_upto(pod, index + 1, agent_address, region);
    let ops = container_operations(index, container, agent_address, region);
    let wanted = patched_env(container.env, agent_address, region);
    // Patching the container at `index` is all that lies between the two.
    assert(with_env(before, index as int, wanted).spec->0.containers =~= after.spec->0.containers);
    lemma_env_index(index, pod.spec->0.containers.len());
    match container.env {
        None => {
            assert(applied_all(before, ops.drop_last()) == before);
        },
        Some(env) => {
            let added = if has_credential_var(env) {
                Seq::<EnvVarView>::empty()
            } else {
                credential_vars(agent_address)
            };
            let more = if has_region_var(env) {
                Seq::<EnvVarView>::empty()
            } else {
                region_vars(region)
            };
            assert(appends(index, Seq::<EnvVarView>::empty()) =~= Seq::<AddOperationView>::empty());
            assert(ops == appends(index, added) + appends(index, more));
            lemma_applied_all_append(before, appends(index, added), appends(index, more));
            lemma_applied_appends(before, index, env, added);
            let middle = with_env(before, index as int, env + added);
            lemma_applied_appends(middle, index, env + added, more);
            assert(with_env(middle, index as int, env + added + more).spec->0.containers
                =~= after.spec->0.containers);
        },
    }
}

proof fn lemma_applied_containers(
    pod: PodView,
    count: nat,
    agent_address: Seq<char>,
    region: Seq<char>,
)
    requires
        pod.spec is Some,
        count <= pod.spec->0.containers.len(),
    ensures
        applied_all(
            pod,
            containers_operations(pod.spec->0.containers, count, agent_address, region),
        ) == patched_upto(pod, count, agent_address, region),
    decreases count,
{
    let spec = pod.spec->0;
    if count == 0 {
        assert(patched_upto(pod, 0, agent_address, region).spec->0.containers =~= spec.containers);
    } else {
        let k = (count - 1) as nat;
        lemma_applied_containers(pod, k, agent_address, region);
        lemma_applied_all_append(
            pod,
            containers_operations(spec.containers, k, agent_address, region),
            container_operations(k, spec.containers[k as int], agent_address, region),
        );
        lemma_applied_container(pod, k, agent_address, region);
    }
}

/// Applying to a pod the patch that was made for it gives the patched pod:
/// every container has the `env` array that its operations say.
pub proof fn lemma_patch_applies(pod: PodView, agent_address: Seq<char>, region: Seq<char>)
    ensures
        applied_all(pod, pod_operations(pod, agent_address, region)) == patched_pod(
            pod,
            agent_address,
            region,
        ),
{
    if pod.spec is Some {
        let spec = pod.spec->0;
        lemma_applied_containers(pod, spec.containers.len(), agent_address, region);
        assert(patched_upto(pod, spec.containers.len(), agent_address, region).spec->0.containers
            =~= patched_pod(pod, agent_address, region).spec->0.containers);
    }
}

/// Mutating is idempotent. Once the patch of a pod is applied to it, the
/// patch of the result is empty: a second pass adds no credential variable
/// and no region variable, whatever address and region it is run with.
pub proof fn lemma_mutation_idempotent(
    pod: PodView,
    agent_address: Seq<char>,
    region: Seq<char>,
    next_address: Seq<char>,
    next_region: Seq<char>,
)
    ensures
        pod_operations(
            applied_all(pod, pod_operations(pod, agent_address, region)),
            next_address,
            next_region,
        ) == Seq::<AddOperationView>::empty(),
{
    lemma_patch_applies(pod, agent_address, region);
    lemma_patch_idempotent(pod, agent_address, region, next_address, next_region);
}

} // verus!
