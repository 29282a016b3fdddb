//! The pod as the admission mutator reads it, and the JSON patch that points
//! each of its containers at the credential endpoint.

use crate::text::{decimal, decimal_string, joined, lemma_decimal_digits, str_eq};
use vstd::prelude::*;

verus! {

/// One environment variable of a container: the name and the literal value,
/// if it has one.
#[derive(Clone, Debug, PartialEq, Eq)]
pub struct EnvVar {
    pub name: String,
    pub value: Option<String>,
}

pub struct EnvVarView {
    pub name: Seq<char>,
    pub value: Option<Seq<char>>,
}

impl View for EnvVar {
    type V = EnvVarView;

    open spec fn view(&self) -> EnvVarView {
        EnvVarView {
            name: self.name@,
            value: match self.value {
                Some(v) => Some(v@),
                None => None,
            },
        }
    }
}

impl DeepView for EnvVar {
    type V = EnvVarView;

    open spec fn deep_view(&self) -> EnvVarView {
        self@
    }
}

/// A container of a pod: its name and its `env` array, which may be absent.
#[derive(Clone, Debug, PartialEq, Eq)]
pub struct Container {
    pub name: String,
    pub env: Option<Vec<EnvVar>>,
}

pub struct ContainerView {
    pub name: Seq<char>,
    pub env: Option<Seq<EnvVarView>>,
}

impl View for Container {
    type V = ContainerView;

    open spec fn view(&self) -> ContainerView {
        ContainerView {
            name: self.name@,
            env: match self.env {
                Some(env) => Some(env.deep_view()),
                None => None,
            },
        }
    }
}

impl DeepView for Container {
    type V = ContainerView;

    open spec fn deep_view(&self) -> ContainerView {
        self@
    }
}

/// What the mutator reads of a pod's `spec`.
#[derive(Clone, Debug, PartialEq, Eq)]
pub struct PodSpec {
    /// `spec.serviceAccountName`.
    pub service_account_name: Option<String>,
    /// `spec.serviceAccount`, the older name of the same field.
    pub service_account: Option<String>,
    pub containers: Vec<Container>,
}

pub struct PodSpecView {
    pub service_account_name: Option<Seq<char>>,
    pub service_account: Option<Seq<char>>,
    pub containers: Seq<ContainerView>,
}

impl View for PodSpec {
    type V = PodSpecView;

    open spec fn view(&self) -> PodSpecView {
        PodSpecView {
            service_account_name: match self.service_account_name {
                Some(s) => Some(s@),
                None => None,
            },
            service_account: match self.service_account {
                Some(s) => Some(s@),
                None => None,
            },
            containers: self.containers.deep_view(),
        }
    }
}

/// What the mutator reads of a pod: `metadata.namespace` and `spec`.
#[derive(Clone, Debug, PartialEq, Eq)]
pub struct Pod {
    pub namespace: Option<String>,
    pub spec: Option<PodSpec>,
}

pub struct PodView {
    pub namespace: Option<Seq<char>>,
    pub spec: Option<PodSpecView>,
}

impl View for Pod {
    type V = PodView;

    open spec fn view(&self) -> PodView {
        PodView {
            namespace: match self.namespace {
                Some(s) => Some(s@),
                None => None,
            },
            spec: match self.spec {
                Some(spec) => Some(spec@),
                None => None,
            },
        }
    }
}

/// The value of an "add" operation: one variable to append, or the whole
/// `env` array of a container that had none.
#[derive(Clone, Debug, PartialEq, Eq)]
pub enum PatchValue {
    Variable(EnvVar),
    Variables(Vec<EnvVar>),
}

pub enum PatchValueView {
    Variable(EnvVarView),
    Variables(Seq<EnvVarView>),
}

impl View for PatchValue {
    type V = PatchValueView;

    open spec fn view(&self) -> PatchValueView {
        match self {
            PatchValue::Variable(v) => PatchValueView::Variable(v@),
            PatchValue::Variables(vs) => PatchValueView::Variables(vs.deep_view()),
        }
    }
}

/// A JSON patch "add" operation: the JSON pointer of the place and the value
/// put there.
#[derive(Clone, Debug, PartialEq, Eq)]
pub struct AddOperation {
    pub path: String,
    pub value: PatchValue,
}

pub struct AddOperationView {
    pub path: Seq<char>,
    pub value: PatchValueView,
}

impl View for AddOperation {
    type V = AddOperationView;

    open spec fn view(&self) -> AddOperationView {
        AddOperationView { path: self.path@, value: self.value@ }
    }
}

impl DeepView for AddOperation {
    type V = AddOperationView;

    open spec fn deep_view(&self) -> AddOperationView {
        self@
    }
}

/// An ordered list of "add" operations on one pod.
#[derive(Clone, Debug, PartialEq, Eq)]
pub struct Patch(pub Vec<AddOperation>);

impl View for Patch {
    type V = Seq<AddOperationView>;

    open spec fn view(&self) -> Seq<AddOperationView> {
        self.0.deep_view()
    }
}

pub const ENV_AWS_FULL_URI: &'static str = "AWS_CONTAINER_CREDENTIALS_FULL_URI";

pub const ENV_AWS_RELATIVE_URI: &'static str = "AWS_CONTAINER_CREDENTIALS_RELATIVE_URI";

pub const ENV_AWS_TOKEN: &'static str = "AWS_CONTAINER_AUTHORIZATION_TOKEN";

pub const ENV_AWS_TOKEN_FILE: &'static str = "AWS_CONTAINER_AUTHORIZATION_TOKEN_FILE";

pub const ENV_AWS_DEFAULT_REGION: &'static str = "AWS_DEFAULT_REGION";

pub const ENV_AWS_REGION: &'static str = "AWS_REGION";

/// Where the kubelet mounts the service-account token in every container.
pub const TOKEN_PATH: &'static str = "/var/run/secrets/kubernetes.io/serviceaccount/token";

/// The URL of the credential endpoint of the agent at `agent_address`.
pub open spec fn credentials_uri(agent_address: Seq<char>) -> Seq<char> {
    "http://"@ + agent_address + "/v1/container-credentials"@
}

/// The credential pair: where to fetch credentials and which token to show.
pub open spec fn credential_vars(agent_address: Seq<char>) -> Seq<EnvVarView> {
    seq![
        EnvVarView { name: ENV_AWS_FULL_URI@, value: Some(credentials_uri(agent_address)) },
        EnvVarView { name: ENV_AWS_TOKEN_FILE@, value: Some(TOKEN_PATH@) },
    ]
}

/// The region pair: the same region under both names that client libraries read.
pub open spec fn region_vars(region: Seq<char>) -> Seq<EnvVarView> {
    seq![
        EnvVarView { name: ENV_AWS_DEFAULT_REGION@, value: Some(region) },
        EnvVarView { name: ENV_AWS_REGION@, value: Some(region) },
    ]
}

/// Whether `name` is one of the four variables that configure container credentials.
pub open spec fn names_credentials(name: Seq<char>) -> bool {
    ||| name == ENV_AWS_FULL_URI@
    ||| name == ENV_AWS_RELATIVE_URI@
    ||| name == ENV_AWS_TOKEN@
    ||| name == ENV_AWS_TOKEN_FILE@
}

/// Whether `name` is one of the two variables that set the region.
pub open spec fn names_region(name: Seq<char>) -> bool {
    name == ENV_AWS_REGION@ || name == ENV_AWS_DEFAULT_REGION@
}

pub open spec fn has_credential_var(env: Seq<EnvVarView>) -> bool {
    exists|i: int| 0 <= i < env.len() && names_credentials(#[trigger] env[i].name)
}

pub open spec fn has_region_var(env: Seq<EnvVarView>) -> bool {
    exists|i: int| 0 <= i < env.len() && names_region(#[trigger] env[i].name)
}

/// RFC 6901 escaping of one reference token: `~` becomes `~0` and `/` becomes `~1`.
pub open spec fn escaped(token: Seq<char>) -> Seq<char>
    decreases token.len(),
{
    if token.len() == 0 {
        Seq::<char>::empty()
    } else {
        let front = escaped(token.drop_last());
        if token.last() == '~' {
            front.push('~').push('0')
        } else if token.last() == '/' {
            front.push('~').push('1')
        } else {
            front.push(token.last())
        }
    }
}

/// The JSON pointer made of `tokens`: each one escaped, with `/` before it.
pub open spec fn pointer_text(tokens: Seq<Seq<char>>) -> Seq<char>
    decreases tokens.len(),
{
    if tokens.len() == 0 {
        Seq::<char>::empty()
    } else {
        pointer_text(tokens.drop_last()).push('/') + escaped(tokens.last())
    }
}

/// The JSON pointer of the `env` member of the container at `index`.
pub open spec fn env_path(index: nat) -> Seq<char> {
    "/spec/containers/"@ + decimal(index) + "/env"@
}

/// The JSON pointer of the place after the last element of that `env` array.
pub open spec fn env_append_path(index: nat) -> Seq<char> {
    env_path(index) + "/-"@
}

/// One append to the `env` array of the container at `index` for each of `vars`.
pub open spec fn appends(index: nat, vars: Seq<EnvVarView>) -> Seq<AddOperationView> {
    Seq::new(
        vars.len(),
        |k: int|
            AddOperationView {
                path: env_append_path(index),
                value: PatchValueView::Variable(vars[k]),
            },
    )
}

/// The operations for the container at `index`. Without an `env` array the
/// whole array is added at once. With one, the credential pair is appended
/// unless a credential variable is present, and the region pair unless a
/// region variable is.
pub open spec fn container_operations(
    index: nat,
    container: ContainerView,
    agent_address: Seq<char>,
    region: Seq<char>,
) -> Seq<AddOperationView> {
    match container.env {
        None => seq![
            AddOperationView {
                path: env_path(index),
                value: PatchValueView::Variables(
                    credential_vars(agent_address) + region_vars(region),
                ),
            },
        ],
        Some(env) => {
            let credentials = if has_credential_var(env) {
                Seq::<AddOperationView>::empty()
            } else {
                appends(index, credential_vars(agent_address))
            };
            let regions = if has_region_var(env) {
                Seq::<AddOperationView>::empty()
            } else {
                appends(index, region_vars(region))
            };
            credentials + regions
        },
    }
}

/// The operations for the first `count` containers, in container order.
pub open spec fn containers_operations(
    containers: Seq<ContainerView>,
    count: nat,
    agent_address: Seq<char>,
    region: Seq<char>,
) -> Seq<AddOperationView>
    decreases count,
{
    if count == 0 {
        Seq::<AddOperationView>::empty()
    } else {
        containers_operations(containers, (count - 1) as nat, agent_address, region)
            + container_operations(
            (count - 1) as nat,
            containers[count - 1],
            agent_address,
            region,
        )
    }
}

/// The whole patch of a pod: nothing without a `spec`, else the operations
/// of every container.
pub open spec fn pod_operations(
    pod: PodView,
    agent_address: Seq<char>,
    region: Seq<char>,
) -> Seq<AddOperationView> {
    match pod.spec {
        None => Seq::<AddOperationView>::empty(),
        Some(spec) => containers_operations(
            spec.containers,
            spec.containers.len(),
            agent_address,
            region,
        ),
    }
}

/// The `env` array of a container once its operations are applied: an "add"
/// at an absent `env` member creates the array, an "add" at `env/-` appends.
pub open spec fn patched_env(
    env: Option<Seq<EnvVarView>>,
    agent_address: Seq<char>,
    region: Seq<char>,
) -> Seq<EnvVarView> {
    match env {
        None => credential_vars(agent_address) + region_vars(region),
        Some(env) => {
            let credentials = if has_credential_var(env) {
                Seq::<EnvVarView>::empty()
            } else {
                credential_vars(agent_address)
            };
            let regions = if has_region_var(env) {
                Seq::<EnvVarView>::empty()
            } else {
                region_vars(region)
            };
            env + credentials + regions
        },
    }
}

/// The pod once its patch is applied: every container has an `env` array,
/// extended as its operations say.
pub open spec fn patched_pod(pod: PodView, agent_address: Seq<char>, region: Seq<char>) -> PodView {
    match pod.spec {
        None => pod,
        Some(spec) => PodView {
            namespace: pod.namespace,
            spec: Some(
                PodSpecView {
                    service_account_name: spec.service_account_name,
                    service_account: spec.service_account,
                    containers: Seq::new(
                        spec.containers.len(),
                        |i: int|
                            ContainerView {
                                name: spec.containers[i].name,
                                env: Some(
                                    patched_env(spec.containers[i].env, agent_address, region),
                                ),
                            },
                    ),
                },
            ),
        },
    }
}

/// A patched `env` array holds a credential variable and a region variable,
/// whatever it held before.
pub proof fn lemma_patched_env_complete(
    env: Option<Seq<EnvVarView>>,
    agent_address: Seq<char>,
    region: Seq<char>,
)
    ensures
        has_credential_var(patched_env(env, agent_address, region)),
        has_region_var(patched_env(env, agent_address, region)),
{
    let after = patched_env(env, agent_address, region);
    match env {
        None => {
            assert(names_credentials(after[0].name));
            assert(names_region(after[2].name));
        },
        Some(before) => {
            if has_credential_var(before) {
                let i = choose|i: int|
                    0 <= i < before.len() && names_credentials(#[trigger] before[i].name);
                assert(names_credentials(after[i].name));
            } else {
                assert(names_credentials(after[before.len() as int].name));
            }
            if has_region_var(before) {
                let i = choose|i: int|
                    0 <= i < before.len() && names_region(#[trigger] before[i].name);
                assert(names_region(after[i].name));
            } else {
                assert(names_region(after[after.len() - 2].name));
            }
        },
    }
}

proof fn lemma_patched_containers_settled(
    pod: PodView,
    agent_address: Seq<char>,
    region: Seq<char>,
    count: nat,
    next_address: Seq<char>,
    next_region: Seq<char>,
)
    requires
        pod.spec is Some,
        count <= pod.spec->0.containers.len(),
    ensures
        containers_operations(
            patched_pod(pod, agent_address, region).spec->0.containers,
            count,
            next_address,
            next_region,
        ) == Seq::<AddOperationView>::empty(),
    decreases count,
{
    if count > 0 {
        lemma_patched_containers_settled(
            pod,
            agent_address,
            region,
            (count - 1) as nat,
            next_address,
            next_region,
        );
        lemma_patched_env_complete(
            pod.spec->0.containers[count - 1].env,
            agent_address,
            region,
        );
    }
}

/// Mutating is idempotent: the patch of an already patched pod is empty, so
/// a second pass adds no credential or region variable, whatever address and
/// region it is run with.
pub proof fn lemma_patch_idempotent(
    pod: PodView,
    agent_address: Seq<char>,
    region: Seq<char>,
    next_address: Seq<char>,
    next_region: Seq<char>,
)
    ensures
        pod_operations(patched_pod(pod, agent_address, region), next_address, next_region)
            == Seq::<AddOperationView>::empty(),
{
    if pod.spec is Some {
        lemma_patched_containers_settled(
            pod,
            agent_address,
            region,
            pod.spec->0.containers.len(),
            next_address,
            next_region,
        );
    }
}

/// `jsonptr::PointerBuf::from_tokens`, read back as text. The crate writes,
/// for each token in turn, a `/` and the token with `~` replaced by `~0` and
/// `/` by `~1`; the contract says exactly that.
#[verifier::external_body]
fn pointer_from_tokens(tokens: &Vec<String>) -> (pointer: String)
    ensures
        pointer@ == pointer_text(tokens.deep_view()),
{
    jsonptr::PointerBuf::from_tokens(tokens).to_string()
}

/// A token without `~` and `/` is its own escaped form.
pub proof fn lemma_escaped_plain(token: Seq<char>)
    requires
        forall|i: int| 0 <= i < token.len() ==> token[i] != '~' && token[i] != '/',
    ensures
        escaped(token) == token,
    decreases token.len(),
{
    if token.len() > 0 {
        lemma_escaped_plain(token.drop_last());
        assert(token.drop_last().push(token.last()) =~= token);
    }
}

proof fn lemma_env_pointer(index: nat)
    ensures
        pointer_text(seq!["spec"@, "containers"@, decimal(index), "env"@]) == env_path(index),
        pointer_text(seq!["spec"@, "containers"@, decimal(index), "env"@, "-"@])
            == env_append_path(index),
{
    reveal_strlit("spec");
    reveal_strlit("containers");
    reveal_strlit("env");
    reveal_strlit("-");
    reveal_strlit("/spec/containers/");
    reveal_strlit("/env");
    reveal_strlit("/-");
    lemma_decimal_digits(index);
    lemma_escaped_plain("spec"@);
    lemma_escaped_plain("containers"@);
    lemma_escaped_plain(decimal(index));
    lemma_escaped_plain("env"@);
    lemma_escaped_plain("-"@);
    let t1 = seq!["spec"@];
    let t2 = seq!["spec"@, "containers"@];
    let t3 = seq!["spec"@, "containers"@, decimal(index)];
    let t4 = seq!["spec"@, "containers"@, decimal(index), "env"@];
    let t5 = seq!["spec"@, "containers"@, decimal(index), "env"@, "-"@];
    assert(t1.drop_last() =~= Seq::<Seq<char>>::empty());
    assert(t2.drop_last() =~= t1);
    assert(t3.drop_last() =~= t2);
    assert(t4.drop_last() =~= t3);
    assert(t5.drop_last() =~= t4);
    assert(pointer_text(Seq::<Seq<char>>::empty()) =~= Seq::<char>::empty());
    assert(pointer_text(t1) =~= "/spec"@) by {
        reveal_strlit("/spec");
    }
    assert(pointer_text(t2) =~= "/spec/containers"@) by {
        reveal_strlit("/spec");
        reveal_strlit("/spec/containers");
    }
    assert(pointer_text(t3) =~= "/spec/containers/"@ + decimal(index)) by {
        reveal_strlit("/spec/containers");
    }
}

fn env_pointer(index: usize, append: bool) -> (path: String)
    ensures
        path@ == if append {
            env_append_path(index as nat)
        } else {
            env_path(index as nat)
        },
{
    let mut tokens: Vec<String> = Vec::new();
    tokens.push("spec".to_owned());
    tokens.push("containers".to_owned());
    tokens.push(decimal_string(index));
    tokens.push("env".to_owned());
    if append {
        tokens.push("-".to_owned());
    }
    proof {
        lemma_env_pointer(index as nat);
        if append {
            assert(tokens.deep_view() =~= seq![
                "spec"@,
                "containers"@,
                decimal(index as nat),
                "env"@,
                "-"@,
            ]);
        } else {
            assert(tokens.deep_view() =~= seq![
                "spec"@,
                "containers"@,
                decimal(index as nat),
                "env"@,
            ]);
        }
    }
    pointer_from_tokens(&tokens)
}

fn variable(name: &str, value: String) -> (var: EnvVar)
    ensures
        var@ == (EnvVarView { name: name@, value: Some(value@) }),
{
    EnvVar { name: name.to_owned(), value: Some(value) }
}

fn credential_pair(agent_address: &str) -> (vars: Vec<EnvVar>)
    ensures
        vars.deep_view() == credential_vars(agent_address@),
{
    let mut uri = joined("http://", agent_address);
    uri.append("/v1/container-credentials");
    let mut vars: Vec<EnvVar> = Vec::new();
    vars.push(variable(ENV_AWS_FULL_URI, uri));
    vars.push(variable(ENV_AWS_TOKEN_FILE, TOKEN_PATH.to_owned()));
    vars
}

fn region_pair(region: &str) -> (vars: Vec<EnvVar>)
    ensures
        vars.deep_view() == region_vars(region@),
{
    let mut vars: Vec<EnvVar> = Vec::new();
    vars.push(variable(ENV_AWS_DEFAULT_REGION, region.to_owned()));
    vars.push(variable(ENV_AWS_REGION, region.to_owned()));
    vars
}

/// Whether `env` already configures container credentials in any of the four ways.
pub fn contains_aws_cred_env(env: &Vec<EnvVar>) -> (found: bool)
    ensures
        found == has_credential_var(env.deep_view()),
{
    let mut i: usize = 0;
    while i < env.len()
        invariant
            i <= env.len(),
            forall|k: int| 0 <= k < i ==> !names_credentials(#[trigger] env.deep_view()[k].name),
        decreases env.len() - i,
    {
        let name = env[i].name.as_str();
        if str_eq(name, ENV_AWS_FULL_URI) || str_eq(name, ENV_AWS_RELATIVE_URI) || str_eq(
            name,
            ENV_AWS_TOKEN,
        ) || str_eq(name, ENV_AWS_TOKEN_FILE) {
            assert(names_credentials(env.deep_view()[i as int].name));
            return true;
        }
        i += 1;
    }
    false
}

/// Whether `env` already sets the region under either name.
pub fn contains_aws_region_env(env: &Vec<EnvVar>) -> (found: bool)
    ensures
        found == has_region_var(env.deep_view()),
{
    let mut i: usize = 0;
    while i < env.len()
        invariant
            i <= env.len(),
            forall|k: int| 0 <= k < i ==> !names_region(#[trigger] env.deep_view()[k].name),
        decreases env.len() - i,
    {
        let name = env[i].name.as_str();
        if str_eq(name, ENV_AWS_REGION) || str_eq(name, ENV_AWS_DEFAULT_REGION) {
            assert(names_region(env.deep_view()[i as int].name));
            return true;
        }
        i += 1;
    }
    false
}

/// Appends to `operations` one "add" at the end of the `env` array of the
/// container at `index` for each of `vars`.
fn append_each(operations: &mut Vec<AddOperation>, index: usize, path: &String, vars: &Vec<EnvVar>)
    requires
        path@ == env_append_path(index as nat),
    ensures
        final(operations).deep_view() == old(operations).deep_view() + appends(
            index as nat,
            vars.deep_view(),
        ),
{
    let ghost before = operations.deep_view();
    let ghost all = vars.deep_view();
    let mut k: usize = 0;
    let n = vars.len();
    while k < n
        invariant
            n == vars.len(),
            k <= n,
            path@ == env_append_path(index as nat),
            vars.deep_view() == all,
            operations.deep_view() == before + appends(index as nat, all).take(k as int),
        decreases n - k,
    {
        let var = EnvVar {
            name: vars[k].name.clone(),
            value: match &vars[k].value {
                Some(v) => Some(v.clone()),
                None => None,
            },
        };
        let ghost so_far = operations.deep_view();
        operations.push(AddOperation { path: path.clone(), value: PatchValue::Variable(var) });
        assert(operations.deep_view() =~= so_far.push(appends(index as nat, all)[k as int]));
        k += 1;
    }
}

/// Builds the patch that injects the credential endpoint and the region into
/// every container of `pod`.
pub fn create_pod_patch(pod: &Pod, agent_address: &str, region: &str) -> (patch: Patch)
    ensures
        patch@ == pod_operations(pod@, agent_address@, region@),
{
    let mut operations: Vec<AddOperation> = Vec::new();
    match &pod.spec {
        None => {},
        Some(spec) => {
            let mut idx: usize = 0;
            while idx < spec.containers.len()
                invariant
                    idx <= spec.containers.len(),
                    operations.deep_view() == containers_operations(
                        spec@.containers,
                        idx as nat,
                        agent_address@,
                        region@,
                    ),
                decreases spec.containers.len() - idx,
            {
                let container = &spec.containers[idx];
                match &container.env {
                    Some(env) => {
                        let path = env_pointer(idx, true);
                        if !contains_aws_cred_env(env) {
                            append_each(
                                &mut operations,
                                idx,
                                &path,
                                &credential_pair(agent_address),
                            );
                        }
                        if !contains_aws_region_env(env) {
                            append_each(&mut operations, idx, &path, &region_pair(region));
                        }
                    },
                    None => {
                        let path = env_pointer(idx, false);
                        let mut vars = credential_pair(agent_address);
                        let mut regions = region_pair(region);
                        let ghost first = vars.deep_view();
                        let ghost second = regions.deep_view();
                        vars.append(&mut regions);
                        assert(vars.deep_view() =~= first + second);
                        operations.push(
                            AddOperation { path, value: PatchValue::Variables(vars) },
                        );
                    },
                }
                idx += 1;
            }
        },
    }
    Patch(operations)
}

} // verus!
