//! The configuration of the two run modes, as plain values. Reading it from
//! flags and the environment is left to the program.

use vstd::prelude::*;

verus! {

/// The address on which the agent listens unless told otherwise. Client
/// libraries expect the credential endpoint at this link-local address.
pub const DEFAULT_AGENT_ADDRESS: &'static str = "169.254.170.23:8080";

/// The address on which the webhook listens unless told otherwise.
pub const DEFAULT_WEBHOOK_ADDRESS: &'static str = "0.0.0.0:8080";

/// The address on which metrics and readiness are served unless told otherwise.
pub const DEFAULT_METRICS_ADDRESS: &'static str = "0.0.0.0:9090";

/// The grace period unless told otherwise: none.
pub const DEFAULT_READY_GRACE_PERIOD: u64 = 0;

/// The path of the credential endpoint.
pub const CREDENTIALS_PATH: &'static str = "/v1/container-credentials";

/// The path of the admission endpoint.
pub const MUTATE_PODS_PATH: &'static str = "/v1/mutate/pods";

/// The path under which the counters are exposed.
pub const METRICS_PATH: &'static str = "/metrics";

/// The path of the readiness probe.
pub const READYZ_PATH: &'static str = "/readyz";

/// The bound on the time a request may take, in seconds. A request that
/// takes longer is answered with "request timeout".
pub const REQUEST_TIMEOUT_SECONDS: u64 = 10;

/// The status code of that answer.
pub const REQUEST_TIMEOUT_STATUS: u16 = 408;

/// What both run modes are configured with.
#[derive(Clone, Debug, PartialEq, Eq)]
pub struct CommonConfig {
    /// Where metrics and readiness are served.
    pub metrics_address: String,
    /// For how many seconds the readiness probe fails before the listeners
    /// are told to stop.
    pub ready_grace_period: u64,
    /// The path of the role-mapping source.
    pub role_mapping_path: String,
}

impl CommonConfig {
    /// The configuration for a mapping source, all else as by default.
    pub fn new(role_mapping_path: String) -> (config: CommonConfig)
        ensures
            config.metrics_address@ == DEFAULT_METRICS_ADDRESS@,
            config.ready_grace_period == DEFAULT_READY_GRACE_PERIOD,
            config.role_mapping_path@ == role_mapping_path@,
    {
        CommonConfig {
            metrics_address: DEFAULT_METRICS_ADDRESS.to_owned(),
            ready_grace_period: DEFAULT_READY_GRACE_PERIOD,
            role_mapping_path,
        }
    }
}

/// The configuration of the agent.
#[derive(Clone, Debug, PartialEq, Eq)]
pub struct AgentConfig {
    pub common_config: CommonConfig,
    /// Where the credential endpoint listens.
    pub server_address: String,
}

impl AgentConfig {
    /// The configuration for a mapping source, all else as by default.
    pub fn new(common_config: CommonConfig) -> (config: AgentConfig)
        ensures
            config.common_config == common_config,
            config.server_address@ == DEFAULT_AGENT_ADDRESS@,
    {
        AgentConfig { common_config, server_address: DEFAULT_AGENT_ADDRESS.to_owned() }
    }
}

/// The configuration of the webhook.
#[derive(Clone, Debug, PartialEq, Eq)]
pub struct WebhookConfig {
    /// Where the admission endpoint listens.
    pub server_address: String,
    /// The path of the server certificate.
    pub cert: String,
    /// The path of the private key.
    pub key: String,
    /// The region that pods are pointed at.
    pub aws_region: String,
    /// The address under which pods reach the agent.
    pub agent_address: String,
    pub common_config: CommonConfig,
}

impl WebhookConfig {
    /// The configuration for what has no default, all else as by default.
    pub fn new(cert: String, key: String, aws_region: String, common_config: CommonConfig) -> (config:
        WebhookConfig)
        ensures
            config.server_address@ == DEFAULT_WEBHOOK_ADDRESS@,
            config.agent_address@ == DEFAULT_AGENT_ADDRESS@,
            config.cert@ == cert@,
            config.key@ == key@,
            config.aws_region@ == aws_region@,
            config.common_config == common_config,
    {
        WebhookConfig {
            server_address: DEFAULT_WEBHOOK_ADDRESS.to_owned(),
            cert,
            key,
            aws_region,
            agent_address: DEFAULT_AGENT_ADDRESS.to_owned(),
            common_config,
        }
    }
}

/// The run modes.
#[derive(Clone, Debug, PartialEq, Eq)]
pub enum Commands {
    /// Serve credentials to workloads.
    Agent(AgentConfig),
    /// Mutate pods at admission.
    Webhook(WebhookConfig),
    /// Set up the link-local address of the agent on this host, once.
    Netlink,
}

impl Commands {
    /// What the mode shares with the other serving mode; the one-time
    /// network setup has no such part.
    pub fn common_config(&self) -> (common: Option<&CommonConfig>)
        ensures
            match self {
                Commands::Agent(agent) => common == Some(&agent.common_config),
                Commands::Webhook(webhook) => common == Some(&webhook.common_config),
                Commands::Netlink => common.is_none(),
            },
    {
        match self {
            Commands::Agent(agent) => Some(&agent.common_config),
            Commands::Webhook(webhook) => Some(&webhook.common_config),
            Commands::Netlink => None,
        }
    }
}

/// The command line: one run mode with its configuration.
#[derive(Clone, Debug, PartialEq, Eq)]
pub struct Cli {
    pub command: Commands,
}

} // verus!
