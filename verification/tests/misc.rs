use homelab_aws_creds::config::{
    AgentConfig, Cli, Commands, CommonConfig, WebhookConfig, CREDENTIALS_PATH, METRICS_PATH,
    MUTATE_PODS_PATH, READYZ_PATH, REQUEST_TIMEOUT_SECONDS, REQUEST_TIMEOUT_STATUS,
};
use homelab_aws_creds::error::Error;
use homelab_aws_creds::middleware::{MetricsInterceptor, MetricsLayer};
use homelab_aws_creds::text::{
    chars_of, decimal_string, joined, split_text, str_eq, strip_prefix,
};

#[test]
fn error_messages() {
    let cases = [
        (Error::StsError("x".into()), "aws sts: x"),
        (Error::AwsError("x".into()), "aws error: x"),
        (Error::TimeError("x".into()), "time conversion error: x"),
        (Error::IoError("x".into()), "io error: x"),
        (Error::SerDeError("x".into()), "error serializing/deserializing: x"),
        (Error::KubeError("x".into()), "x"),
        (Error::OtherError("x".into()), "kube error: x"),
        (Error::TokenError("x".into()), "error validating token: x"),
        (Error::RoleMappingError("x".into()), "x"),
        (Error::NotifyError("x".into()), "notify error: x"),
        (Error::NetlinkError("x".into()), "rtnetlink error: x"),
    ];
    for (error, text) in cases {
        assert_eq!(error.message(), text);
    }
}

#[test]
fn defaults() {
    let common = CommonConfig::new("/etc/mappings.yaml".to_string());
    assert_eq!(common.metrics_address, "0.0.0.0:9090");
    assert_eq!(common.ready_grace_period, 0);
    assert_eq!(common.role_mapping_path, "/etc/mappings.yaml");
    let agent = AgentConfig::new(common.clone());
    assert_eq!(agent.server_address, "169.254.170.23:8080");
    let webhook = WebhookConfig::new("c.pem".into(), "k.pem".into(), "us-east-1".into(), common.clone());
    assert_eq!(webhook.server_address, "0.0.0.0:8080");
    assert_eq!(webhook.agent_address, "169.254.170.23:8080");
    assert_eq!(webhook.cert, "c.pem");
    assert_eq!(webhook.key, "k.pem");
    assert_eq!(webhook.aws_region, "us-east-1");
    let cli = Cli { command: Commands::Agent(agent) };
    assert_eq!(cli.command.common_config(), Some(&common));
    assert_eq!(Commands::Webhook(webhook).common_config(), Some(&common));
    assert_eq!(Commands::Netlink.common_config(), None);
    assert_eq!(REQUEST_TIMEOUT_SECONDS, 10);
    assert_eq!(REQUEST_TIMEOUT_STATUS, 408);
}

#[test]
fn interceptor_counts_one_request_for_the_path() {
    let layer = MetricsLayer::new();
    let service: MetricsInterceptor<u32> = layer.layer(7);
    assert_eq!(*service.inner(), 7);
    let increment = service.call("/v1/container-credentials");
    assert_eq!(increment.counter, "requests_count");
    assert_eq!(increment.label, "path");
    assert_eq!(increment.value, "/v1/container-credentials");
    assert_eq!(increment.amount, 1);
    assert_eq!(service.into_inner(), 7);
}

#[test]
fn text_helpers() {
    assert!(str_eq("", ""));
    assert!(str_eq("abc", "abc"));
    assert!(!str_eq("abc", "abd"));
    assert!(!str_eq("abc", "ab"));
    assert!(!str_eq("é", "e"));
    assert_eq!(joined("ab", "cd"), "abcd");
    assert_eq!(chars_of("añb"), vec!['a', 'ñ', 'b']);
    assert_eq!(decimal_string(0), "0");
    assert_eq!(decimal_string(9), "9");
    assert_eq!(decimal_string(10), "10");
    assert_eq!(decimal_string(1234567890), "1234567890");
    assert_eq!(decimal_string(usize::MAX), usize::MAX.to_string());
    assert_eq!(split_text("", ':'), vec![String::new()]);
    assert_eq!(split_text("a", ':'), vec!["a".to_string()]);
    assert_eq!(split_text(":a::b:", ':'), vec!["", "a", "", "b", ""]);
    assert_eq!(split_text("ä:ö", ':'), vec!["ä", "ö"]);
    assert_eq!(strip_prefix("abc", "ab"), Some("c".to_string()));
    assert_eq!(strip_prefix("abc", ""), Some("abc".to_string()));
    assert_eq!(strip_prefix("abc", "abc"), Some(String::new()));
    assert_eq!(strip_prefix("abc", "abcd"), None);
    assert_eq!(strip_prefix("abc", "b"), None);
    assert_eq!(strip_prefix("äbc", "ä"), Some("bc".to_string()));
}

#[test]
fn routes() {
    assert_eq!(CREDENTIALS_PATH, "/v1/container-credentials");
    assert_eq!(MUTATE_PODS_PATH, "/v1/mutate/pods");
    assert_eq!(METRICS_PATH, "/metrics");
    assert_eq!(READYZ_PATH, "/readyz");
}
