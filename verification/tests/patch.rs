use homelab_aws_creds::patch::{
    contains_aws_cred_env, contains_aws_region_env, create_pod_patch, AddOperation, Container,
    EnvVar, Patch, PatchValue, Pod, PodSpec,
};

fn var(name: &str, value: &str) -> EnvVar {
    EnvVar { name: name.to_string(), value: Some(value.to_string()) }
}

fn pod_of(containers: Vec<Container>) -> Pod {
    Pod {
        namespace: None,
        spec: Some(PodSpec { service_account_name: None, service_account: None, containers }),
    }
}

fn container(name: &str, env: Option<Vec<EnvVar>>) -> Container {
    Container { name: name.to_string(), env }
}

fn append(index: usize, name: &str, value: &str) -> AddOperation {
    AddOperation {
        path: format!("/spec/containers/{}/env/-", index),
        value: PatchValue::Variable(var(name, value)),
    }
}

fn four_appends(index: usize, agent_address: &str, region: &str) -> Vec<AddOperation> {
    vec![
        append(
            index,
            "AWS_CONTAINER_CREDENTIALS_FULL_URI",
            &format!("http://{}/v1/container-credentials", agent_address),
        ),
        append(
            index,
            "AWS_CONTAINER_AUTHORIZATION_TOKEN_FILE",
            "/var/run/secrets/kubernetes.io/serviceaccount/token",
        ),
        append(index, "AWS_DEFAULT_REGION", region),
        append(index, "AWS_REGION", region),
    ]
}

#[test]
fn test_create_pod_patch() {
    let agent_address = "169.254.170.23:8080";
    let region = "us-west-2";
    let pod = pod_of(vec![container("test", None)]);
    assert_eq!(
        create_pod_patch(&pod, agent_address, region),
        Patch(vec![AddOperation {
            path: "/spec/containers/0/env".to_string(),
            value: PatchValue::Variables(vec![
                var(
                    "AWS_CONTAINER_CREDENTIALS_FULL_URI",
                    &format!("http://{}/v1/container-credentials", agent_address)
                ),
                var(
                    "AWS_CONTAINER_AUTHORIZATION_TOKEN_FILE",
                    "/var/run/secrets/kubernetes.io/serviceaccount/token"
                ),
                var("AWS_DEFAULT_REGION", region),
                var("AWS_REGION", region),
            ]),
        }])
    );
    let pod = pod_of(vec![container("test", Some(vec![var("test", "test")]))]);
    assert_eq!(
        create_pod_patch(&pod, agent_address, region),
        Patch(four_appends(0, agent_address, region))
    );

    let pod = pod_of(vec![
        container("test", Some(vec![var("test", "test")])),
        container("test2", Some(vec![var("test", "test")])),
    ]);
    let mut expected = vec![
        append(
            0,
            "AWS_CONTAINER_CREDENTIALS_FULL_URI",
            "http://169.254.170.23:8080/v1/container-credentials",
        ),
        append(
            0,
            "AWS_CONTAINER_AUTHORIZATION_TOKEN_FILE",
            "/var/run/secrets/kubernetes.io/serviceaccount/token",
        ),
        append(0, "AWS_DEFAULT_REGION", region),
        append(0, "AWS_REGION", region),
    ];
    expected.push(append(
        1,
        "AWS_CONTAINER_CREDENTIALS_FULL_URI",
        "http://169.254.170.23:8080/v1/container-credentials",
    ));
    expected.push(append(
        1,
        "AWS_CONTAINER_AUTHORIZATION_TOKEN_FILE",
        "/var/run/secrets/kubernetes.io/serviceaccount/token",
    ));
    expected.push(append(1, "AWS_DEFAULT_REGION", region));
    expected.push(append(1, "AWS_REGION", region));
    assert_eq!(create_pod_patch(&pod, agent_address, region), Patch(expected));
}

#[test]
fn patch_of_pod_without_spec_is_empty() {
    let pod = Pod { namespace: Some("x".to_string()), spec: None };
    assert_eq!(create_pod_patch(&pod, "a:1", "r"), Patch(vec![]));
}

#[test]
fn patch_of_pod_without_containers_is_empty() {
    assert_eq!(create_pod_patch(&pod_of(vec![]), "a:1", "r"), Patch(vec![]));
}

#[test]
fn container_without_env_gets_whole_array_in_fixed_order() {
    let patch = create_pod_patch(&pod_of(vec![container("c", None)]), "10.0.0.1:80", "eu-west-1");
    assert_eq!(patch.0.len(), 1);
    assert_eq!(patch.0[0].path, "/spec/containers/0/env");
    match &patch.0[0].value {
        PatchValue::Variables(vars) => {
            let names: Vec<&str> = vars.iter().map(|v| v.name.as_str()).collect();
            assert_eq!(
                names,
                vec![
                    "AWS_CONTAINER_CREDENTIALS_FULL_URI",
                    "AWS_CONTAINER_AUTHORIZATION_TOKEN_FILE",
                    "AWS_DEFAULT_REGION",
                    "AWS_REGION"
                ]
            );
            assert_eq!(
                vars[0].value.as_deref(),
                Some("http://10.0.0.1:80/v1/container-credentials")
            );
            assert_eq!(vars[2].value.as_deref(), Some("eu-west-1"));
            assert_eq!(vars[3].value.as_deref(), Some("eu-west-1"));
        }
        other => panic!("expected the whole array, got {:?}", other),
    }
}

#[test]
fn empty_env_array_gets_appends() {
    let patch = create_pod_patch(&pod_of(vec![container("c", Some(vec![]))]), "a:1", "r");
    assert_eq!(patch, Patch(four_appends(0, "a:1", "r")));
}

#[test]
fn credential_variable_suppresses_credential_pair_only() {
    for name in [
        "AWS_CONTAINER_CREDENTIALS_FULL_URI",
        "AWS_CONTAINER_CREDENTIALS_RELATIVE_URI",
        "AWS_CONTAINER_AUTHORIZATION_TOKEN",
        "AWS_CONTAINER_AUTHORIZATION_TOKEN_FILE",
    ] {
        let pod = pod_of(vec![container("c", Some(vec![var(name, "x")]))]);
        assert_eq!(
            create_pod_patch(&pod, "a:1", "r"),
            Patch(vec![append(0, "AWS_DEFAULT_REGION", "r"), append(0, "AWS_REGION", "r")])
        );
    }
}

#[test]
fn region_variable_suppresses_region_pair_only() {
    for name in ["AWS_REGION", "AWS_DEFAULT_REGION"] {
        let pod = pod_of(vec![container("c", Some(vec![var(name, "x")]))]);
        assert_eq!(
            create_pod_patch(&pod, "a:1", "r"),
            Patch(vec![
                append(0, "AWS_CONTAINER_CREDENTIALS_FULL_URI", "http://a:1/v1/container-credentials"),
                append(
                    0,
                    "AWS_CONTAINER_AUTHORIZATION_TOKEN_FILE",
                    "/var/run/secrets/kubernetes.io/serviceaccount/token"
                ),
            ])
        );
    }
}

#[test]
fn variable_names_are_case_sensitive() {
    let pod = pod_of(vec![container("c", Some(vec![var("aws_region", "x")]))]);
    assert_eq!(create_pod_patch(&pod, "a:1", "r"), Patch(four_appends(0, "a:1", "r")));
}

#[test]
fn mutating_an_already_patched_pod_adds_nothing() {
    let first = create_pod_patch(
        &pod_of(vec![container("a", None), container("b", Some(vec![var("k", "v")]))]),
        "a:1",
        "r",
    );
    // Apply the patch by hand: the first container gets the whole array, the
    // second the four appended variables.
    let whole = match &first.0[0].value {
        PatchValue::Variables(vars) => vars.clone(),
        other => panic!("expected the whole array, got {:?}", other),
    };
    let mut appended = vec![var("k", "v")];
    for op in &first.0[1..] {
        assert_eq!(op.path, "/spec/containers/1/env/-");
        match &op.value {
            PatchValue::Variable(v) => appended.push(v.clone()),
            other => panic!("expected one variable, got {:?}", other),
        }
    }
    let patched = pod_of(vec![container("a", Some(whole)), container("b", Some(appended))]);
    assert_eq!(create_pod_patch(&patched, "a:1", "r"), Patch(vec![]));
    assert_eq!(create_pod_patch(&patched, "other:2", "elsewhere"), Patch(vec![]));
}

#[test]
fn container_index_is_written_in_decimal() {
    let mut containers = Vec::new();
    for i in 0..12 {
        containers.push(container(&format!("c{}", i), None));
    }
    let patch = create_pod_patch(&pod_of(containers), "a:1", "r");
    assert_eq!(patch.0.len(), 12);
    assert_eq!(patch.0[9].path, "/spec/containers/9/env");
    assert_eq!(patch.0[10].path, "/spec/containers/10/env");
    assert_eq!(patch.0[11].path, "/spec/containers/11/env");
}

#[test]
fn mixed_containers_keep_container_order() {
    let pod = pod_of(vec![
        container("a", Some(vec![var("AWS_REGION", "x"), var("AWS_CONTAINER_AUTHORIZATION_TOKEN", "t")])),
        container("b", None),
        container("c", Some(vec![var("AWS_REGION", "x")])),
    ]);
    let patch = create_pod_patch(&pod, "a:1", "r");
    let paths: Vec<&str> = patch.0.iter().map(|op| op.path.as_str()).collect();
    assert_eq!(
        paths,
        vec!["/spec/containers/1/env", "/spec/containers/2/env/-", "/spec/containers/2/env/-"]
    );
}

#[test]
fn presence_checks() {
    assert!(!contains_aws_cred_env(&vec![]));
    assert!(!contains_aws_region_env(&vec![]));
    assert!(contains_aws_cred_env(&vec![var("x", "y"), var("AWS_CONTAINER_CREDENTIALS_RELATIVE_URI", "/")]));
    assert!(!contains_aws_cred_env(&vec![var("AWS_REGION", "y")]));
    assert!(contains_aws_region_env(&vec![var("AWS_DEFAULT_REGION", "y")]));
    assert!(!contains_aws_region_env(&vec![var("AWS_CONTAINER_AUTHORIZATION_TOKEN", "y")]));
    let unset = EnvVar { name: "AWS_REGION".to_string(), value: None };
    assert!(contains_aws_region_env(&vec![unset]));
}
