use pond_deployment::ingress::NginxStaticSiteIngressService;
use pond_deployment::manager::manifest_from_fields;
use pond_deployment::pipeline::PipelineStep;
use pond_deployment::{manager, ConfigurationError, DeploymentError, DeploymentManager, StaticSiteDeployer};

fn ingress() -> NginxStaticSiteIngressService {
    NginxStaticSiteIngressService {
        certbot_command_name: "certbot".to_owned(),
        nginx_sites_available: "/etc/nginx/sites-available".to_owned(),
        nginx_sites_enabled: "/etc/nginx/sites-enabled".to_owned(),
        ip_v4_address: None,
        ip_v6_address: None,
        dns_wait_timeout_seconds: 30,
        dns_fixed_wait_timeout_seconds: 10,
        dns_use_fixed_wait_timeout: true,
    }
}

fn registered() -> DeploymentManager {
    let mut m = DeploymentManager::new("example.com");
    m.register_deployer(StaticSiteDeployer::new("./scripts".to_owned(), ingress()));
    m
}

#[test]
fn test_load_default_values_work() {
    let m = manager(Some("example.com".to_owned()), None, ingress());
    assert!(m.is_ok());
}

#[test]
fn missing_root_domain_is_a_configuration_error() {
    match manager(None, None, ingress()) {
        Err(ConfigurationError::MissingConfigurationValue(k)) => assert_eq!(k, "root_domain_name"),
        _ => panic!("expected a missing value"),
    }
}

#[test]
fn empty_domain_names_default_under_the_root_domain() {
    let m = manifest_from_fields("blog".to_owned(), "static-site".to_owned(), vec![], "example.com");
    assert_eq!(m.domain_names, vec!["blog.example.com".to_owned()]);
    let m = manifest_from_fields("blog".to_owned(), "static-site".to_owned(), vec!["x.org".to_owned()], "example.com");
    assert_eq!(m.domain_names, vec!["x.org".to_owned()]);
}

#[test]
fn manifests_are_parsed() {
    let m = registered();
    let parsed = m.parse_manifest("name = \"blog\"\ndeployment_type = \"static-site\"\n").unwrap();
    assert_eq!(parsed.name, "blog");
    assert_eq!(parsed.deployment_type, "static-site");
    assert_eq!(parsed.domain_names, vec!["blog.example.com".to_owned()]);

    let parsed = m
        .parse_manifest("name = \"blog\"\ndeployment_type = \"static-site\"\ndomain_names = [\"a.com\", \"b.com\"]\n")
        .unwrap();
    assert_eq!(parsed.domain_names, vec!["a.com".to_owned(), "b.com".to_owned()]);

    let parsed = m.parse_manifest("name = \"blog\"\ndeployment_type = \"static-site\"\ndomain_names = []\n").unwrap();
    assert_eq!(parsed.domain_names, vec!["blog.example.com".to_owned()]);
}

#[test]
fn malformed_manifests_are_refused() {
    let m = registered();
    for text in [
        "name = ",
        "deployment_type = \"static-site\"",
        "name = \"blog\"",
        "name = 3\ndeployment_type = \"static-site\"",
        "name = \"blog\"\ndeployment_type = \"static-site\"\ndomain_names = \"a.com\"",
        "name = \"blog\"\ndeployment_type = \"static-site\"\ndomain_names = [1]",
    ] {
        assert!(matches!(m.parse_manifest(text), Err(DeploymentError::CouldNotParseManifest)), "{}", text);
    }
}

#[test]
fn unknown_deployment_types_fail_at_once() {
    let m = registered();
    let r = m.deploy("name = \"blog\"\ndeployment_type = \"container\"\n", "/tmp/artifact.tar.gz");
    assert!(matches!(r, Err(DeploymentError::UnknownDeploymentType)));
    let empty = DeploymentManager::new("example.com");
    let r = empty.deploy("name = \"blog\"\ndeployment_type = \"static-site\"\n", "/tmp/artifact.tar.gz");
    assert!(matches!(r, Err(DeploymentError::UnknownDeploymentType)));
}

#[test]
fn a_deployment_starts_with_the_build_script() {
    let m = registered();
    let (mut logs, mut d) = m
        .deploy("name = \"blog\"\ndeployment_type = \"static-site\"\n", "/tmp/artifact.tar.gz")
        .unwrap();
    assert_eq!(d.manifest.domain_names, vec!["blog.example.com".to_owned()]);
    match d.run.next_step() {
        Some(PipelineStep::RunCommand { program, args, env, require_success }) => {
            assert_eq!(program, "./scripts/static_site.sh");
            assert!(args.is_empty());
            assert_eq!(env[0].name, "DEPLOYMENT_NAME");
            assert_eq!(env[0].value, "blog");
            assert_eq!(env[1].name, "ARTIFACT_LOCATION");
            assert_eq!(env[1].value, "/tmp/artifact.tar.gz");
            assert!(*require_success);
        }
        _ => panic!("expected the build script"),
    }
    d.handle.info().write_str("Hello!\n");
    while d.run.next_step().is_some() {
        d.run.record(Ok(()));
    }
    match d.run.final_line() {
        Ok(line) => d.handle.info().write_str(&line),
        Err(_) => panic!("expected success"),
    };
    drop(d);
    let out = logs.info().read(4096);
    assert_eq!(out, b"Hello!\n".to_vec());
    assert_eq!(logs.info().read(4096), b"Deployment succeeded".to_vec());
    assert!(logs.info().read(4096).is_empty());
}

#[test]
fn registering_again_replaces_the_deployer() {
    let mut m = registered();
    m.register_deployer(StaticSiteDeployer::new("/opt/scripts".to_owned(), ingress()));
    let (_logs, d) = m.deploy("name = \"x\"\ndeployment_type = \"static-site\"\n", "/a").unwrap();
    match d.run.next_step() {
        Some(PipelineStep::RunCommand { program, .. }) => assert_eq!(program, "/opt/scripts/static_site.sh"),
        _ => panic!("expected the build script"),
    }
}

#[test]
fn invalid_manifests_fail_deploy_at_once() {
    let m = registered();
    for text in ["not toml at all [", "deployment_type = \"static-site\"", "name = \"blog\""] {
        assert!(matches!(m.deploy(text, "/tmp/a"), Err(DeploymentError::CouldNotParseManifest)));
    }
}
