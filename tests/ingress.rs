use pond_deployment::dns::AddressFamily;
use pond_deployment::ingress::{
    certbot_arguments, dns_wait_decision, join_domain_names, site_link_action, LinkAction,
    NginxStaticSiteIngressService, StaticSiteIngressService, WaitDecision,
};
use pond_deployment::pipeline::PipelineStep;

fn service(v4: Option<&str>, v6: Option<&str>, fixed: bool) -> NginxStaticSiteIngressService {
    NginxStaticSiteIngressService {
        certbot_command_name: "echo".to_owned(),
        nginx_sites_available: "/tmp/sites-available".to_owned(),
        nginx_sites_enabled: "/tmp/sites-enabled".to_owned(),
        ip_v4_address: v4.map(|s| s.to_owned()),
        ip_v6_address: v6.map(|s| s.to_owned()),
        dns_wait_timeout_seconds: 30,
        dns_fixed_wait_timeout_seconds: 0,
        dns_use_fixed_wait_timeout: fixed,
    }
}

fn notice(s: &PipelineStep) -> &str {
    match s {
        PipelineStep::Notice(t) => t.as_str(),
        _ => panic!("expected a notice"),
    }
}

#[test]
fn nginx_test_happy_path() {
    let svc = service(Some("127.0.0.1"), None, true);
    let steps = svc.add_static_site_ingress("test_site", "/var/www/test_site", &vec!["localhost".to_owned()]);
    assert_eq!(steps.len(), 11);
    assert_eq!(notice(&steps[0]), "Setting DNS record for domain localhost to IPv4 address 127.0.0.1");
    match &steps[1] {
        PipelineStep::SetDnsRecord { domain_name, address } => {
            assert_eq!(domain_name, "localhost");
            assert_eq!(address.family, AddressFamily::V4);
            assert_eq!(address.text, "127.0.0.1");
        }
        _ => panic!("expected a DNS record"),
    }
    assert_eq!(notice(&steps[2]), "Waiting for DNS records");
    assert!(matches!(steps[3], PipelineStep::Sleep { seconds: 0 }));
    assert_eq!(notice(&steps[4]), "Configuring nginx");
    match &steps[5] {
        PipelineStep::WriteSiteConfig { file_name, contents } => {
            assert_eq!(file_name, "test_site.conf");
            assert!(contents.contains("server_name localhost;"));
            assert!(contents.contains("root /var/www/test_site;"));
        }
        _ => panic!("expected the site configuration"),
    }
    assert_eq!(notice(&steps[6]), "Enabling site through symlink");
    match &steps[7] {
        PipelineStep::EnableSite { file_name } => assert_eq!(file_name, "test_site.conf"),
        _ => panic!("expected the enabling step"),
    }
    assert_eq!(notice(&steps[8]), "Running certbot");
    match &steps[9] {
        PipelineStep::RunCommand { program, args, env, require_success } => {
            assert_eq!(program, "echo");
            assert_eq!(args.join(" ") + "\n", "--nginx -n --expand --domain localhost\n");
            assert!(env.is_empty());
            assert!(!require_success);
        }
        _ => panic!("expected the certificate command"),
    }
    assert_eq!(notice(&steps[10]), "Completed running certbot");
}

#[test]
fn mod_test_happy_path() {
    let svc = service(Some("127.0.0.1"), None, true);
    let steps = svc.activation_plan("test_site", "/var/www/test_site", &vec!["domain_name".to_owned()]);
    match &steps[9] {
        PipelineStep::RunCommand { args, .. } => {
            assert_eq!(args.join(" "), "--nginx -n --expand --domain domain_name");
        }
        _ => panic!("expected the certificate command"),
    }
    assert!(steps.iter().any(|s| matches!(s, PipelineStep::WriteSiteConfig { file_name, .. } if file_name == "test_site.conf")));
}

#[test]
fn no_addresses_skip_records_and_waits() {
    let svc = service(None, None, false);
    let steps = svc.activation_plan("site", "/srv/site", &vec!["a.example.com".to_owned(), "b.example.com".to_owned()]);
    assert_eq!(notice(&steps[0]), "No IP addresses configured. Not setting any records");
    assert_eq!(notice(&steps[1]), "No IP addresses configured. Not setting any records");
    assert_eq!(notice(&steps[2]), "Waiting for DNS records");
    assert_eq!(notice(&steps[3]), "Configuring nginx");
    match &steps[4] {
        PipelineStep::WriteSiteConfig { contents, .. } => {
            assert!(contents.contains("server_name a.example.com b.example.com;"))
        }
        _ => panic!("expected the site configuration"),
    }
}

#[test]
fn both_families_and_polling() {
    let svc = service(Some("198.51.100.4"), Some("2001:db8::1"), false);
    let steps = svc.activation_plan("site", "/srv/site", &vec!["example.com".to_owned()]);
    assert_eq!(notice(&steps[2]), "Setting DNS record for domain example.com to IPv6 address 2001:db8::1");
    match &steps[5] {
        PipelineStep::AwaitDns { domain_name, addresses, timeout_seconds } => {
            assert_eq!(domain_name, "example.com");
            assert_eq!(addresses, &vec!["198.51.100.4".to_owned(), "2001:db8::1".to_owned()]);
            assert_eq!(*timeout_seconds, 30);
        }
        _ => panic!("expected a poll"),
    }
}

#[test]
fn activating_again_rewrites_the_configuration() {
    let svc = service(Some("127.0.0.1"), None, true);
    let first = svc.activation_plan("site", "/srv/one", &vec!["one.example.com".to_owned()]);
    let second = svc.activation_plan("site", "/srv/two", &vec!["two.example.com".to_owned()]);
    match (&first[5], &second[5]) {
        (
            PipelineStep::WriteSiteConfig { file_name: f1, contents: c1 },
            PipelineStep::WriteSiteConfig { file_name: f2, contents: c2 },
        ) => {
            assert_eq!(f1, f2);
            assert!(c1.contains("/srv/one"));
            assert!(c2.contains("/srv/two"));
            assert!(!c2.contains("/srv/one"));
        }
        _ => panic!("expected the site configuration"),
    }
    assert!(matches!(second[7], PipelineStep::EnableSite { .. }));
    assert_eq!(site_link_action(true), LinkAction::Keep);
    assert_eq!(site_link_action(false), LinkAction::Create);
}

#[test]
fn certbot_arguments_name_every_domain() {
    let args = certbot_arguments(&vec!["a.com".to_owned(), "b.com".to_owned()]);
    assert_eq!(args, vec!["--nginx", "-n", "--expand", "--domain", "a.com", "--domain", "b.com"]);
    assert_eq!(certbot_arguments(&vec![]), vec!["--nginx", "-n", "--expand"]);
}

#[test]
fn domain_names_are_joined_by_spaces() {
    assert_eq!(join_domain_names(&vec![]), "");
    assert_eq!(join_domain_names(&vec!["a".to_owned()]), "a");
    assert_eq!(join_domain_names(&vec!["a".to_owned(), "b".to_owned(), "c".to_owned()]), "a b c");
}

#[test]
fn test_wait_for_dns_records_not_fulfilled() {
    let wanted = vec!["127.0.0.1".to_owned()];
    let resolved = vec!["93.184.215.14".to_owned()];
    assert_eq!(dns_wait_decision(&wanted, &resolved, 0, 1), WaitDecision::Retry);
    assert_eq!(dns_wait_decision(&wanted, &resolved, 1, 1), WaitDecision::TimedOut);
}

#[test]
fn test_wait_for_dns_records_fulfilled() {
    let wanted = vec!["93.184.215.14".to_owned()];
    let resolved = vec!["2606:2800::1".to_owned(), "93.184.215.14".to_owned()];
    assert_eq!(dns_wait_decision(&wanted, &resolved, 5, 1), WaitDecision::Done);
    assert_eq!(dns_wait_decision(&vec![], &vec![], 0, 0), WaitDecision::Done);
}

#[test]
fn default_ingress_configuration() {
    let d = NginxStaticSiteIngressService::default();
    assert_eq!(d.certbot_command_name, "certbot");
    assert_eq!(d.nginx_sites_available, "/etc/nginx/sites-available");
    assert_eq!(d.nginx_sites_enabled, "/etc/nginx/sites-enabled");
    assert!(d.ip_v4_address.is_none() && d.ip_v6_address.is_none());
    assert_eq!(d.dns_wait_timeout_seconds, 30);
    assert_eq!(d.dns_fixed_wait_timeout_seconds, 10);
    assert!(d.dns_use_fixed_wait_timeout);
}
