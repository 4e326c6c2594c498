//! Ingress activation for a static site: DNS records for each domain name,
//! the wait for them to propagate, the reverse-proxy site configuration, the
//! link that enables it, and the certificate.
use crate::dns::{str_eq, AddressFamily, IpAddress};
use crate::pipeline::{step_views, texts, EnvVar, PipelineStep, StepView};
use vstd::prelude::*;
use vstd::string::*;

verus! {

#[verifier::external_type_specification]
#[verifier::external_body]
pub struct ExRenderError(handlebars::RenderError);

/// What the template engine makes of a site template and its three values:
/// the rendered text, or `None` where rendering fails.
pub uninterp spec fn rendered_site_config(
    template: Seq<char>,
    deployment_name: Seq<char>,
    disk_location: Seq<char>,
    domain_names: Seq<char>,
) -> Option<Seq<char>>;

/// Relies on handlebars' Registry::render_template: fills `template` with the
/// values `deployment_name`, `disk_location` and `domain_names`. Whether it
/// succeeds and the text it returns depend on these arguments alone: the
/// registry is a fresh one each time.
#[verifier::external_body]
fn render_site_config(
    template: &str,
    deployment_name: &str,
    disk_location: &str,
    domain_names: &str,
) -> (r: Result<String, handlebars::RenderError>)
    ensures
        r is Ok <==> rendered_site_config(template@, deployment_name@, disk_location@, domain_names@)
            is Some,
        r matches Ok(s) ==> Some(s@) == rendered_site_config(
            template@,
            deployment_name@,
            disk_location@,
            domain_names@,
        ),
{
    let mut data = std::collections::BTreeMap::new();
    data.insert("deployment_name", deployment_name);
    data.insert("disk_location", disk_location);
    data.insert("domain_names", domain_names);
    handlebars::Handlebars::new().render_template(template, &data)
}

/// The reverse-proxy site template.
pub const SITE_TEMPLATE: &'static str = "server {\n    listen 80;\n    listen [::]:80;\n    server_name {{domain_names}};\n    root {{disk_location}};\n    index index.html;\n\n    location / {\n        try_files $uri $uri/ =404;\n    }\n}\n";

/// How a static site is exposed: the certificate tool, the two site
/// directories, the addresses to publish, and how to wait for DNS.
pub struct NginxStaticSiteIngressService {
    pub certbot_command_name: String,
    pub nginx_sites_available: String,
    pub nginx_sites_enabled: String,
    pub ip_v4_address: Option<String>,
    pub ip_v6_address: Option<String>,
    pub dns_wait_timeout_seconds: u64,
    pub dns_fixed_wait_timeout_seconds: u64,
    pub dns_use_fixed_wait_timeout: bool,
}

impl Default for NginxStaticSiteIngressService {
    /// The stock nginx layout and certbot, no addresses, and a fixed wait of
    /// ten seconds (thirty when polling).
    fn default() -> (r: Self)
        ensures
            r.certbot_command_name@ == "certbot"@,
            r.nginx_sites_available@ == "/etc/nginx/sites-available"@,
            r.nginx_sites_enabled@ == "/etc/nginx/sites-enabled"@,
            r.ip_v4_address is None,
            r.ip_v6_address is None,
            r.dns_wait_timeout_seconds == 30,
            r.dns_fixed_wait_timeout_seconds == 10,
            r.dns_use_fixed_wait_timeout,
    {
        NginxStaticSiteIngressService {
            certbot_command_name: String::from_str("certbot"),
            nginx_sites_available: String::from_str("/etc/nginx/sites-available"),
            nginx_sites_enabled: String::from_str("/etc/nginx/sites-enabled"),
            ip_v4_address: None,
            ip_v6_address: None,
            dns_wait_timeout_seconds: 30,
            dns_fixed_wait_timeout_seconds: 10,
            dns_use_fixed_wait_timeout: true,
        }
    }
}

/// An ingress for static sites: the steps that expose a deployed site.
pub trait StaticSiteIngressService {
    /// The steps that expose `deployment_name`, served from `disk_location`,
    /// under `domain_names`.
    spec fn ingress_steps(
        &self,
        deployment_name: Seq<char>,
        disk_location: Seq<char>,
        domain_names: Seq<Seq<char>>,
    ) -> Seq<StepView>;

    /// The steps that expose `deployment_name`, served from `disk_location`,
    /// under each of `domain_names`.
    fn add_static_site_ingress(
        &self,
        deployment_name: &str,
        disk_location: &str,
        domain_names: &Vec<String>,
    ) -> (r: Vec<PipelineStep>)
        ensures
            step_views(r@) == self.ingress_steps(deployment_name@, disk_location@, texts(domain_names@)),
    ;
}

/// `ds` joined with single spaces.
pub open spec fn join_spaces(ds: Seq<Seq<char>>) -> Seq<char>
    decreases ds.len(),
{
    if ds.len() == 0 {
        Seq::empty()
    } else if ds.len() == 1 {
        ds[0]
    } else {
        join_spaces(ds.drop_last()) + " "@ + ds.last()
    }
}

/// `--domain d` for each `d` of `ds`, in order.
pub open spec fn domain_args(ds: Seq<Seq<char>>) -> Seq<Seq<char>>
    decreases ds.len(),
{
    if ds.len() == 0 {
        Seq::empty()
    } else {
        domain_args(ds.drop_last()) + seq!["--domain"@, ds.last()]
    }
}

/// The arguments of the certificate tool for `ds`.
pub open spec fn certbot_args(ds: Seq<Seq<char>>) -> Seq<Seq<char>> {
    seq!["--nginx"@, "-n"@, "--expand"@] + domain_args(ds)
}

/// The DNS steps for one domain name: a record for each configured address,
/// each announced; a notice when there is none.
pub open spec fn record_steps(svc: NginxStaticSiteIngressService, d: Seq<char>) -> Seq<StepView> {
    let v4 = match svc.ip_v4_address {
        Some(a) => seq![
            StepView::Notice("Setting DNS record for domain "@ + d + " to IPv4 address "@ + a@),
            StepView::SetDnsRecord { domain_name: d, family: AddressFamily::V4, address: a@ },
        ],
        None => Seq::empty(),
    };
    let v6 = match svc.ip_v6_address {
        Some(a) => seq![
            StepView::Notice("Setting DNS record for domain "@ + d + " to IPv6 address "@ + a@),
            StepView::SetDnsRecord { domain_name: d, family: AddressFamily::V6, address: a@ },
        ],
        None => Seq::empty(),
    };
    let none = if svc.ip_v4_address is None && svc.ip_v6_address is None {
        seq![StepView::Notice("No IP addresses configured. Not setting any records"@)]
    } else {
        Seq::empty()
    };
    v4 + v6 + none
}

/// The configured addresses, IPv4 first.
pub open spec fn configured_addresses(svc: NginxStaticSiteIngressService) -> Seq<Seq<char>> {
    let v4 = match svc.ip_v4_address {
        Some(a) => seq![a@],
        None => Seq::empty(),
    };
    let v6 = match svc.ip_v6_address {
        Some(a) => seq![a@],
        None => Seq::empty(),
    };
    v4 + v6
}

/// The wait for one domain name: none without addresses, else a fixed sleep
/// or a poll with the configured timeout.
pub open spec fn wait_steps(svc: NginxStaticSiteIngressService, d: Seq<char>) -> Seq<StepView> {
    if configured_addresses(svc).len() == 0 {
        Seq::empty()
    } else if svc.dns_use_fixed_wait_timeout {
        seq![StepView::Sleep { seconds: svc.dns_fixed_wait_timeout_seconds }]
    } else {
        seq![
            StepView::AwaitDns {
                domain_name: d,
                addresses: configured_addresses(svc),
                timeout_seconds: svc.dns_wait_timeout_seconds,
            },
        ]
    }
}

/// The record steps of every domain name of `ds`, in order.
pub open spec fn all_record_steps(svc: NginxStaticSiteIngressService, ds: Seq<Seq<char>>) -> Seq<
    StepView,
>
    decreases ds.len(),
{
    if ds.len() == 0 {
        Seq::empty()
    } else {
        all_record_steps(svc, ds.drop_last()) + record_steps(svc, ds.last())
    }
}

/// The wait steps of every domain name of `ds`, in order.
pub open spec fn all_wait_steps(svc: NginxStaticSiteIngressService, ds: Seq<Seq<char>>) -> Seq<
    StepView,
>
    decreases ds.len(),
{
    if ds.len() == 0 {
        Seq::empty()
    } else {
        all_wait_steps(svc, ds.drop_last()) + wait_steps(svc, ds.last())
    }
}

/// The file that holds the site configuration of `name`.
pub open spec fn site_file_name(name: Seq<char>) -> Seq<char> {
    name + ".conf"@
}

/// The step that writes the site configuration: the rendered text, or a
/// failure when rendering failed.
pub open spec fn config_step(name: Seq<char>, rendered: Option<Seq<char>>) -> StepView {
    match rendered {
        Some(text) => StepView::WriteSiteConfig { file_name: site_file_name(name), contents: text },
        None => StepView::Fail("Could not render the site configuration"@),
    }
}

/// The whole activation of `name` under `ds`, given what rendering gave.
pub open spec fn activation_steps(
    svc: NginxStaticSiteIngressService,
    name: Seq<char>,
    ds: Seq<Seq<char>>,
    rendered: Option<Seq<char>>,
) -> Seq<StepView> {
    all_record_steps(svc, ds) + seq![StepView::Notice("Waiting for DNS records"@)] + all_wait_steps(
        svc,
        ds,
    ) + seq![
        StepView::Notice("Configuring nginx"@),
        config_step(name, rendered),
        StepView::Notice("Enabling site through symlink"@),
        StepView::EnableSite { file_name: site_file_name(name) },
        StepView::Notice("Running certbot"@),
        StepView::RunCommand {
            program: svc.certbot_command_name@,
            args: certbot_args(ds),
            env: Seq::empty(),
            require_success: false,
        },
        StepView::Notice("Completed running certbot"@),
    ]
}

proof fn lemma_views_append(a: Seq<PipelineStep>, b: Seq<PipelineStep>)
    ensures
        step_views(a + b) == step_views(a) + step_views(b),
{
    assert(step_views(a + b) =~= step_views(a) + step_views(b));
}

/// Appends `more` to `out`.
fn append_steps(out: &mut Vec<PipelineStep>, more: Vec<PipelineStep>)
    ensures
        step_views(final(out)@) == step_views(old(out)@) + step_views(more@),
{
    let mut more = more;
    proof {
        lemma_views_append(out@, more@);
    }
    out.append(&mut more);
}

/// `a` followed by `b`.
fn concat(a: &str, b: &str) -> (r: String)
    ensures
        r@ == a@ + b@,
{
    let mut s = a.to_owned();
    s.append(b);
    s
}

impl NginxStaticSiteIngressService {
    /// The DNS steps for `d`.
    fn record_steps(&self, d: &String) -> (r: Vec<PipelineStep>)
        ensures
            step_views(r@) == record_steps(*self, d@),
    {
        let mut out: Vec<PipelineStep> = Vec::new();
        match &self.ip_v4_address {
            Some(a) => {
                let line = concat(concat(concat("Setting DNS record for domain ", d.as_str()).as_str(), " to IPv4 address ").as_str(), a.as_str());
                out.push(PipelineStep::Notice(line));
                out.push(PipelineStep::SetDnsRecord {
                    domain_name: d.clone(),
                    address: IpAddress { family: AddressFamily::V4, text: a.clone() },
                });
            },
            None => {},
        }
        match &self.ip_v6_address {
            Some(a) => {
                let line = concat(concat(concat("Setting DNS record for domain ", d.as_str()).as_str(), " to IPv6 address ").as_str(), a.as_str());
                out.push(PipelineStep::Notice(line));
                out.push(PipelineStep::SetDnsRecord {
                    domain_name: d.clone(),
                    address: IpAddress { family: AddressFamily::V6, text: a.clone() },
                });
            },
            None => {},
        }
        if self.ip_v4_address.is_none() && self.ip_v6_address.is_none() {
            out.push(PipelineStep::Notice(String::from_str("No IP addresses configured. Not setting any records")));
        }
        proof {
            assert(step_views(out@) =~= record_steps(*self, d@));
        }
        out
    }

    /// The configured addresses, IPv4 first.
    fn addresses(&self) -> (r: Vec<String>)
        ensures
            texts(r@) == configured_addresses(*self),
    {
        let mut out: Vec<String> = Vec::new();
        match &self.ip_v4_address {
            Some(a) => out.push(a.clone()),
            None => {},
        }
        match &self.ip_v6_address {
            Some(a) => out.push(a.clone()),
            None => {},
        }
        proof {
            assert(texts(out@) =~= configured_addresses(*self));
        }
        out
    }

    /// The wait steps for `d`.
    fn wait_steps(&self, d: &String) -> (r: Vec<PipelineStep>)
        ensures
            step_views(r@) == wait_steps(*self, d@),
    {
        let addresses = self.addresses();
        let mut out: Vec<PipelineStep> = Vec::new();
        if addresses.len() == 0 {
        } else if self.dns_use_fixed_wait_timeout {
            out.push(PipelineStep::Sleep { seconds: self.dns_fixed_wait_timeout_seconds });
        } else {
            out.push(PipelineStep::AwaitDns {
                domain_name: d.clone(),
                addresses,
                timeout_seconds: self.dns_wait_timeout_seconds,
            });
        }
        proof {
            assert(step_views(out@) =~= wait_steps(*self, d@));
        }
        out
    }

    /// The record steps and the wait steps of every domain name.
    fn domain_steps(&self, ds: &Vec<String>) -> (r: (Vec<PipelineStep>, Vec<PipelineStep>))
        ensures
            step_views(r.0@) == all_record_steps(*self, texts(ds@)),
            step_views(r.1@) == all_wait_steps(*self, texts(ds@)),
    {
        let mut records: Vec<PipelineStep> = Vec::new();
        let mut waits: Vec<PipelineStep> = Vec::new();
        let mut i: usize = 0;
        proof {
            assert(texts(ds@).subrange(0, 0) =~= Seq::<Seq<char>>::empty());
            assert(step_views(records@) =~= Seq::<StepView>::empty());
            assert(step_views(waits@) =~= Seq::<StepView>::empty());
        }
        while i < ds.len()
            invariant
                i <= ds@.len(),
                step_views(records@) == all_record_steps(*self, texts(ds@).subrange(0, i as int)),
                step_views(waits@) == all_wait_steps(*self, texts(ds@).subrange(0, i as int)),
            decreases ds@.len() - i,
        {
            let r = self.record_steps(&ds[i]);
            let w = self.wait_steps(&ds[i]);
            append_steps(&mut records, r);
            append_steps(&mut waits, w);
            proof {
                let t = texts(ds@).subrange(0, i + 1);
                assert(t.drop_last() =~= texts(ds@).subrange(0, i as int));
                assert(t.last() == ds@[i as int]@);
            }
            i = i + 1;
        }
        proof {
            assert(texts(ds@).subrange(0, ds@.len() as int) =~= texts(ds@));
        }
        (records, waits)
    }
}

/// The domain names joined with single spaces.
pub fn join_domain_names(ds: &Vec<String>) -> (r: String)
    ensures
        r@ == join_spaces(texts(ds@)),
{
    let mut out = String::new();
    let mut i: usize = 0;
    proof {
        assert(texts(ds@).subrange(0, 0) =~= Seq::<Seq<char>>::empty());
    }
    while i < ds.len()
        invariant
            i <= ds@.len(),
            out@ == join_spaces(texts(ds@).subrange(0, i as int)),
        decreases ds@.len() - i,
    {
        proof {
            let t = texts(ds@).subrange(0, i + 1);
            assert(t.drop_last() =~= texts(ds@).subrange(0, i as int));
        }
        if i > 0 {
            out.append(" ");
        }
        out.append(ds[i].as_str());
        proof {
            let t = texts(ds@).subrange(0, i + 1);
            if i == 0 {
                assert(out@ =~= t[0]);
            }
        }
        i = i + 1;
    }
    proof {
        assert(texts(ds@).subrange(0, ds@.len() as int) =~= texts(ds@));
    }
    out
}

/// The arguments of the certificate tool: non-interactive use of its nginx
/// plugin, expanding the certificate, with each domain name as a subject.
pub fn certbot_arguments(ds: &Vec<String>) -> (r: Vec<String>)
    ensures
        texts(r@) == certbot_args(texts(ds@)),
{
    let mut out: Vec<String> = Vec::new();
    out.push(String::from_str("--nginx"));
    out.push(String::from_str("-n"));
    out.push(String::from_str("--expand"));
    let mut i: usize = 0;
    proof {
        assert(texts(ds@).subrange(0, 0) =~= Seq::<Seq<char>>::empty());
        assert(texts(out@) =~= certbot_args(texts(ds@).subrange(0, 0)));
    }
    while i < ds.len()
        invariant
            i <= ds@.len(),
            texts(out@) == certbot_args(texts(ds@).subrange(0, i as int)),
        decreases ds@.len() - i,
    {
        let ghost before = out@;
        out.push(String::from_str("--domain"));
        out.push(ds[i].clone());
        proof {
            let t = texts(ds@).subrange(0, i + 1);
            assert(t.drop_last() =~= texts(ds@).subrange(0, i as int));
            assert(texts(out@) =~= texts(before) + seq!["--domain"@, ds@[i as int]@]);
            assert(certbot_args(t) =~= certbot_args(t.drop_last()) + seq!["--domain"@, t.last()]);
        }
        i = i + 1;
    }
    proof {
        assert(texts(ds@).subrange(0, ds@.len() as int) =~= texts(ds@));
    }
    out
}

/// The characters of an optional text.
pub open spec fn opt_text(t: Option<String>) -> Option<Seq<char>> {
    match t {
        Some(s) => Some(s@),
        None => None,
    }
}

impl NginxStaticSiteIngressService {
    /// The activation steps of `deployment_name` under `domain_names`, with
    /// the site configuration that rendering gave (`None` when it failed):
    /// the DNS records of every domain name, the waits, the configuration
    /// file, the link that enables it, and the certificate.
    pub fn steps_with_config(
        &self,
        deployment_name: &str,
        domain_names: &Vec<String>,
        rendered: Option<String>,
    ) -> (r: Vec<PipelineStep>)
        ensures
            step_views(r@) == activation_steps(
                *self,
                deployment_name@,
                texts(domain_names@),
                opt_text(rendered),
            ),
    {
        let (records, waits) = self.domain_steps(domain_names);
        let mut out: Vec<PipelineStep> = Vec::new();
        append_steps(&mut out, records);
        out.push(PipelineStep::Notice(String::from_str("Waiting for DNS records")));
        let ghost mid = out@;
        append_steps(&mut out, waits);
        let file_name = concat(deployment_name, ".conf");
        let config = match rendered {
            Some(text) => PipelineStep::WriteSiteConfig { file_name: file_name.clone(), contents: text },
            None => PipelineStep::Fail(String::from_str("Could not render the site configuration")),
        };
        let args = certbot_arguments(domain_names);
        let env: Vec<EnvVar> = Vec::new();
        proof {
            assert(env@.map_values(|e: EnvVar| (e.name@, e.value@)) =~= Seq::<(Seq<char>, Seq<char>)>::empty());
        }
        let tail = vec![
            PipelineStep::Notice(String::from_str("Configuring nginx")),
            config,
            PipelineStep::Notice(String::from_str("Enabling site through symlink")),
            PipelineStep::EnableSite { file_name },
            PipelineStep::Notice(String::from_str("Running certbot")),
            PipelineStep::RunCommand {
                program: self.certbot_command_name.clone(),
                args,
                env,
                require_success: false,
            },
            PipelineStep::Notice(String::from_str("Completed running certbot")),
        ];
        proof {
            assert(step_views(tail@) =~= seq![
                StepView::Notice("Configuring nginx"@),
                config_step(deployment_name@, opt_text(rendered)),
                StepView::Notice("Enabling site through symlink"@),
                StepView::EnableSite { file_name: site_file_name(deployment_name@) },
                StepView::Notice("Running certbot"@),
                StepView::RunCommand {
                    program: self.certbot_command_name@,
                    args: certbot_args(texts(domain_names@)),
                    env: Seq::empty(),
                    require_success: false,
                },
                StepView::Notice("Completed running certbot"@),
            ]);
            assert(step_views(mid) =~= step_views(mid.drop_last()) + seq![StepView::Notice("Waiting for DNS records"@)]);
        }
        append_steps(&mut out, tail);
        out
    }

    /// The activation steps of `deployment_name`, served from
    /// `disk_location`, under `domain_names`. The site configuration is the
    /// site template filled with the name, the location and the domain
    /// names joined by spaces; where rendering fails, the step that would
    /// write it fails instead.
    pub fn activation_plan(
        &self,
        deployment_name: &str,
        disk_location: &str,
        domain_names: &Vec<String>,
    ) -> (r: Vec<PipelineStep>)
        ensures
            step_views(r@) == site_activation(*self, deployment_name@, disk_location@, texts(domain_names@)),
    {
        let joined = join_domain_names(domain_names);
        let rendered = match render_site_config(SITE_TEMPLATE, deployment_name, disk_location, joined.as_str()) {
            Ok(text) => Some(text),
            Err(_) => None,
        };
        self.steps_with_config(deployment_name, domain_names, rendered)
    }
}

/// The activation of `name`, served from `location`, under `ds`: the site
/// configuration is the site template rendered with the name, the location
/// and the domain names joined by spaces.
pub open spec fn site_activation(
    svc: NginxStaticSiteIngressService,
    name: Seq<char>,
    location: Seq<char>,
    ds: Seq<Seq<char>>,
) -> Seq<StepView> {
    activation_steps(svc, name, ds, rendered_site_config(SITE_TEMPLATE@, name, location, join_spaces(ds)))
}

impl StaticSiteIngressService for NginxStaticSiteIngressService {
    open spec fn ingress_steps(
        &self,
        deployment_name: Seq<char>,
        disk_location: Seq<char>,
        domain_names: Seq<Seq<char>>,
    ) -> Seq<StepView> {
        site_activation(*self, deployment_name, disk_location, domain_names)
    }

    fn add_static_site_ingress(
        &self,
        deployment_name: &str,
        disk_location: &str,
        domain_names: &Vec<String>,
    ) -> (r: Vec<PipelineStep>) {
        self.activation_plan(deployment_name, disk_location, domain_names)
    }
}

/// What to do about the link that enables a site.
#[derive(PartialEq, Eq, Structural, Clone, Copy, Debug)]
pub enum LinkAction {
    /// The link is there: leave it.
    Keep,
    /// The link is missing: create it.
    Create,
}

/// The link that enables a site is kept where it exists and created where
/// it is missing.
pub open spec fn link_action_for(link_exists: bool) -> LinkAction {
    if link_exists {
        LinkAction::Keep
    } else {
        LinkAction::Create
    }
}

/// The link that enables a site is created only where it is missing, so that
/// enabling a site again succeeds.
pub fn site_link_action(link_exists: bool) -> (r: LinkAction)
    ensures
        r == link_action_for(link_exists),
{
    if link_exists {
        LinkAction::Keep
    } else {
        LinkAction::Create
    }
}

/// Where a poll for DNS propagation stands.
#[derive(PartialEq, Eq, Structural, Clone, Copy, Debug)]
pub enum WaitDecision {
    /// Every wanted address resolves.
    Done,
    /// Not yet: resolve again.
    Retry,
    /// Not yet, and the time is up.
    TimedOut,
}

/// Every text of `wanted` is among `resolved`.
pub open spec fn all_resolved(wanted: Seq<Seq<char>>, resolved: Seq<Seq<char>>) -> bool {
    forall|i: int| 0 <= i < wanted.len() ==> resolved.contains(#[trigger] wanted[i])
}

/// Whether `t` is among `v`.
fn contains_text(v: &Vec<String>, t: &String) -> (r: bool)
    ensures
        r == texts(v@).contains(t@),
{
    let mut i: usize = 0;
    while i < v.len()
        invariant
            i <= v@.len(),
            forall|j: int| 0 <= j < i ==> v@[j]@ != t@,
        decreases v@.len() - i,
    {
        if str_eq(v[i].as_str(), t.as_str()) {
            proof {
                assert(texts(v@)[i as int] == t@);
            }
            return true;
        }
        i = i + 1;
    }
    proof {
        if texts(v@).contains(t@) {
            let j = choose|j: int| 0 <= j < texts(v@).len() && texts(v@)[j] == t@;
            assert(v@[j]@ == t@);
        }
    }
    false
}

/// The decision after one resolution of a domain name that should resolve
/// to `wanted`: done once every wanted address is among `resolved`, else
/// timed out once `elapsed_seconds` has reached `timeout_seconds`, else try
/// again.
pub fn dns_wait_decision(
    wanted: &Vec<String>,
    resolved: &Vec<String>,
    elapsed_seconds: u64,
    timeout_seconds: u64,
) -> (r: WaitDecision)
    ensures
        r == (if all_resolved(texts(wanted@), texts(resolved@)) {
            WaitDecision::Done
        } else if elapsed_seconds >= timeout_seconds {
            WaitDecision::TimedOut
        } else {
            WaitDecision::Retry
        }),
{
    let mut i: usize = 0;
    let mut all = true;
    while i < wanted.len()
        invariant
            i <= wanted@.len(),
            all == (forall|j: int| 0 <= j < i ==> texts(resolved@).contains(#[trigger] texts(wanted@)[j])),
        decreases wanted@.len() - i,
    {
        let found = contains_text(resolved, &wanted[i]);
        if !found {
            all = false;
        }
        proof {
            assert(texts(wanted@)[i as int] == wanted@[i as int]@);
            assert(all == (forall|j: int| 0 <= j < i + 1 ==> texts(resolved@).contains(#[trigger] texts(wanted@)[j])));
        }
        i = i + 1;
    }
    if all {
        WaitDecision::Done
    } else if elapsed_seconds >= timeout_seconds {
        WaitDecision::TimedOut
    } else {
        WaitDecision::Retry
    }
}

/// No step of the DNS part of an activation is a planned failure.
proof fn lemma_domain_steps_never_fail(svc: NginxStaticSiteIngressService, ds: Seq<Seq<char>>)
    ensures
        forall|i: int|
            0 <= i < all_record_steps(svc, ds).len() ==> !(#[trigger] all_record_steps(svc, ds)[i] is Fail),
        forall|i: int|
            0 <= i < all_wait_steps(svc, ds).len() ==> !(#[trigger] all_wait_steps(svc, ds)[i] is Fail),
    decreases ds.len(),
{
    if ds.len() > 0 {
        lemma_domain_steps_never_fail(svc, ds.drop_last());
        let r = record_steps(svc, ds.last());
        let w = wait_steps(svc, ds.last());
        assert forall|i: int| 0 <= i < r.len() implies !(#[trigger] r[i] is Fail) by {}
        assert forall|i: int| 0 <= i < w.len() implies !(#[trigger] w[i] is Fail) by {}
    }
}

/// One activation, its rendering having succeeded: it writes the
/// configuration file with the text rendered from its own values, the step
/// that enables the site comes two steps later, and no step is planned to
/// fail.
pub proof fn lemma_activation_writes_current_config(
    svc: NginxStaticSiteIngressService,
    name: Seq<char>,
    location: Seq<char>,
    ds: Seq<Seq<char>>,
)
    requires
        rendered_site_config(SITE_TEMPLATE@, name, location, join_spaces(ds)) is Some,
    ensures
        ({
            let text = rendered_site_config(SITE_TEMPLATE@, name, location, join_spaces(ds)).unwrap();
            let steps = site_activation(svc, name, location, ds);
            let k = all_record_steps(svc, ds).len() + 1 + all_wait_steps(svc, ds).len() + 1int;
            &&& steps[k] == StepView::WriteSiteConfig { file_name: site_file_name(name), contents: text }
            &&& steps[k + 2] == StepView::EnableSite { file_name: site_file_name(name) }
            &&& forall|i: int| 0 <= i < steps.len() ==> !(#[trigger] steps[i] is Fail)
        }),
{
    lemma_domain_steps_never_fail(svc, ds);
    let steps = site_activation(svc, name, location, ds);
    let r = all_record_steps(svc, ds);
    let w = all_wait_steps(svc, ds);
    assert forall|i: int| 0 <= i < steps.len() implies !(#[trigger] steps[i] is Fail) by {
        if i < r.len() {
            assert(steps[i] == r[i]);
        } else if i < r.len() + 1 {
        } else if i < r.len() + 1 + w.len() {
            assert(steps[i] == w[i - r.len() - 1]);
        }
    }
}

/// Activating a site a second time, from `location2` under `ds2`, plans the
/// same enabling step on the same file as the first activation and writes
/// that file with the text rendered from the second activation's values, not
/// the first's. Enabling keeps a link that is already there, so the second
/// activation does not fail on the link the first one made.
pub proof fn lemma_reactivation(
    svc: NginxStaticSiteIngressService,
    name: Seq<char>,
    location1: Seq<char>,
    ds1: Seq<Seq<char>>,
    location2: Seq<char>,
    ds2: Seq<Seq<char>>,
)
    requires
        rendered_site_config(SITE_TEMPLATE@, name, location1, join_spaces(ds1)) is Some,
        rendered_site_config(SITE_TEMPLATE@, name, location2, join_spaces(ds2)) is Some,
    ensures
        ({
            let first = svc.ingress_steps(name, location1, ds1);
            let second = svc.ingress_steps(name, location2, ds2);
            let k1 = all_record_steps(svc, ds1).len() + 1 + all_wait_steps(svc, ds1).len() + 1int;
            let k2 = all_record_steps(svc, ds2).len() + 1 + all_wait_steps(svc, ds2).len() + 1int;
            &&& second[k2] == StepView::WriteSiteConfig {
                file_name: site_file_name(name),
                contents: rendered_site_config(SITE_TEMPLATE@, name, location2, join_spaces(ds2)).unwrap(),
            }
            &&& first[k1 + 2] == second[k2 + 2]
            &&& second[k2 + 2] == StepView::EnableSite { file_name: site_file_name(name) }
            &&& forall|i: int| 0 <= i < second.len() ==> !(#[trigger] second[i] is Fail)
            &&& link_action_for(true) == LinkAction::Keep
        }),
{
    lemma_activation_writes_current_config(svc, name, location1, ds1);
    lemma_activation_writes_current_config(svc, name, location2, ds2);
}

} // verus!
