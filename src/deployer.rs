//! Deployers: for each deployment type, the steps that deploy a manifest.
use crate::ingress::{site_activation, NginxStaticSiteIngressService};
use crate::pipeline::{step_views, texts, EnvVar, PipelineStep, StepView};
use vstd::prelude::*;
use vstd::string::*;

verus! {

/// A deployment request: the deployment's name, its type, and the domain
/// names it is served under.
pub struct Manifest {
    pub name: String,
    pub deployment_type: String,
    pub domain_names: Vec<String>,
}

/// A deployment pipeline for one deployment type.
pub trait Deployer {
    /// The steps that deploy `manifest` from the artifact at
    /// `artifact_location`.
    spec fn planned_steps(&self, manifest: Manifest, artifact_location: Seq<char>) -> Seq<StepView>;

    /// The steps that deploy `manifest` from the artifact at
    /// `artifact_location`.
    fn deployment_steps(&self, manifest: &Manifest, artifact_location: &str) -> (r: Vec<PipelineStep>)
        ensures
            step_views(r@) == self.planned_steps(*manifest, artifact_location@),
    ;
}

/// A deployer that a registry files under its deployment type.
pub trait RegisterDeployment: Deployer {
    /// The deployment type that this deployer serves, as characters.
    spec fn registry_key() -> Seq<char>;

    /// The deployment type that this deployer serves.
    fn deployment_type() -> (r: &'static str)
        ensures
            r@ == Self::registry_key(),
    ;
}

/// The deployment type that the static-site deployer serves.
pub open spec fn static_site_type() -> Seq<char> {
    "static-site"@
}

/// The variable that carries the deployment's name to the build script.
pub const DEPLOYMENT_NAME: &'static str = "DEPLOYMENT_NAME";

/// The variable that carries the artifact's location to the build script.
pub const ARTIFACT_LOCATION: &'static str = "ARTIFACT_LOCATION";

/// Deploys a static site: runs the build script of the scripts directory,
/// then activates the ingress of the site.
pub struct StaticSiteDeployer {
    pub scripts_path: String,
    pub ingress_service: NginxStaticSiteIngressService,
}

/// The build step: the static-site script of `scripts`, given the name and
/// the artifact location in its environment; it must exit successfully.
pub open spec fn build_step(scripts: Seq<char>, name: Seq<char>, artifact: Seq<char>) -> StepView {
    StepView::RunCommand {
        program: scripts + "/static_site.sh"@,
        args: Seq::empty(),
        env: seq![("DEPLOYMENT_NAME"@, name), ("ARTIFACT_LOCATION"@, artifact)],
        require_success: true,
    }
}

/// The steps of a static-site deployment: the build step, then the
/// activation of the site.
pub open spec fn static_site_steps(d: StaticSiteDeployer, m: Manifest, artifact: Seq<char>) -> Seq<
    StepView,
> {
    seq![build_step(d.scripts_path@, m.name@, artifact)] + site_activation(
        d.ingress_service,
        m.name@,
        artifact,
        texts(m.domain_names@),
    )
}

impl StaticSiteDeployer {
    /// A static-site deployer with the scripts directory `scripts_path`.
    pub fn new(scripts_path: String, ingress_service: NginxStaticSiteIngressService) -> (r: Self)
        ensures
            r.scripts_path == scripts_path,
            r.ingress_service == ingress_service,
    {
        StaticSiteDeployer { scripts_path, ingress_service }
    }

    /// The steps that deploy `manifest` from `artifact_location`.
    pub fn plan(&self, manifest: &Manifest, artifact_location: &str) -> (r: Vec<PipelineStep>)
        ensures
            step_views(r@) == static_site_steps(*self, *manifest, artifact_location@),
    {
        let mut program = self.scripts_path.clone();
        program.append("/static_site.sh");
        let env = vec![
            EnvVar { name: String::from_str(DEPLOYMENT_NAME), value: manifest.name.clone() },
            EnvVar { name: String::from_str(ARTIFACT_LOCATION), value: artifact_location.to_owned() },
        ];
        let args: Vec<String> = Vec::new();
        proof {
            reveal_strlit("DEPLOYMENT_NAME");
            reveal_strlit("ARTIFACT_LOCATION");
            assert(texts(args@) =~= Seq::<Seq<char>>::empty());
            assert(env@.map_values(|e: EnvVar| (e.name@, e.value@)) =~= seq![
                ("DEPLOYMENT_NAME"@, manifest.name@),
                ("ARTIFACT_LOCATION"@, artifact_location@),
            ]);
        }
        let build = PipelineStep::RunCommand { program, args, env, require_success: true };
        let mut out = vec![build];
        let mut rest = self.ingress_service.activation_plan(
            manifest.name.as_str(),
            artifact_location,
            &manifest.domain_names,
        );
        let ghost first = out@;
        let ghost more = rest@;
        out.append(&mut rest);
        proof {
            assert(first[0]@ == build_step(self.scripts_path@, manifest.name@, artifact_location@));
            assert(step_views(out@) =~= seq![first[0]@] + step_views(more));
        }
        out
    }
}

impl Deployer for StaticSiteDeployer {
    open spec fn planned_steps(&self, manifest: Manifest, artifact_location: Seq<char>) -> Seq<StepView> {
        static_site_steps(*self, manifest, artifact_location)
    }

    fn deployment_steps(&self, manifest: &Manifest, artifact_location: &str) -> (r: Vec<PipelineStep>) {
        self.plan(manifest, artifact_location)
    }
}

impl RegisterDeployment for StaticSiteDeployer {
    open spec fn registry_key() -> Seq<char> {
        static_site_type()
    }

    fn deployment_type() -> (r: &'static str) {
        proof {
            reveal_strlit("static-site");
        }
        "static-site"
    }
}

} // verus!
