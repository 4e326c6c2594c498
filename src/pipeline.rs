//! The steps of a deployment and the run that performs them in order.
//!
//! A deployment is planned up front as a list of steps. The caller performs
//! each step (a command, a DNS record, a wait, a file) and reports how it
//! went; the first failure ends the run and no later step is handed out.
use crate::dns::IpAddress;
use vstd::prelude::*;
use vstd::string::*;

verus! {

/// An environment variable given to a command.
pub struct EnvVar {
    pub name: String,
    pub value: String,
}

/// One step of a deployment.
pub enum PipelineStep {
    /// Run `program` with `args` and `env`; when `require_success` holds, an
    /// exit status other than success fails the step.
    RunCommand { program: String, args: Vec<String>, env: Vec<EnvVar>, require_success: bool },
    /// Write `text` as a line to the information stream.
    Notice(String),
    /// Reconcile the DNS record of `domain_name` for `address`.
    SetDnsRecord { domain_name: String, address: IpAddress },
    /// Wait a fixed number of seconds.
    Sleep { seconds: u64 },
    /// Poll resolution of `domain_name` until it yields every address of
    /// `addresses`; fail after `timeout_seconds`.
    AwaitDns { domain_name: String, addresses: Vec<String>, timeout_seconds: u64 },
    /// Write `contents` to `file_name` in the sites-available directory.
    WriteSiteConfig { file_name: String, contents: String },
    /// Link `file_name` of sites-available into sites-enabled, unless the
    /// link is already there.
    EnableSite { file_name: String },
    /// Fail with `reason`.
    Fail(String),
}

/// A step, with every text as its characters.
pub enum StepView {
    RunCommand {
        program: Seq<char>,
        args: Seq<Seq<char>>,
        env: Seq<(Seq<char>, Seq<char>)>,
        require_success: bool,
    },
    Notice(Seq<char>),
    SetDnsRecord { domain_name: Seq<char>, family: crate::dns::AddressFamily, address: Seq<char> },
    Sleep { seconds: u64 },
    AwaitDns { domain_name: Seq<char>, addresses: Seq<Seq<char>>, timeout_seconds: u64 },
    WriteSiteConfig { file_name: Seq<char>, contents: Seq<char> },
    EnableSite { file_name: Seq<char> },
    Fail(Seq<char>),
}

/// The characters of each string of `v`.
pub open spec fn texts(v: Seq<String>) -> Seq<Seq<char>> {
    v.map_values(|s: String| s@)
}

impl View for PipelineStep {
    type V = StepView;

    open spec fn view(&self) -> StepView {
        match self {
            PipelineStep::RunCommand { program, args, env, require_success } => StepView::RunCommand {
                program: program@,
                args: texts(args@),
                env: env@.map_values(|e: EnvVar| (e.name@, e.value@)),
                require_success: *require_success,
            },
            PipelineStep::Notice(t) => StepView::Notice(t@),
            PipelineStep::SetDnsRecord { domain_name, address } => StepView::SetDnsRecord {
                domain_name: domain_name@,
                family: address.family,
                address: address.text@,
            },
            PipelineStep::Sleep { seconds } => StepView::Sleep { seconds: *seconds },
            PipelineStep::AwaitDns { domain_name, addresses, timeout_seconds } => StepView::AwaitDns {
                domain_name: domain_name@,
                addresses: texts(addresses@),
                timeout_seconds: *timeout_seconds,
            },
            PipelineStep::WriteSiteConfig { file_name, contents } => StepView::WriteSiteConfig {
                file_name: file_name@,
                contents: contents@,
            },
            PipelineStep::EnableSite { file_name } => StepView::EnableSite { file_name: file_name@ },
            PipelineStep::Fail(t) => StepView::Fail(t@),
        }
    }
}

/// The views of a list of steps.
pub open spec fn step_views(v: Seq<PipelineStep>) -> Seq<StepView> {
    v.map_values(|s: PipelineStep| s@)
}

/// How a command step went, given how the command exited: it fails only
/// where it must succeed and did not, with a line naming the program and its
/// exit status.
pub fn command_outcome(
    program: &str,
    require_success: bool,
    exited_successfully: bool,
    status: &str,
) -> (r: Result<(), String>)
    ensures
        r is Err <==> (require_success && !exited_successfully),
        r matches Err(e) ==> e@ == "Command "@ + program@ + " exited with status "@ + status@,
{
    if require_success && !exited_successfully {
        let mut e = String::from_str("Command ");
        e.append(program);
        e.append(" exited with status ");
        e.append(status);
        Err(e)
    } else {
        Ok(())
    }
}

/// A deployment's steps and how far their performance has come.
pub struct DeploymentRun {
    steps: Vec<PipelineStep>,
    position: usize,
    failure: Option<String>,
}

impl DeploymentRun {
    /// The planned steps.
    pub closed spec fn planned(&self) -> Seq<StepView> {
        step_views(self.steps@)
    }

    /// How many steps have succeeded.
    pub closed spec fn done(&self) -> nat {
        self.position as nat
    }

    /// Why the run failed, once a step has failed.
    pub closed spec fn failure(&self) -> Option<Seq<char>> {
        match self.failure {
            Some(f) => Some(f@),
            None => None,
        }
    }

    /// The run is consistent: no more steps done than planned.
    pub closed spec fn wf(&self) -> bool {
        self.position <= self.steps@.len()
    }

    /// Whether the run is over: every step succeeded, or one failed.
    pub open spec fn is_over(&self) -> bool {
        self.failure() is Some || self.done() == self.planned().len()
    }

    /// A run of `steps`, none performed yet.
    pub fn new(steps: Vec<PipelineStep>) -> (r: Self)
        ensures
            r.wf(),
            r.planned() == step_views(steps@),
            r.done() == 0,
            r.failure() is None,
    {
        DeploymentRun { steps, position: 0, failure: None }
    }

    /// The step to perform next; `None` once the run is over.
    pub fn next_step(&self) -> (r: Option<&PipelineStep>)
        requires
            self.wf(),
        ensures
            self.is_over() <==> r is None,
            r matches Some(s) ==> s@ == self.planned()[self.done() as int],
    {
        if self.failure.is_some() || self.position >= self.steps.len() {
            None
        } else {
            Some(&self.steps[self.position])
        }
    }

    /// Records how the step that `next_step` handed out went. A success
    /// moves on to the following step; a failure ends the run with its
    /// reason. Over a run that is over it changes nothing.
    pub fn record(&mut self, outcome: Result<(), String>)
        requires
            old(self).wf(),
        ensures
            final(self).wf(),
            final(self).planned() == old(self).planned(),
            old(self).is_over() ==> final(self).done() == old(self).done() && final(self).failure()
                == old(self).failure(),
            !old(self).is_over() ==> match outcome {
                Ok(_) => final(self).done() == old(self).done() + 1 && final(self).failure() is None,
                Err(e) => final(self).done() == old(self).done() && final(self).failure() == Some(
                    e@,
                ),
            },
    {
        if self.failure.is_some() || self.position >= self.steps.len() {
            return;
        }
        match outcome {
            Ok(_) => {
                self.position = self.position + 1;
            },
            Err(e) => {
                self.failure = Some(e);
            },
        }
    }

    /// The last line of the deployment's log, once the run is over:
    /// `Ok` with the success line for the information stream, or `Err` with
    /// the failure line for the error stream.
    pub fn final_line(&self) -> (r: Result<String, String>)
        ensures
            self.failure() is None ==> (r matches Ok(l) && l@ == "Deployment succeeded"@),
            self.failure() matches Some(f) ==> (r matches Err(l) && l@ == "Deployment failed: "@
                + f),
    {
        match &self.failure {
            None => Ok(String::from_str("Deployment succeeded")),
            Some(f) => {
                let mut l = String::from_str("Deployment failed: ");
                l.append(f.as_str());
                Err(l)
            },
        }
    }
}

} // verus!
