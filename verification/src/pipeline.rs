//! The build pipeline as a state machine.
//!
//! The pipeline decides; its caller acts. [`Pipeline::next_action`] says what
//! to do next, the caller does it and reports how it ended, and
//! [`Pipeline::advance`] moves on or fails. Any step that ends with a
//! non-zero exit code is fatal: the pipeline keeps the captured output,
//! reports the matching error and from then on only ever says to abort.

use vstd::prelude::*;
use crate::backend::BackendFlagSet;
use crate::error::{DataStoreError, ErrorView};
use crate::header::{
    find_conditional_in, first_conditional, fully_expanded, leftover_error, leftover_message,
    stored,
};
use crate::orchestrator::{
    binding_model, binding_request, compile_command, compile_model, configure_command,
    configure_model, include_dir, include_path, link_directive_list, link_directives,
    preprocess_command, preprocess_model, staged_include_dir, staged_include_path,
    BindingRequest, BindingRequestView, BuildProfile, Command, CommandView,
};
use crate::text::texts;

verus! {

/// The step the pipeline is about to take, or how it ended.
#[derive(Clone, Copy, Debug, PartialEq, Eq, Structural)]
pub enum Stage {
    /// Find the engine's source root.
    Locate,
    /// Configure the native build.
    Configure,
    /// Compile the engine.
    Compile,
    /// Place a copy of the public headers next to the build output.
    StageHeaders,
    /// Announce the link directives.
    Announce,
    /// Expand the public header.
    Preprocess,
    /// Read the expanded header back and make sure nothing conditional is left in it.
    Inspect,
    /// Generate the binding module.
    Bind,
    /// Every step succeeded.
    Done,
    /// A step failed; nothing further is attempted.
    Failed,
}

/// How a step ended: its exit code and what it printed. A step that ran
/// inside the caller's process reports zero for success and anything else
/// for failure. The output of a successful [`Stage::Locate`] is the absolute
/// path of the source root; that of a successful [`Stage::Inspect`] is the
/// text of the expanded header.
#[derive(Debug, PartialEq, Eq)]
pub struct StepReport {
    pub exit_code: i32,
    pub output: String,
}

/// Mathematical model of a [`StepReport`].
pub struct ReportView {
    pub exit_code: i32,
    pub output: Seq<char>,
}

impl View for StepReport {
    type V = ReportView;

    open spec fn view(&self) -> ReportView {
        ReportView { exit_code: self.exit_code, output: self.output@ }
    }
}

/// What the caller is to do next.
#[derive(Debug, PartialEq, Eq)]
pub enum Action {
    /// Resolve the engine's source root to an absolute path and report it.
    Locate,
    /// Run a tool and report its exit code and captured output.
    Run(Command),
    /// Copy the directory `from` to `to`.
    CopyHeaders { from: String, to: String },
    /// Print these build directives, one per line.
    Emit(Vec<String>),
    /// Read this file and report its contents.
    ReadHeader(String),
    /// Generate the binding module.
    GenerateBindings(BindingRequest),
    /// The pipeline has finished; there is nothing left to do.
    Finish,
    /// The pipeline has failed; stop.
    Abort,
}

/// Mathematical model of an [`Action`].
pub enum ActionView {
    Locate,
    Run(CommandView),
    CopyHeaders { from: Seq<char>, to: Seq<char> },
    Emit(Seq<Seq<char>>),
    ReadHeader(Seq<char>),
    GenerateBindings(BindingRequestView),
    Finish,
    Abort,
}

impl View for Action {
    type V = ActionView;

    open spec fn view(&self) -> ActionView {
        match self {
            Action::Locate => ActionView::Locate,
            Action::Run(c) => ActionView::Run(c@),
            Action::CopyHeaders { from, to } => ActionView::CopyHeaders { from: from@, to: to@ },
            Action::Emit(lines) => ActionView::Emit(texts(lines@)),
            Action::ReadHeader(path) => ActionView::ReadHeader(path@),
            Action::GenerateBindings(r) => ActionView::GenerateBindings(r@),
            Action::Finish => ActionView::Finish,
            Action::Abort => ActionView::Abort,
        }
    }
}

/// One run of the build pipeline for one backend selection.
#[derive(Debug)]
pub struct Pipeline {
    flags: BackendFlagSet,
    profile: BuildProfile,
    jobs: usize,
    source_root: String,
    stage: Stage,
    failure: Option<DataStoreError>,
}

/// Mathematical model of a [`Pipeline`].
pub struct PipelineView {
    pub flags: BackendFlagSet,
    pub profile: BuildProfile,
    pub jobs: nat,
    /// The source root; empty until it has been located.
    pub source_root: Seq<char>,
    pub stage: Stage,
    /// The error the pipeline failed with, once it has failed.
    pub failure: Option<ErrorView>,
}

/// The number of steps between the start and a finished pipeline.
pub open spec fn step_count() -> nat {
    8
}

/// The stage reached after `n` successful steps.
pub open spec fn stage_at(n: nat) -> Stage {
    if n == 0 {
        Stage::Locate
    } else if n == 1 {
        Stage::Configure
    } else if n == 2 {
        Stage::Compile
    } else if n == 3 {
        Stage::StageHeaders
    } else if n == 4 {
        Stage::Announce
    } else if n == 5 {
        Stage::Preprocess
    } else if n == 6 {
        Stage::Inspect
    } else if n == 7 {
        Stage::Bind
    } else {
        Stage::Done
    }
}

/// How many steps must have succeeded for the pipeline to stand at `stage`.
pub open spec fn position(stage: Stage) -> nat
    recommends
        !(stage is Failed),
{
    match stage {
        Stage::Locate => 0,
        Stage::Configure => 1,
        Stage::Compile => 2,
        Stage::StageHeaders => 3,
        Stage::Announce => 4,
        Stage::Preprocess => 5,
        Stage::Inspect => 6,
        Stage::Bind => 7,
        Stage::Done => 8,
        Stage::Failed => 0,
    }
}

/// The error a failing step is reported as. Everything up to the link
/// directives is the native build's; header expansion and binding generation
/// have errors of their own. The captured output is carried unchanged.
pub open spec fn failure_of(stage: Stage, output: Seq<char>) -> ErrorView {
    match stage {
        Stage::Preprocess => ErrorView::Preprocess(output),
        Stage::Inspect => ErrorView::Preprocess(output),
        Stage::Bind => ErrorView::BindingGeneration(output),
        _ => ErrorView::Build(output),
    }
}

/// Why a report on `stage` is not accepted, if it is not. A non-zero exit
/// code fails any stage. The expanded header is also refused when a
/// conditional-compilation directive is left in it.
pub open spec fn rejection(stage: Stage, report: ReportView) -> Option<ErrorView> {
    if report.exit_code != 0 {
        Some(failure_of(stage, report.output))
    } else if stage is Inspect && !fully_expanded(stored(report.output)) {
        Some(
            ErrorView::Preprocess(
                leftover_message(first_conditional(stored(report.output), 0)),
            ),
        )
    } else {
        None
    }
}

/// The name of the file that holds the expanded header.
pub open spec fn expanded_header() -> Seq<char> {
    "wrapper.expanded.h"@
}

/// The directive that makes the build rerun when the wrapper header changes.
pub open spec fn rerun_directive() -> Seq<char> {
    "cargo:rerun-if-changed=wrapper.h"@
}

impl PipelineView {
    /// A pipeline stands at `Failed` exactly when it holds an error, and that
    /// error is a build-time error.
    pub open spec fn wf(self) -> bool {
        &&& self.stage is Failed <==> self.failure is Some
        &&& self.failure is Some ==> self.failure->Some_0.is_build_time()
    }

    /// A pipeline that has not taken a step yet.
    pub open spec fn start(flags: BackendFlagSet, profile: BuildProfile, jobs: nat) -> PipelineView {
        PipelineView {
            flags,
            profile,
            jobs,
            source_root: Seq::empty(),
            stage: Stage::Locate,
            failure: None,
        }
    }

    /// Whether the pipeline has come to an end, either way.
    pub open spec fn halted(self) -> bool {
        self.stage is Done || self.stage is Failed
    }

    /// The directives announced once the engine is compiled: the link
    /// directives, then the rerun directive.
    pub open spec fn directives(self) -> Seq<Seq<char>> {
        link_directive_list(self.flags, self.profile, self.source_root).push(rerun_directive())
    }

    /// What the caller is to do at the current stage.
    pub open spec fn action(self) -> ActionView {
        match self.stage {
            Stage::Locate => ActionView::Locate,
            Stage::Configure => ActionView::Run(
                configure_model(self.flags, self.profile, self.source_root),
            ),
            Stage::Compile => ActionView::Run(
                compile_model(self.profile, self.jobs, self.source_root),
            ),
            Stage::StageHeaders => ActionView::CopyHeaders {
                from: include_dir(self.source_root),
                to: staged_include_dir(self.profile, self.source_root),
            },
            Stage::Announce => ActionView::Emit(self.directives()),
            Stage::Preprocess => ActionView::Run(preprocess_model(self.source_root)),
            Stage::Inspect => ActionView::ReadHeader(expanded_header()),
            Stage::Bind => ActionView::GenerateBindings(binding_model(self.source_root)),
            Stage::Done => ActionView::Finish,
            Stage::Failed => ActionView::Abort,
        }
    }

    /// The error that a report is answered with, if any. A finished pipeline
    /// ignores reports; a failed one repeats its error.
    pub open spec fn verdict(self, report: ReportView) -> Option<ErrorView> {
        if self.stage is Failed {
            self.failure
        } else if self.stage is Done {
            None
        } else {
            rejection(self.stage, report)
        }
    }

    /// The pipeline after a report on the current stage's action.
    pub open spec fn after(self, report: ReportView) -> PipelineView {
        if self.halted() {
            self
        } else if rejection(self.stage, report) is Some {
            PipelineView {
                stage: Stage::Failed,
                failure: rejection(self.stage, report),
                ..self
            }
        } else if self.stage is Locate {
            PipelineView { stage: Stage::Configure, source_root: report.output, ..self }
        } else {
            PipelineView { stage: stage_at(position(self.stage) + 1), ..self }
        }
    }

    /// The pipeline after a sequence of reports, oldest first.
    pub open spec fn run(self, reports: Seq<ReportView>) -> PipelineView
        decreases reports.len(),
    {
        if reports.len() == 0 {
            self
        } else {
            self.run(reports.drop_last()).after(reports.last())
        }
    }
}

impl View for Pipeline {
    type V = PipelineView;

    closed spec fn view(&self) -> PipelineView {
        PipelineView {
            flags: self.flags,
            profile: self.profile,
            jobs: self.jobs as nat,
            source_root: self.source_root@,
            stage: self.stage,
            failure: if self.stage is Failed {
                match self.failure {
                    Some(e) => Some(e@),
                    None => None,
                }
            } else {
                None
            },
        }
    }
}

/// Asks `num_cpus::get` how many logical cores the running process may use.
/// The answer depends on the machine and on the moment; all that is relied
/// on is what the crate documents of every answer: it is at least one.
#[verifier::external_body]
fn host_cores() -> (cores: usize)
    ensures
        cores >= 1,
{
    num_cpus::get()
}

impl Pipeline {
    #[verifier::type_invariant]
    spec fn inv(self) -> bool {
        self.stage is Failed ==> self.failure is Some && self.failure->Some_0@.is_build_time()
    }

    /// A pipeline for the given selection and profile that compiles with
    /// `jobs` parallel jobs.
    pub fn new(flags: BackendFlagSet, profile: BuildProfile, jobs: usize) -> (pipeline: Pipeline)
        ensures
            pipeline@ == PipelineView::start(flags, profile, jobs as nat),
            pipeline@.wf(),
    {
        Pipeline {
            flags,
            profile,
            jobs,
            source_root: String::new(),
            stage: Stage::Locate,
            failure: None,
        }
    }

    /// A pipeline that compiles with one job per core of the host.
    pub fn for_host(flags: BackendFlagSet, profile: BuildProfile) -> (pipeline: Pipeline)
        ensures
            pipeline@ == PipelineView::start(flags, profile, pipeline@.jobs),
            pipeline@.jobs >= 1,
            pipeline@.wf(),
    {
        Pipeline::new(flags, profile, host_cores())
    }

    /// The current stage.
    pub fn stage(&self) -> (stage: Stage)
        ensures
            stage == self@.stage,
            self@.wf(),
    {
        proof {
            use_type_invariant(self);
        }
        self.stage
    }

    /// Whether the pipeline has come to an end, successfully or not.
    pub fn is_halted(&self) -> (halted: bool)
        ensures
            halted == self@.halted(),
    {
        match self.stage {
            Stage::Done => true,
            Stage::Failed => true,
            _ => false,
        }
    }

    /// The backend selection this pipeline builds.
    pub fn flags(&self) -> (flags: BackendFlagSet)
        ensures
            flags == self@.flags,
    {
        self.flags
    }

    /// The build profile.
    pub fn profile(&self) -> (profile: BuildProfile)
        ensures
            profile == self@.profile,
    {
        self.profile
    }

    /// The number of parallel compile jobs.
    pub fn jobs(&self) -> (jobs: usize)
        ensures
            jobs == self@.jobs,
    {
        self.jobs
    }

    /// The source root; empty until it has been located.
    pub fn source_root(&self) -> (root: &str)
        ensures
            root@ == self@.source_root,
    {
        self.source_root.as_str()
    }

    /// The error the pipeline failed with, if it has failed.
    pub fn failure(&self) -> (failure: Option<DataStoreError>)
        ensures
            failure is Some <==> self@.stage is Failed,
            failure is Some ==> Some(failure->Some_0@) == self@.failure,
            failure is None ==> self@.failure is None,
    {
        proof {
            use_type_invariant(self);
        }
        match self.stage {
            Stage::Failed => match &self.failure {
                Some(e) => Some(e.clone()),
                None => None,
            },
            _ => None,
        }
    }

    /// What the caller is to do next.
    pub fn next_action(&self) -> (action: Action)
        ensures
            action@ == self@.action(),
    {
        let root = self.source_root.as_str();
        match self.stage {
            Stage::Locate => Action::Locate,
            Stage::Configure => Action::Run(configure_command(self.flags, self.profile, root)),
            Stage::Compile => Action::Run(compile_command(self.profile, self.jobs, root)),
            Stage::StageHeaders => Action::CopyHeaders {
                from: include_path(root),
                to: staged_include_path(self.profile, root),
            },
            Stage::Announce => {
                let mut lines = link_directives(self.flags, self.profile, root);
                lines.push(String::from_str("cargo:rerun-if-changed=wrapper.h"));
                assert(texts(lines@) =~= self@.directives());
                Action::Emit(lines)
            },
            Stage::Preprocess => Action::Run(preprocess_command(root)),
            Stage::Inspect => Action::ReadHeader(String::from_str("wrapper.expanded.h")),
            Stage::Bind => Action::GenerateBindings(binding_request(root)),
            Stage::Done => Action::Finish,
            Stage::Failed => Action::Abort,
        }
    }

    /// Takes the report on the action of the current stage. An exit code of
    /// zero moves the pipeline to the next stage; any other exit code fails
    /// it, and the error carries the report's output as it is. The expanded
    /// header is accepted only if no conditional-compilation directive is
    /// left in it. A finished pipeline ignores the report; a failed one
    /// answers with its error again.
    pub fn advance(&mut self, report: StepReport) -> (result: Result<(), DataStoreError>)
        ensures
            final(self)@ == old(self)@.after(report@),
            final(self)@.wf(),
            result is Ok <==> old(self)@.verdict(report@) is None,
            result is Err ==> Some(result->Err_0@) == old(self)@.verdict(report@),
    {
        proof {
            use_type_invariant(&*self);
        }
        match self.stage {
            Stage::Done => {
                return Ok(());
            },
            Stage::Failed => {
                return match &self.failure {
                    Some(e) => Err(e.clone()),
                    None => Err(DataStoreError::Unknown),
                };
            },
            _ => {},
        }
        if report.exit_code != 0 {
            let error = match self.stage {
                Stage::Preprocess => DataStoreError::Preprocess(report.output),
                Stage::Inspect => DataStoreError::Preprocess(report.output),
                Stage::Bind => DataStoreError::BindingGeneration(report.output),
                _ => DataStoreError::Build(report.output),
            };
            self.failure = Some(error.clone());
            self.stage = Stage::Failed;
            return Err(error);
        }
        match self.stage {
            Stage::Locate => {
                self.source_root = report.output;
                self.stage = Stage::Configure;
            },
            Stage::Configure => {
                self.stage = Stage::Compile;
            },
            Stage::Compile => {
                self.stage = Stage::StageHeaders;
            },
            Stage::StageHeaders => {
                self.stage = Stage::Announce;
            },
            Stage::Announce => {
                self.stage = Stage::Preprocess;
            },
            Stage::Preprocess => {
                self.stage = Stage::Inspect;
            },
            Stage::Inspect => {
                match find_conditional_in(report.output.as_str()) {
                    Some(at) => {
                        let error = leftover_error(at);
                        self.failure = Some(error.clone());
                        self.stage = Stage::Failed;
                        return Err(error);
                    },
                    None => {
                        self.stage = Stage::Bind;
                    },
                }
            },
            _ => {
                self.stage = Stage::Done;
            },
        }
        Ok(())
    }
}

} // verus!
