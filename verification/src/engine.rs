//! The lifecycle engine: one claim-execute-report-cleanup cycle after
//! another, as a state machine from the previous action's outcome to the
//! next action.
//!
//! The engine performs no I/O. The caller performs each returned [`Action`]
//! (a control-plane call, a staging plan, a backend invocation) and hands
//! the outcome back as the next [`Event`]. Every failure event is fatal:
//! the engine halts and answers every further event with [`Action::Halt`],
//! mirroring the platform's policy that no error is recovered from and no
//! partial state is rolled back, except the final cleanup, which only runs
//! on the success path.

use vstd::prelude::*;
use vstd::string::*;
use crate::config::AgentConfig;
use crate::config::spec_job_execution_input_path;
use crate::config::spec_job_execution_output_path;
use crate::config::spec_job_execution_path;
use crate::config::spec_runtime_path;
use crate::dispatch::get_wasm_file_in_dir;
use crate::dispatch::run_wasmer;
use crate::dispatch::spec_first_wasm;
use crate::dispatch::spec_wasmer_args;
use crate::harvest::CreateArtifactDTO;
use crate::harvest::CreateArtifactDTOView;
use crate::harvest::HarvestStep;
use crate::harvest::HarvestStepView;
use crate::harvest::harvest_tasks;
use crate::harvest::prepare_output_artifacts;
use crate::harvest::spec_artifact_requests;
use crate::harvest::spec_harvest_task_list;
use crate::model::AgentError;
use crate::model::HostStatus;
use crate::model::Job;
use crate::model::JobExecution;
use crate::model::JobExecutionStatus;
use crate::model::JobExecutionView;
use crate::model::JobView;
use crate::model::PlatformExecutionType;
use crate::model::Runtime;
use crate::model::RuntimeView;
use crate::staging::StagingStep;
use crate::staging::StagingStepView;
use crate::staging::prepare_input_artifacts;
use crate::staging::prepare_runtime;
use crate::staging::spec_input_staging_tasks;
use crate::staging::spec_runtime_staging_steps;
use crate::status::pending_execution_filter;
use crate::status::spec_pending_filter;

verus! {

/// Where the engine stands inside a cycle: what it last asked the caller to
/// do and is waiting to hear about.
#[derive(Clone, Copy, PartialEq, Eq, Structural, Debug)]
pub enum Phase {
    /// Fresh engine; nothing reported yet.
    Start,
    /// An Idle report is underway.
    AwaitIdleAck,
    /// A claim query is underway.
    AwaitPendingList,
    /// A poll-interval sleep is underway.
    Sleeping,
    /// The claimed execution's job is being fetched.
    AwaitJob,
    /// The job's runtime descriptor is being fetched.
    AwaitRuntime,
    /// A Busy report is underway.
    AwaitBusyAck,
    /// The Execution status report is underway.
    AwaitExecutionStatusAck,
    /// The input and output staging directories are being created.
    AwaitDirsCreated,
    /// The runtime staging plan is being executed.
    AwaitRuntimeStaged,
    /// The input staging tasks are running concurrently.
    AwaitInputsStaged,
    /// The runtime directory is being listed to locate the module.
    AwaitRuntimeDirList,
    /// The backend process is running.
    AwaitBackendExit,
    /// The PendingArtifactUpload status report is underway.
    AwaitUploadStatusAck,
    /// The output directory is being listed.
    AwaitOutputList,
    /// One artifact per output file is being registered.
    AwaitArtifactsRegistered,
    /// The harvest tasks are running concurrently.
    AwaitHarvestDone,
    /// The Completed status report is underway.
    AwaitCompletedAck,
    /// The staging tree is being removed.
    AwaitCleanup,
    /// A fatal failure was seen; the engine answers nothing else.
    Halted,
}

/// The outcome of the previous action, handed back by the caller.
pub enum Event {
    /// First event ever handed to a fresh engine.
    Init,
    /// The previous action succeeded (reports, staging, sleep, cleanup).
    Acked,
    /// Result of the claim query.
    PendingExecutions(Vec<JobExecution>),
    /// The fetched job descriptor.
    JobFetched(Job),
    /// The fetched runtime descriptor.
    RuntimeFetched(Runtime),
    /// The entries of the staged runtime's directory.
    RuntimeDirListed(Vec<String>),
    /// Whether the backend process exited successfully.
    BackendExited(bool),
    /// The files found in the execution's output directory.
    OutputFilesListed(Vec<String>),
    /// The ids of the freshly registered artifacts, one per output file,
    /// in the files' order.
    ArtifactsRegistered(Vec<String>),
    /// The previous action failed; the reason says at which stage.
    Failed(AgentError),
}

/// What the engine asks the caller to do next.
pub enum Action {
    /// Report the host's status to the control plane.
    ReportHostStatus(HostStatus),
    /// Query executions matching the key/value filter; answer with
    /// `PendingExecutions`.
    QueryPendingExecutions(Vec<(String, String)>),
    /// Sleep this many seconds, then answer `Acked`.
    Sleep(u64),
    /// Fetch the job with this id; answer with `JobFetched`.
    FetchJob(String),
    /// Fetch the runtime with this id; answer with `RuntimeFetched`.
    FetchRuntime(String),
    /// Report this execution's status to the control plane.
    ReportJobExecutionStatus(String, JobExecutionStatus),
    /// Create these directories (and missing parents); answer `Acked`.
    CreateDirs(Vec<String>),
    /// Execute the runtime staging plan in order; answer `Acked`.
    StageRuntime(Vec<StagingStep>),
    /// Run every staging task concurrently and join them all; answer
    /// `Acked` only when every task succeeded.
    StageInputs(Vec<Vec<StagingStep>>),
    /// List this directory; answer with `RuntimeDirListed`.
    ListRuntimeDir(String),
    /// Launch the backend process with these arguments; answer with
    /// `BackendExited`.
    RunBackend(Vec<String>),
    /// List this directory; answer with `OutputFilesListed`.
    ListOutputDir(String),
    /// Register one artifact per request; answer with
    /// `ArtifactsRegistered` in the same order.
    RegisterArtifacts(Vec<CreateArtifactDTO>),
    /// Run every harvest task concurrently and join them all; answer
    /// `Acked` only when every task succeeded.
    HarvestOutputs(Vec<Vec<HarvestStep>>),
    /// Remove this directory tree; answer `Acked`.
    RemoveDirTree(String),
    /// Fatal: stop the agent process with this reason.
    Halt(AgentError),
}

pub ghost enum ActionView {
    ReportHostStatus(HostStatus),
    QueryPendingExecutions(Seq<(Seq<char>, Seq<char>)>),
    Sleep(u64),
    FetchJob(Seq<char>),
    FetchRuntime(Seq<char>),
    ReportJobExecutionStatus(Seq<char>, JobExecutionStatus),
    CreateDirs(Seq<Seq<char>>),
    StageRuntime(Seq<StagingStepView>),
    StageInputs(Seq<Seq<StagingStepView>>),
    ListRuntimeDir(Seq<char>),
    RunBackend(Seq<Seq<char>>),
    ListOutputDir(Seq<char>),
    RegisterArtifacts(Seq<CreateArtifactDTOView>),
    HarvestOutputs(Seq<Seq<HarvestStepView>>),
    RemoveDirTree(Seq<char>),
    Halt(AgentError),
}

impl View for Action {
    type V = ActionView;

    open spec fn view(&self) -> ActionView {
        match self {
            Action::ReportHostStatus(s) => ActionView::ReportHostStatus(*s),
            Action::QueryPendingExecutions(f) => ActionView::QueryPendingExecutions(f.deep_view()),
            Action::Sleep(n) => ActionView::Sleep(*n),
            Action::FetchJob(id) => ActionView::FetchJob(id@),
            Action::FetchRuntime(id) => ActionView::FetchRuntime(id@),
            Action::ReportJobExecutionStatus(id, s) => ActionView::ReportJobExecutionStatus(
                id@,
                *s,
            ),
            Action::CreateDirs(d) => ActionView::CreateDirs(d.deep_view()),
            Action::StageRuntime(steps) => ActionView::StageRuntime(steps.deep_view()),
            Action::StageInputs(tasks) => ActionView::StageInputs(tasks.deep_view()),
            Action::ListRuntimeDir(d) => ActionView::ListRuntimeDir(d@),
            Action::RunBackend(args) => ActionView::RunBackend(args.deep_view()),
            Action::ListOutputDir(d) => ActionView::ListOutputDir(d@),
            Action::RegisterArtifacts(reqs) => ActionView::RegisterArtifacts(reqs.deep_view()),
            Action::HarvestOutputs(tasks) => ActionView::HarvestOutputs(tasks.deep_view()),
            Action::RemoveDirTree(d) => ActionView::RemoveDirTree(d@),
            Action::Halt(e) => ActionView::Halt(*e),
        }
    }
}

/// Everything the engine carries about the one execution it is processing.
pub struct Cycle {
    /// The claimed execution.
    pub execution: JobExecution,
    /// Its job descriptor, once fetched.
    pub job: Option<Job>,
    /// Its runtime descriptor, once fetched.
    pub runtime: Option<Runtime>,
    /// The last status the engine reported for this execution.
    pub reported: JobExecutionStatus,
    /// The output directory's files, once listed.
    pub output_files: Option<Vec<String>>,
}

pub ghost struct CycleView {
    pub execution: JobExecutionView,
    pub job: Option<JobView>,
    pub runtime: Option<RuntimeView>,
    pub reported: JobExecutionStatus,
    pub output_files: Option<Seq<Seq<char>>>,
}

impl View for Cycle {
    type V = CycleView;

    open spec fn view(&self) -> CycleView {
        CycleView {
            execution: self.execution@,
            job: match self.job {
                Some(j) => Some(j@),
                None => None,
            },
            runtime: match self.runtime {
                Some(r) => Some(r@),
                None => None,
            },
            reported: self.reported,
            output_files: match self.output_files {
                Some(ref f) => Some(f.deep_view()),
                None => None,
            },
        }
    }
}

/// The engine: a single-slot worker processing at most one execution at a
/// time.
pub struct Engine {
    pub config: AgentConfig,
    pub host_id: String,
    pub phase: Phase,
    /// The last host status the engine reported, if any.
    pub host_status: Option<HostStatus>,
    /// Whether the current execution's staging tree exists.
    pub staging_exists: bool,
    /// The execution being processed, between claim and cleanup.
    pub cycle: Option<Cycle>,
}

pub ghost struct EngineView {
    pub root: Seq<char>,
    pub interval: u64,
    pub host_id: Seq<char>,
    pub phase: Phase,
    pub host_status: Option<HostStatus>,
    pub staging_exists: bool,
    pub cycle: Option<CycleView>,
}

impl View for Engine {
    type V = EngineView;

    open spec fn view(&self) -> EngineView {
        EngineView {
            root: self.config.root@,
            interval: self.config.work_check_interval_seconds,
            host_id: self.host_id@,
            phase: self.phase,
            host_status: self.host_status,
            staging_exists: self.staging_exists,
            cycle: match self.cycle {
                Some(ref c) => Some(c@),
                None => None,
            },
        }
    }
}

/// A fatal stop: the engine keeps its state but answers nothing further.
pub open spec fn spec_halt(pre: EngineView, e: AgentError) -> (EngineView, ActionView) {
    (EngineView { phase: Phase::Halted, ..pre }, ActionView::Halt(e))
}

/// The engine's complete transition function: from the current state and
/// the outcome of the previous action to the new state and the next action.
pub open spec fn spec_step(pre: EngineView, ev: Event) -> (EngineView, ActionView) {
    match (pre.phase, ev) {
        (_, Event::Failed(e)) => spec_halt(pre, e),
        (Phase::Start, Event::Init) => (
            EngineView {
                phase: Phase::AwaitIdleAck,
                host_status: Some(HostStatus::Idle),
                ..pre
            },
            ActionView::ReportHostStatus(HostStatus::Idle),
        ),
        (Phase::AwaitIdleAck, Event::Acked) => (
            EngineView { phase: Phase::AwaitPendingList, ..pre },
            ActionView::QueryPendingExecutions(spec_pending_filter(pre.host_id)),
        ),
        (Phase::Sleeping, Event::Acked) => (
            EngineView { phase: Phase::AwaitPendingList, ..pre },
            ActionView::QueryPendingExecutions(spec_pending_filter(pre.host_id)),
        ),
        (Phase::AwaitPendingList, Event::PendingExecutions(list)) => {
            if list@.len() == 0 {
                (EngineView { phase: Phase::Sleeping, ..pre }, ActionView::Sleep(pre.interval))
            } else {
                (
                    EngineView {
                        phase: Phase::AwaitJob,
                        cycle: Some(
                            CycleView {
                                execution: list@[0]@,
                                job: None,
                                runtime: None,
                                reported: JobExecutionStatus::PendingExecution,
                                output_files: None,
                            },
                        ),
                        ..pre
                    },
                    ActionView::FetchJob(list@[0]@.job_id),
                )
            }
        },
        (Phase::AwaitJob, Event::JobFetched(job)) => match pre.cycle {
            Some(c) => (
                EngineView {
                    phase: Phase::AwaitRuntime,
                    cycle: Some(CycleView { job: Some(job@), ..c }),
                    ..pre
                },
                ActionView::FetchRuntime(job@.runtime_id),
            ),
            None => spec_halt(pre, AgentError::UnexpectedEvent),
        },
        (Phase::AwaitRuntime, Event::RuntimeFetched(rt)) => match pre.cycle {
            Some(c) => (
                EngineView {
                    phase: Phase::AwaitBusyAck,
                    host_status: Some(HostStatus::Busy),
                    cycle: Some(CycleView { runtime: Some(rt@), ..c }),
                    ..pre
                },
                ActionView::ReportHostStatus(HostStatus::Busy),
            ),
            None => spec_halt(pre, AgentError::UnexpectedEvent),
        },
        (Phase::AwaitBusyAck, Event::Acked) => match pre.cycle {
            Some(c) => (
                EngineView {
                    phase: Phase::AwaitExecutionStatusAck,
                    cycle: Some(CycleView { reported: JobExecutionStatus::Execution, ..c }),
                    ..pre
                },
                ActionView::ReportJobExecutionStatus(
                    c.execution.id,
                    JobExecutionStatus::Execution,
                ),
            ),
            None => spec_halt(pre, AgentError::UnexpectedEvent),
        },
        (Phase::AwaitExecutionStatusAck, Event::Acked) => match pre.cycle {
            Some(c) => (
                EngineView { phase: Phase::AwaitDirsCreated, ..pre },
                ActionView::CreateDirs(
                    seq![
                        spec_job_execution_input_path(pre.root, c.execution.id),
                        spec_job_execution_output_path(pre.root, c.execution.id),
                    ],
                ),
            ),
            None => spec_halt(pre, AgentError::UnexpectedEvent),
        },
        (Phase::AwaitDirsCreated, Event::Acked) => match pre.cycle {
            Some(c) => match c.job {
                Some(j) => (
                    EngineView {
                        phase: Phase::AwaitRuntimeStaged,
                        staging_exists: true,
                        ..pre
                    },
                    ActionView::StageRuntime(
                        spec_runtime_staging_steps(pre.root, c.execution.id, j.runtime_id),
                    ),
                ),
                None => spec_halt(pre, AgentError::UnexpectedEvent),
            },
            None => spec_halt(pre, AgentError::UnexpectedEvent),
        },
        (Phase::AwaitRuntimeStaged, Event::Acked) => match pre.cycle {
            Some(c) => match c.job {
                Some(j) => (
                    EngineView { phase: Phase::AwaitInputsStaged, ..pre },
                    ActionView::StageInputs(
                        spec_input_staging_tasks(pre.root, c.execution.id, j.input_artifacts),
                    ),
                ),
                None => spec_halt(pre, AgentError::UnexpectedEvent),
            },
            None => spec_halt(pre, AgentError::UnexpectedEvent),
        },
        (Phase::AwaitInputsStaged, Event::Acked) => match pre.cycle {
            Some(c) => match c.runtime {
                Some(rt) => match rt.platform_execution_type {
                    PlatformExecutionType::Wasmer => (
                        EngineView { phase: Phase::AwaitRuntimeDirList, ..pre },
                        ActionView::ListRuntimeDir(
                            spec_runtime_path(pre.root, c.execution.id, rt.id),
                        ),
                    ),
                    _ => (
                        EngineView {
                            phase: Phase::AwaitUploadStatusAck,
                            cycle: Some(
                                CycleView {
                                    reported: JobExecutionStatus::PendingArtifactUpload,
                                    ..c
                                },
                            ),
                            ..pre
                        },
                        ActionView::ReportJobExecutionStatus(
                            c.execution.id,
                            JobExecutionStatus::PendingArtifactUpload,
                        ),
                    ),
                },
                None => spec_halt(pre, AgentError::UnexpectedEvent),
            },
            None => spec_halt(pre, AgentError::UnexpectedEvent),
        },
        (Phase::AwaitRuntimeDirList, Event::RuntimeDirListed(entries)) => match pre.cycle {
            Some(c) => match c.runtime {
                Some(_) => match spec_first_wasm(entries.deep_view()) {
                    Some(f) => (
                        EngineView { phase: Phase::AwaitBackendExit, ..pre },
                        ActionView::RunBackend(spec_wasmer_args(pre.root, c.execution.id, f)),
                    ),
                    None => spec_halt(pre, AgentError::MissingWasmModule),
                },
                None => spec_halt(pre, AgentError::UnexpectedEvent),
            },
            None => spec_halt(pre, AgentError::UnexpectedEvent),
        },
        (Phase::AwaitBackendExit, Event::BackendExited(ok)) => match pre.cycle {
            Some(c) => {
                if ok {
                    (
                        EngineView {
                            phase: Phase::AwaitUploadStatusAck,
                            cycle: Some(
                                CycleView {
                                    reported: JobExecutionStatus::PendingArtifactUpload,
                                    ..c
                                },
                            ),
                            ..pre
                        },
                        ActionView::ReportJobExecutionStatus(
                            c.execution.id,
                            JobExecutionStatus::PendingArtifactUpload,
                        ),
                    )
                } else {
                    spec_halt(pre, AgentError::BackendFailed)
                }
            },
            None => spec_halt(pre, AgentError::UnexpectedEvent),
        },
        (Phase::AwaitUploadStatusAck, Event::Acked) => match pre.cycle {
            Some(c) => (
                EngineView { phase: Phase::AwaitOutputList, ..pre },
                ActionView::ListOutputDir(spec_job_execution_output_path(pre.root, c.execution.id)),
            ),
            None => spec_halt(pre, AgentError::UnexpectedEvent),
        },
        (Phase::AwaitOutputList, Event::OutputFilesListed(files)) => match pre.cycle {
            Some(c) => match c.job {
                Some(j) => (
                    EngineView {
                        phase: Phase::AwaitArtifactsRegistered,
                        cycle: Some(CycleView { output_files: Some(files.deep_view()), ..c }),
                        ..pre
                    },
                    ActionView::RegisterArtifacts(
                        spec_artifact_requests(j.project_id, files@.len()),
                    ),
                ),
                None => spec_halt(pre, AgentError::UnexpectedEvent),
            },
            None => spec_halt(pre, AgentError::UnexpectedEvent),
        },
        (Phase::AwaitArtifactsRegistered, Event::ArtifactsRegistered(ids)) => match pre.cycle {
            Some(c) => match c.output_files {
                Some(files) => {
                    if ids@.len() != files.len() {
                        spec_halt(pre, AgentError::ControlPlane)
                    } else {
                        (
                            EngineView { phase: Phase::AwaitHarvestDone, ..pre },
                            ActionView::HarvestOutputs(
                                spec_harvest_task_list(
                                    spec_job_execution_output_path(pre.root, c.execution.id),
                                    files,
                                    ids.deep_view(),
                                ),
                            ),
                        )
                    }
                },
                None => spec_halt(pre, AgentError::UnexpectedEvent),
            },
            None => spec_halt(pre, AgentError::UnexpectedEvent),
        },
        (Phase::AwaitHarvestDone, Event::Acked) => match pre.cycle {
            Some(c) => (
                EngineView {
                    phase: Phase::AwaitCompletedAck,
                    cycle: Some(CycleView { reported: JobExecutionStatus::Completed, ..c }),
                    ..pre
                },
                ActionView::ReportJobExecutionStatus(
                    c.execution.id,
                    JobExecutionStatus::Completed,
                ),
            ),
            None => spec_halt(pre, AgentError::UnexpectedEvent),
        },
        (Phase::AwaitCompletedAck, Event::Acked) => match pre.cycle {
            Some(c) => (
                EngineView { phase: Phase::AwaitCleanup, ..pre },
                ActionView::RemoveDirTree(spec_job_execution_path(pre.root, c.execution.id)),
            ),
            None => spec_halt(pre, AgentError::UnexpectedEvent),
        },
        (Phase::AwaitCleanup, Event::Acked) => (
            EngineView {
                phase: Phase::AwaitIdleAck,
                host_status: Some(HostStatus::Idle),
                staging_exists: false,
                cycle: None,
                ..pre
            },
            ActionView::ReportHostStatus(HostStatus::Idle),
        ),
        _ => spec_halt(pre, AgentError::UnexpectedEvent),
    }
}

impl Engine {
    /// A fresh engine for this host: nothing claimed, nothing reported,
    /// no staging tree.
    pub fn new(config: AgentConfig, host_id: String) -> (e: Engine)
        ensures
            e@.root == config.root@,
            e@.interval == config.work_check_interval_seconds,
            e@.host_id == host_id@,
            e@.phase == Phase::Start,
            e@.host_status is None,
            !e@.staging_exists,
            e@.cycle is None,
    {
        Engine {
            config,
            host_id,
            phase: Phase::Start,
            host_status: None,
            staging_exists: false,
            cycle: None,
        }
    }

    /// One transition of the lifecycle engine. The caller performs the
    /// returned action and hands its outcome back as the next event.
    pub fn step(&mut self, ev: Event) -> (a: Action)
        ensures
            final(self)@ == spec_step(old(self)@, ev).0,
            a@ == spec_step(old(self)@, ev).1,
    {
        match (self.phase, ev) {
            (_, Event::Failed(e)) => {
                self.phase = Phase::Halted;
                Action::Halt(e)
            },
            (Phase::Start, Event::Init) => {
                self.phase = Phase::AwaitIdleAck;
                self.host_status = Some(HostStatus::Idle);
                Action::ReportHostStatus(HostStatus::Idle)
            },
            (Phase::AwaitIdleAck, Event::Acked) => {
                self.phase = Phase::AwaitPendingList;
                Action::QueryPendingExecutions(pending_execution_filter(self.host_id.as_str()))
            },
            (Phase::Sleeping, Event::Acked) => {
                self.phase = Phase::AwaitPendingList;
                Action::QueryPendingExecutions(pending_execution_filter(self.host_id.as_str()))
            },
            (Phase::AwaitPendingList, Event::PendingExecutions(list)) => {
                if list.len() == 0 {
                    self.phase = Phase::Sleeping;
                    Action::Sleep(self.config.work_check_interval_seconds)
                } else {
                    let mut list = list;
                    let execution = list.remove(0);
                    let job_id = execution.job_id.clone();
                    self.cycle = Some(
                        Cycle {
                            execution,
                            job: None,
                            runtime: None,
                            reported: JobExecutionStatus::PendingExecution,
                            output_files: None,
                        },
                    );
                    self.phase = Phase::AwaitJob;
                    Action::FetchJob(job_id)
                }
            },
            (Phase::AwaitJob, Event::JobFetched(job)) => match self.cycle.take() {
                Some(mut c) => {
                    let runtime_id = job.runtime_id.clone();
                    c.job = Some(job);
                    self.cycle = Some(c);
                    self.phase = Phase::AwaitRuntime;
                    Action::FetchRuntime(runtime_id)
                },
                None => {
                    self.phase = Phase::Halted;
                    Action::Halt(AgentError::UnexpectedEvent)
                },
            },
            (Phase::AwaitRuntime, Event::RuntimeFetched(rt)) => match self.cycle.take() {
                Some(mut c) => {
                    c.runtime = Some(rt);
                    self.cycle = Some(c);
                    self.host_status = Some(HostStatus::Busy);
                    self.phase = Phase::AwaitBusyAck;
                    Action::ReportHostStatus(HostStatus::Busy)
                },
                None => {
                    self.phase = Phase::Halted;
                    Action::Halt(AgentError::UnexpectedEvent)
                },
            },
            (Phase::AwaitBusyAck, Event::Acked) => match self.cycle.take() {
                Some(mut c) => {
                    let id = c.execution.id.clone();
                    c.reported = JobExecutionStatus::Execution;
                    self.cycle = Some(c);
                    self.phase = Phase::AwaitExecutionStatusAck;
                    Action::ReportJobExecutionStatus(id, JobExecutionStatus::Execution)
                },
                None => {
                    self.phase = Phase::Halted;
                    Action::Halt(AgentError::UnexpectedEvent)
                },
            },
            (Phase::AwaitExecutionStatusAck, Event::Acked) => match self.cycle.take() {
                Some(c) => {
                    let input_dir = self.config.get_job_execution_input_path(
                        c.execution.id.as_str(),
                    );
                    let output_dir = self.config.get_job_execution_output_path(
                        c.execution.id.as_str(),
                    );
                    let ghost exec_id = c.execution.id@;
                    self.cycle = Some(c);
                    self.phase = Phase::AwaitDirsCreated;
                    let mut dirs: Vec<String> = Vec::new();
                    dirs.push(input_dir);
                    dirs.push(output_dir);
                    proof {
                        assert(dirs.deep_view() =~= seq![
                            spec_job_execution_input_path(self.config.root@, exec_id),
                            spec_job_execution_output_path(self.config.root@, exec_id),
                        ]);
                    }
                    Action::CreateDirs(dirs)
                },
                None => {
                    self.phase = Phase::Halted;
                    Action::Halt(AgentError::UnexpectedEvent)
                },
            },
            (Phase::AwaitDirsCreated, Event::Acked) => match self.cycle.take() {
                Some(c) => match c.job {
                    Some(ref j) => {
                        let steps = prepare_runtime(
                            &self.config,
                            c.execution.id.as_str(),
                            j.runtime_id.as_str(),
                        );
                        self.cycle = Some(c);
                        self.staging_exists = true;
                        self.phase = Phase::AwaitRuntimeStaged;
                        Action::StageRuntime(steps)
                    },
                    None => {
                        self.cycle = Some(c);
                        self.phase = Phase::Halted;
                        Action::Halt(AgentError::UnexpectedEvent)
                    },
                },
                None => {
                    self.phase = Phase::Halted;
                    Action::Halt(AgentError::UnexpectedEvent)
                },
            },
            (Phase::AwaitRuntimeStaged, Event::Acked) => match self.cycle.take() {
                Some(c) => match c.job {
                    Some(ref j) => {
                        let tasks = prepare_input_artifacts(
                            &self.config,
                            c.execution.id.as_str(),
                            &j.input_artifacts,
                        );
                        self.cycle = Some(c);
                        self.phase = Phase::AwaitInputsStaged;
                        Action::StageInputs(tasks)
                    },
                    None => {
                        self.cycle = Some(c);
                        self.phase = Phase::Halted;
                        Action::Halt(AgentError::UnexpectedEvent)
                    },
                },
                None => {
                    self.phase = Phase::Halted;
                    Action::Halt(AgentError::UnexpectedEvent)
                },
            },
            (Phase::AwaitInputsStaged, Event::Acked) => match self.cycle.take() {
                Some(mut c) => match c.runtime {
                    Some(ref rt) => match rt.platform_execution_type {
                        PlatformExecutionType::Wasmer => {
                            let dir = self.config.get_runtime_path(
                                c.execution.id.as_str(),
                                rt.id.as_str(),
                            );
                            self.cycle = Some(c);
                            self.phase = Phase::AwaitRuntimeDirList;
                            Action::ListRuntimeDir(dir)
                        },
                        _ => {
                            let id = c.execution.id.clone();
                            c.reported = JobExecutionStatus::PendingArtifactUpload;
                            self.cycle = Some(c);
                            self.phase = Phase::AwaitUploadStatusAck;
                            Action::ReportJobExecutionStatus(
                                id,
                                JobExecutionStatus::PendingArtifactUpload,
                            )
                        },
                    },
                    None => {
                        self.cycle = Some(c);
                        self.phase = Phase::Halted;
                        Action::Halt(AgentError::UnexpectedEvent)
                    },
                },
                None => {
                    self.phase = Phase::Halted;
                    Action::Halt(AgentError::UnexpectedEvent)
                },
            },
            (Phase::AwaitRuntimeDirList, Event::RuntimeDirListed(entries)) => match self
                .cycle
                .take() {
                Some(c) => match c.runtime {
                    Some(_) => match get_wasm_file_in_dir(&entries) {
                        Ok(f) => {
                            let args = run_wasmer(
                                &self.config,
                                c.execution.id.as_str(),
                                f.as_str(),
                            );
                            self.cycle = Some(c);
                            self.phase = Phase::AwaitBackendExit;
                            Action::RunBackend(args)
                        },
                        Err(e) => {
                            self.cycle = Some(c);
                            self.phase = Phase::Halted;
                            Action::Halt(e)
                        },
                    },
                    None => {
                        self.cycle = Some(c);
                        self.phase = Phase::Halted;
                        Action::Halt(AgentError::UnexpectedEvent)
                    },
                },
                None => {
                    self.phase = Phase::Halted;
                    Action::Halt(AgentError::UnexpectedEvent)
                },
            },
            (Phase::AwaitBackendExit, Event::BackendExited(ok)) => match self.cycle.take() {
                Some(mut c) => {
                    if ok {
                        let id = c.execution.id.clone();
                        c.reported = JobExecutionStatus::PendingArtifactUpload;
                        self.cycle = Some(c);
                        self.phase = Phase::AwaitUploadStatusAck;
                        Action::ReportJobExecutionStatus(
                            id,
                            JobExecutionStatus::PendingArtifactUpload,
                        )
                    } else {
                        self.cycle = Some(c);
                        self.phase = Phase::Halted;
                        Action::Halt(AgentError::BackendFailed)
                    }
                },
                None => {
                    self.phase = Phase::Halted;
                    Action::Halt(AgentError::UnexpectedEvent)
                },
            },
            (Phase::AwaitUploadStatusAck, Event::Acked) => match self.cycle.take() {
                Some(c) => {
                    let dir = self.config.get_job_execution_output_path(c.execution.id.as_str());
                    self.cycle = Some(c);
                    self.phase = Phase::AwaitOutputList;
                    Action::ListOutputDir(dir)
                },
                None => {
                    self.phase = Phase::Halted;
                    Action::Halt(AgentError::UnexpectedEvent)
                },
            },
            (Phase::AwaitOutputList, Event::OutputFilesListed(files)) => match self.cycle.take() {
                Some(mut c) => match c.job {
                    Some(ref j) => {
                        let reqs = prepare_output_artifacts(&files, j.project_id.as_str());
                        c.output_files = Some(files);
                        self.cycle = Some(c);
                        self.phase = Phase::AwaitArtifactsRegistered;
                        Action::RegisterArtifacts(reqs)
                    },
                    None => {
                        self.cycle = Some(c);
                        self.phase = Phase::Halted;
                        Action::Halt(AgentError::UnexpectedEvent)
                    },
                },
                None => {
                    self.phase = Phase::Halted;
                    Action::Halt(AgentError::UnexpectedEvent)
                },
            },
            (Phase::AwaitArtifactsRegistered, Event::ArtifactsRegistered(ids)) => match self
                .cycle
                .take() {
                Some(c) => match c.output_files {
                    Some(ref files) => {
                        if ids.len() != files.len() {
                            self.cycle = Some(c);
                            self.phase = Phase::Halted;
                            Action::Halt(AgentError::ControlPlane)
                        } else {
                            let dir = self.config.get_job_execution_output_path(
                                c.execution.id.as_str(),
                            );
                            let tasks = harvest_tasks(dir.as_str(), files, &ids);
                            self.cycle = Some(c);
                            self.phase = Phase::AwaitHarvestDone;
                            Action::HarvestOutputs(tasks)
                        }
                    },
                    None => {
                        self.cycle = Some(c);
                        self.phase = Phase::Halted;
                        Action::Halt(AgentError::UnexpectedEvent)
                    },
                },
                None => {
                    self.phase = Phase::Halted;
                    Action::Halt(AgentError::UnexpectedEvent)
                },
            },
            (Phase::AwaitHarvestDone, Event::Acked) => match self.cycle.take() {
                Some(mut c) => {
                    let id = c.execution.id.clone();
                    c.reported = JobExecutionStatus::Completed;
                    self.cycle = Some(c);
                    self.phase = Phase::AwaitCompletedAck;
                    Action::ReportJobExecutionStatus(id, JobExecutionStatus::Completed)
                },
                None => {
                    self.phase = Phase::Halted;
                    Action::Halt(AgentError::UnexpectedEvent)
                },
            },
            (Phase::AwaitCompletedAck, Event::Acked) => match self.cycle.take() {
                Some(c) => {
                    let dir = self.config.get_job_execution_path(c.execution.id.as_str());
                    self.cycle = Some(c);
                    self.phase = Phase::AwaitCleanup;
                    Action::RemoveDirTree(dir)
                },
                None => {
                    self.phase = Phase::Halted;
                    Action::Halt(AgentError::UnexpectedEvent)
                },
            },
            (Phase::AwaitCleanup, Event::Acked) => {
                self.staging_exists = false;
                self.cycle = None;
                self.host_status = Some(HostStatus::Idle);
                self.phase = Phase::AwaitIdleAck;
                Action::ReportHostStatus(HostStatus::Idle)
            },
            (_, _) => {
                self.phase = Phase::Halted;
                Action::Halt(AgentError::UnexpectedEvent)
            },
        }
    }
}

} // verus!
