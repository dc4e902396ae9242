//! Entities of the job-execution platform as the agent sees them, and the
//! failure taxonomy of one execution cycle.

use vstd::prelude::*;

verus! {

/// Claim availability of the agent's host as reported to the control plane.
#[derive(Clone, Copy, PartialEq, Eq, Structural, Debug)]
pub enum HostStatus {
    Idle,
    Busy,
}

/// Lifecycle status of a job execution. The chain is monotonic:
/// `PendingExecution` -> `Execution` -> `PendingArtifactUpload` -> `Completed`.
#[derive(Clone, Copy, PartialEq, Eq, Structural, Debug)]
pub enum JobExecutionStatus {
    PendingExecution,
    Execution,
    PendingArtifactUpload,
    Completed,
}

/// Status of an artifact as the agent drives it: registered first, then
/// marked `Active`.
#[derive(Clone, Copy, PartialEq, Eq, Structural, Debug)]
pub enum ArtifactStatus {
    Created,
    Active,
}

/// Execution-backend selector of a runtime.
#[derive(Clone, Copy, PartialEq, Eq, Structural, Debug)]
pub enum PlatformExecutionType {
    Docker,
    BareMetal,
    Wasmer,
}

/// Machine architectures a host can offer.
#[derive(Clone, Copy, PartialEq, Eq, Structural, Debug)]
pub enum PlatformArchitecture {
    Arm64,
    X86_64,
    Wasm,
}

/// Position of a status in the monotonic lifecycle chain.
pub open spec fn status_rank(s: JobExecutionStatus) -> int {
    match s {
        JobExecutionStatus::PendingExecution => 0,
        JobExecutionStatus::Execution => 1,
        JobExecutionStatus::PendingArtifactUpload => 2,
        JobExecutionStatus::Completed => 3,
    }
}

/// The immediate successor in the lifecycle chain; `Completed` is terminal.
pub open spec fn status_successor(s: JobExecutionStatus) -> JobExecutionStatus {
    match s {
        JobExecutionStatus::PendingExecution => JobExecutionStatus::Execution,
        JobExecutionStatus::Execution => JobExecutionStatus::PendingArtifactUpload,
        JobExecutionStatus::PendingArtifactUpload => JobExecutionStatus::Completed,
        JobExecutionStatus::Completed => JobExecutionStatus::Completed,
    }
}

/// The successor of a non-terminal status sits exactly one step further
/// along the chain: transitions never skip a stage and never regress.
pub proof fn lemma_status_successor_rank(s: JobExecutionStatus)
    requires
        s != JobExecutionStatus::Completed,
    ensures
        status_rank(status_successor(s)) == status_rank(s) + 1,
{
}

/// A template describing what to run: a runtime and its input artifacts.
pub struct Job {
    pub id: String,
    pub runtime_id: String,
    pub input_artifacts: Vec<String>,
    pub project_id: String,
}

pub ghost struct JobView {
    pub id: Seq<char>,
    pub runtime_id: Seq<char>,
    pub input_artifacts: Seq<Seq<char>>,
    pub project_id: Seq<char>,
}

impl View for Job {
    type V = JobView;

    open spec fn view(&self) -> JobView {
        JobView {
            id: self.id@,
            runtime_id: self.runtime_id@,
            input_artifacts: self.input_artifacts.deep_view(),
            project_id: self.project_id@,
        }
    }
}

/// One scheduled instance of a job, assigned to a host.
pub struct JobExecution {
    pub id: String,
    pub job_id: String,
    pub host_id: String,
    pub status: JobExecutionStatus,
}

pub ghost struct JobExecutionView {
    pub id: Seq<char>,
    pub job_id: Seq<char>,
    pub host_id: Seq<char>,
    pub status: JobExecutionStatus,
}

impl View for JobExecution {
    type V = JobExecutionView;

    open spec fn view(&self) -> JobExecutionView {
        JobExecutionView {
            id: self.id@,
            job_id: self.job_id@,
            host_id: self.host_id@,
            status: self.status,
        }
    }
}

/// The executable bundle of a job and the backend it requires.
pub struct Runtime {
    pub id: String,
    pub platform_execution_type: PlatformExecutionType,
}

pub ghost struct RuntimeView {
    pub id: Seq<char>,
    pub platform_execution_type: PlatformExecutionType,
}

impl View for Runtime {
    type V = RuntimeView;

    open spec fn view(&self) -> RuntimeView {
        RuntimeView { id: self.id@, platform_execution_type: self.platform_execution_type }
    }
}

/// Failure taxonomy of a cycle. Every failure is fatal: the agent stops at
/// the point of occurrence, and the reason says which stage failed.
#[derive(Clone, Copy, PartialEq, Eq, Structural, Debug)]
pub enum AgentError {
    /// Directory or file creation, removal, read or write failed.
    Filesystem,
    /// A download or upload of artifact bytes failed.
    Transfer,
    /// Packing or unpacking an archive failed.
    Archive,
    /// A control-plane call failed or returned an unexpected shape.
    ControlPlane,
    /// The staged runtime bundle holds no WebAssembly module.
    MissingWasmModule,
    /// The execution backend exited unsuccessfully.
    BackendFailed,
    /// The engine was handed an event that its current phase cannot take.
    UnexpectedEvent,
    /// The machine reports an architecture the platform does not know.
    UnknownArchitecture,
}

impl AgentError {
    /// A stable name for the failure reason, for operator-facing logs.
    pub fn name(&self) -> (r: String)
        ensures
            *self == AgentError::Filesystem ==> r@ == "filesystem error"@,
            *self == AgentError::Transfer ==> r@ == "transfer error"@,
            *self == AgentError::Archive ==> r@ == "archive error"@,
            *self == AgentError::ControlPlane ==> r@ == "control plane error"@,
            *self == AgentError::MissingWasmModule ==> r@ == "no wasm module in runtime directory"@,
            *self == AgentError::BackendFailed ==> r@ == "backend exited unsuccessfully"@,
            *self == AgentError::UnexpectedEvent ==> r@ == "unexpected event for the current phase"@,
            *self == AgentError::UnknownArchitecture ==> r@ == "unrecognized machine architecture"@,
    {
        match self {
            AgentError::Filesystem => "filesystem error".to_owned(),
            AgentError::Transfer => "transfer error".to_owned(),
            AgentError::Archive => "archive error".to_owned(),
            AgentError::ControlPlane => "control plane error".to_owned(),
            AgentError::MissingWasmModule => "no wasm module in runtime directory".to_owned(),
            AgentError::BackendFailed => "backend exited unsuccessfully".to_owned(),
            AgentError::UnexpectedEvent => "unexpected event for the current phase".to_owned(),
            AgentError::UnknownArchitecture => "unrecognized machine architecture".to_owned(),
        }
    }
}

} // verus!
