use dice_agent::config::AgentConfig;
use dice_agent::engine::Action;
use dice_agent::engine::Engine;
use dice_agent::engine::Event;
use dice_agent::model::AgentError;
use dice_agent::model::HostStatus;
use dice_agent::model::Job;
use dice_agent::model::JobExecution;
use dice_agent::model::JobExecutionStatus;
use dice_agent::model::PlatformExecutionType;
use dice_agent::model::Runtime;

fn engine() -> Engine {
    Engine::new(AgentConfig::dev_default("token".to_string()), "host1".to_string())
}

fn pending_execution(id: &str, job_id: &str) -> JobExecution {
    JobExecution {
        id: id.to_string(),
        job_id: job_id.to_string(),
        host_id: "host1".to_string(),
        status: JobExecutionStatus::PendingExecution,
    }
}

fn job(id: &str, runtime_id: &str, inputs: Vec<&str>, project_id: &str) -> Job {
    Job {
        id: id.to_string(),
        runtime_id: runtime_id.to_string(),
        input_artifacts: inputs.into_iter().map(|s| s.to_string()).collect(),
        project_id: project_id.to_string(),
    }
}

fn expect_exec_status(a: &Action) -> (String, JobExecutionStatus) {
    match a {
        Action::ReportJobExecutionStatus(id, s) => (id.clone(), *s),
        _ => panic!("expected a job-execution status report"),
    }
}

fn expect_ack_kind(a: &Action, name: &str) {
    let got = match a {
        Action::ReportHostStatus(_) => "ReportHostStatus",
        Action::QueryPendingExecutions(_) => "QueryPendingExecutions",
        Action::Sleep(_) => "Sleep",
        Action::FetchJob(_) => "FetchJob",
        Action::FetchRuntime(_) => "FetchRuntime",
        Action::ReportJobExecutionStatus(_, _) => "ReportJobExecutionStatus",
        Action::CreateDirs(_) => "CreateDirs",
        Action::StageRuntime(_) => "StageRuntime",
        Action::StageInputs(_) => "StageInputs",
        Action::ListRuntimeDir(_) => "ListRuntimeDir",
        Action::RunBackend(_) => "RunBackend",
        Action::ListOutputDir(_) => "ListOutputDir",
        Action::RegisterArtifacts(_) => "RegisterArtifacts",
        Action::HarvestOutputs(_) => "HarvestOutputs",
        Action::RemoveDirTree(_) => "RemoveDirTree",
        Action::Halt(_) => "Halt",
    };
    assert_eq!(got, name);
}

/// Drives a fresh engine up to the point where the claim query is underway
/// (Idle reported and acknowledged), and returns it.
fn claim_ready() -> Engine {
    let mut eng = engine();
    let a = eng.step(Event::Init);
    match a {
        Action::ReportHostStatus(s) => assert_eq!(s, HostStatus::Idle),
        _ => panic!("expected the initial Idle report"),
    }
    let a = eng.step(Event::Acked);
    expect_ack_kind(&a, "QueryPendingExecutions");
    eng
}

#[test]
fn execution_with_no_inputs_and_one_output_completes() {
    // A full cycle: zero input artifacts stage trivially, the backend runs,
    // exactly one artifact is harvested, and the execution is completed.
    let mut eng = claim_ready();
    let mut reported: Vec<JobExecutionStatus> = Vec::new();
    let mut host_reports: Vec<HostStatus> = vec![HostStatus::Idle];

    let a = eng.step(Event::PendingExecutions(vec![pending_execution("e1", "j1")]));
    match &a {
        Action::FetchJob(id) => assert_eq!(id, "j1"),
        _ => panic!("expected FetchJob"),
    }
    let a = eng.step(Event::JobFetched(job("j1", "r1", vec![], "p1")));
    match &a {
        Action::FetchRuntime(id) => assert_eq!(id, "r1"),
        _ => panic!("expected FetchRuntime"),
    }
    let a = eng.step(Event::RuntimeFetched(Runtime {
        id: "r1".to_string(),
        platform_execution_type: PlatformExecutionType::Wasmer,
    }));
    match &a {
        Action::ReportHostStatus(s) => {
            assert_eq!(*s, HostStatus::Busy);
            host_reports.push(*s);
        }
        _ => panic!("expected the Busy report"),
    }
    let a = eng.step(Event::Acked);
    let (id, s) = expect_exec_status(&a);
    assert_eq!(id, "e1");
    reported.push(s);
    let a = eng.step(Event::Acked);
    match &a {
        Action::CreateDirs(dirs) => {
            assert_eq!(dirs, &vec![
                "/tmp/dice/e1/input".to_string(),
                "/tmp/dice/e1/output".to_string(),
            ]);
        }
        _ => panic!("expected CreateDirs"),
    }
    assert!(!eng.staging_exists);
    let a = eng.step(Event::Acked);
    match &a {
        Action::StageRuntime(steps) => assert_eq!(steps.len(), 4),
        _ => panic!("expected StageRuntime"),
    }
    // The staging tree exists from the acknowledged directory creation on.
    assert!(eng.staging_exists);
    let a = eng.step(Event::Acked);
    match &a {
        Action::StageInputs(tasks) => assert_eq!(tasks.len(), 0),
        _ => panic!("expected StageInputs"),
    }
    let a = eng.step(Event::Acked);
    match &a {
        Action::ListRuntimeDir(d) => assert_eq!(d, "/tmp/dice/e1/r1"),
        _ => panic!("expected ListRuntimeDir"),
    }
    let a = eng.step(Event::RuntimeDirListed(vec!["/tmp/dice/e1/r1/mod.wasm".to_string()]));
    match &a {
        Action::RunBackend(args) => {
            assert_eq!(args[0], "run");
            assert_eq!(args[3], "/tmp/dice/e1/r1/mod.wasm");
        }
        _ => panic!("expected RunBackend"),
    }
    let a = eng.step(Event::BackendExited(true));
    let (id, s) = expect_exec_status(&a);
    assert_eq!(id, "e1");
    reported.push(s);
    let a = eng.step(Event::Acked);
    match &a {
        Action::ListOutputDir(d) => assert_eq!(d, "/tmp/dice/e1/output"),
        _ => panic!("expected ListOutputDir"),
    }
    let a = eng.step(Event::OutputFilesListed(vec!["result.bin".to_string()]));
    match &a {
        Action::RegisterArtifacts(reqs) => {
            assert_eq!(reqs.len(), 1);
            assert_eq!(reqs[0].project_id, "p1");
        }
        _ => panic!("expected RegisterArtifacts"),
    }
    let a = eng.step(Event::ArtifactsRegistered(vec!["a1".to_string()]));
    match &a {
        Action::HarvestOutputs(tasks) => {
            assert_eq!(tasks.len(), 1);
            assert_eq!(tasks[0].len(), 3);
        }
        _ => panic!("expected HarvestOutputs"),
    }
    let a = eng.step(Event::Acked);
    let (id, s) = expect_exec_status(&a);
    assert_eq!(id, "e1");
    reported.push(s);
    let a = eng.step(Event::Acked);
    match &a {
        Action::RemoveDirTree(d) => assert_eq!(d, "/tmp/dice/e1"),
        _ => panic!("expected the staging tree removal"),
    }
    assert!(eng.staging_exists);
    let a = eng.step(Event::Acked);
    match &a {
        Action::ReportHostStatus(s) => {
            assert_eq!(*s, HostStatus::Idle);
            host_reports.push(*s);
        }
        _ => panic!("expected the closing Idle report"),
    }
    // The tree is gone once the cycle has completed.
    assert!(!eng.staging_exists);
    assert!(eng.cycle.is_none());

    // The status transitions are exactly the monotonic chain.
    assert_eq!(
        reported,
        vec![
            JobExecutionStatus::Execution,
            JobExecutionStatus::PendingArtifactUpload,
            JobExecutionStatus::Completed,
        ]
    );
    // Host status alternates Idle -> Busy -> Idle across the cycle.
    assert_eq!(host_reports, vec![HostStatus::Idle, HostStatus::Busy, HostStatus::Idle]);
}

#[test]
fn failing_input_download_aborts_before_backend() {
    // Three input artifacts fan out into three staging tasks; one of them
    // fails to download, so the cycle aborts fatally: the backend never
    // runs and no artifact is ever registered.
    let mut eng = claim_ready();
    let a = eng.step(Event::PendingExecutions(vec![pending_execution("e2", "j2")]));
    expect_ack_kind(&a, "FetchJob");
    let a = eng.step(Event::JobFetched(job("j2", "r2", vec!["a1", "a2", "a3"], "p2")));
    expect_ack_kind(&a, "FetchRuntime");
    let a = eng.step(Event::RuntimeFetched(Runtime {
        id: "r2".to_string(),
        platform_execution_type: PlatformExecutionType::Wasmer,
    }));
    expect_ack_kind(&a, "ReportHostStatus");
    let a = eng.step(Event::Acked);
    expect_ack_kind(&a, "ReportJobExecutionStatus");
    let a = eng.step(Event::Acked);
    expect_ack_kind(&a, "CreateDirs");
    let a = eng.step(Event::Acked);
    expect_ack_kind(&a, "StageRuntime");
    let a = eng.step(Event::Acked);
    match &a {
        Action::StageInputs(tasks) => assert_eq!(tasks.len(), 3),
        _ => panic!("expected StageInputs with one task per artifact"),
    }
    // One of the three concurrent downloads fails: the failure is fatal,
    // not isolated to that artifact.
    let a = eng.step(Event::Failed(AgentError::Transfer));
    match &a {
        Action::Halt(e) => assert_eq!(*e, AgentError::Transfer),
        _ => panic!("expected the fatal halt"),
    }
    // The halted engine answers nothing else.
    let a = eng.step(Event::Acked);
    match &a {
        Action::Halt(_) => {}
        _ => panic!("a halted engine only halts"),
    }
}

#[test]
fn docker_runtime_skips_backend_and_still_completes() {
    // The container selector is a declared extension point: the dispatcher
    // performs no backend action, and the cycle still reaches
    // PendingArtifactUpload and Completed.
    let mut eng = claim_ready();
    let a = eng.step(Event::PendingExecutions(vec![pending_execution("e3", "j3")]));
    expect_ack_kind(&a, "FetchJob");
    let a = eng.step(Event::JobFetched(job("j3", "r3", vec![], "p3")));
    expect_ack_kind(&a, "FetchRuntime");
    let a = eng.step(Event::RuntimeFetched(Runtime {
        id: "r3".to_string(),
        platform_execution_type: PlatformExecutionType::Docker,
    }));
    expect_ack_kind(&a, "ReportHostStatus");
    let a = eng.step(Event::Acked);
    let (_, s) = expect_exec_status(&a);
    assert_eq!(s, JobExecutionStatus::Execution);
    let a = eng.step(Event::Acked);
    expect_ack_kind(&a, "CreateDirs");
    let a = eng.step(Event::Acked);
    expect_ack_kind(&a, "StageRuntime");
    let a = eng.step(Event::Acked);
    expect_ack_kind(&a, "StageInputs");
    // No ListRuntimeDir, no RunBackend: straight to the upload status.
    let a = eng.step(Event::Acked);
    let (id, s) = expect_exec_status(&a);
    assert_eq!(id, "e3");
    assert_eq!(s, JobExecutionStatus::PendingArtifactUpload);
    let a = eng.step(Event::Acked);
    expect_ack_kind(&a, "ListOutputDir");
    let a = eng.step(Event::OutputFilesListed(vec![]));
    match &a {
        Action::RegisterArtifacts(reqs) => assert_eq!(reqs.len(), 0),
        _ => panic!("expected RegisterArtifacts"),
    }
    let a = eng.step(Event::ArtifactsRegistered(vec![]));
    match &a {
        Action::HarvestOutputs(tasks) => assert_eq!(tasks.len(), 0),
        _ => panic!("expected HarvestOutputs"),
    }
    let a = eng.step(Event::Acked);
    let (_, s) = expect_exec_status(&a);
    assert_eq!(s, JobExecutionStatus::Completed);
    let a = eng.step(Event::Acked);
    expect_ack_kind(&a, "RemoveDirTree");
    let a = eng.step(Event::Acked);
    expect_ack_kind(&a, "ReportHostStatus");
}

#[test]
fn empty_polls_sleep_and_query_again() {
    // With no pending executions the engine alternates a sleep at the
    // configured interval with a fresh claim query, and reports nothing.
    let mut eng = claim_ready();
    for _ in 0..5 {
        let a = eng.step(Event::PendingExecutions(vec![]));
        match &a {
            Action::Sleep(secs) => assert_eq!(*secs, 1),
            _ => panic!("expected a sleep between empty polls"),
        }
        let a = eng.step(Event::Acked);
        match &a {
            Action::QueryPendingExecutions(f) => {
                assert_eq!(f[0].1, "PendingExecution");
                assert_eq!(f[1].1, "host1");
            }
            _ => panic!("expected the next claim query"),
        }
    }
}

#[test]
fn claim_takes_first_of_the_list() {
    let mut eng = claim_ready();
    let a = eng.step(Event::PendingExecutions(vec![
        pending_execution("e-first", "j-first"),
        pending_execution("e-second", "j-second"),
    ]));
    match &a {
        Action::FetchJob(id) => assert_eq!(id, "j-first"),
        _ => panic!("expected FetchJob for the first listed execution"),
    }
}

#[test]
fn missing_wasm_module_is_fatal() {
    let mut eng = claim_ready();
    eng.step(Event::PendingExecutions(vec![pending_execution("e4", "j4")]));
    eng.step(Event::JobFetched(job("j4", "r4", vec![], "p4")));
    eng.step(Event::RuntimeFetched(Runtime {
        id: "r4".to_string(),
        platform_execution_type: PlatformExecutionType::Wasmer,
    }));
    eng.step(Event::Acked);
    eng.step(Event::Acked);
    eng.step(Event::Acked);
    eng.step(Event::Acked);
    let a = eng.step(Event::Acked);
    expect_ack_kind(&a, "ListRuntimeDir");
    let a = eng.step(Event::RuntimeDirListed(vec!["/tmp/dice/e4/r4/readme.md".to_string()]));
    match &a {
        Action::Halt(e) => assert_eq!(*e, AgentError::MissingWasmModule),
        _ => panic!("expected a fatal halt for the missing module"),
    }
}

#[test]
fn failing_backend_is_fatal() {
    let mut eng = claim_ready();
    eng.step(Event::PendingExecutions(vec![pending_execution("e5", "j5")]));
    eng.step(Event::JobFetched(job("j5", "r5", vec![], "p5")));
    eng.step(Event::RuntimeFetched(Runtime {
        id: "r5".to_string(),
        platform_execution_type: PlatformExecutionType::Wasmer,
    }));
    eng.step(Event::Acked);
    eng.step(Event::Acked);
    eng.step(Event::Acked);
    eng.step(Event::Acked);
    eng.step(Event::Acked);
    eng.step(Event::RuntimeDirListed(vec!["/tmp/dice/e5/r5/m.wasm".to_string()]));
    let a = eng.step(Event::BackendExited(false));
    match &a {
        Action::Halt(e) => assert_eq!(*e, AgentError::BackendFailed),
        _ => panic!("expected a fatal halt for the failing backend"),
    }
}

#[test]
fn artifact_count_mismatch_is_fatal() {
    let mut eng = claim_ready();
    eng.step(Event::PendingExecutions(vec![pending_execution("e6", "j6")]));
    eng.step(Event::JobFetched(job("j6", "r6", vec![], "p6")));
    eng.step(Event::RuntimeFetched(Runtime {
        id: "r6".to_string(),
        platform_execution_type: PlatformExecutionType::BareMetal,
    }));
    eng.step(Event::Acked);
    eng.step(Event::Acked);
    eng.step(Event::Acked);
    eng.step(Event::Acked);
    eng.step(Event::Acked);
    eng.step(Event::Acked);
    let a = eng.step(Event::OutputFilesListed(vec!["one.bin".to_string()]));
    expect_ack_kind(&a, "RegisterArtifacts");
    let a = eng.step(Event::ArtifactsRegistered(vec![]));
    match &a {
        Action::Halt(e) => assert_eq!(*e, AgentError::ControlPlane),
        _ => panic!("expected a fatal halt for the artifact count mismatch"),
    }
}

#[test]
fn unexpected_event_is_fatal() {
    let mut eng = engine();
    // A fresh engine expects Init, not an acknowledgment.
    let a = eng.step(Event::Acked);
    match &a {
        Action::Halt(e) => assert_eq!(*e, AgentError::UnexpectedEvent),
        _ => panic!("expected a protocol halt"),
    }
}
