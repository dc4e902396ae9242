use dice_agent::capabilities::get_device_architecture;
use dice_agent::capabilities::get_platform_architectures;
use dice_agent::capabilities::get_platform_execution_types;
use dice_agent::capabilities::register_host;
use dice_agent::capabilities::total_disk_space;
use dice_agent::config::AgentConfig;
use dice_agent::dispatch::contains_substr;
use dice_agent::dispatch::get_wasm_file_in_dir;
use dice_agent::dispatch::run_wasmer;
use dice_agent::harvest::harvest_file_steps;
use dice_agent::harvest::harvest_tasks;
use dice_agent::harvest::prepare_output_artifacts;
use dice_agent::harvest::HarvestStep;
use dice_agent::model::AgentError;
use dice_agent::model::ArtifactStatus;
use dice_agent::model::HostStatus;
use dice_agent::model::JobExecutionStatus;
use dice_agent::model::PlatformArchitecture;
use dice_agent::model::PlatformExecutionType;
use dice_agent::staging::prepare_input_artifact;
use dice_agent::staging::prepare_input_artifacts;
use dice_agent::staging::prepare_runtime;
use dice_agent::staging::StagingStep;
use dice_agent::status::artifact_status_name;
use dice_agent::status::host_status_name;
use dice_agent::status::job_execution_status_name;
use dice_agent::status::pending_execution_filter;
use dice_agent::status::set_artifact_status;
use dice_agent::status::set_host_status;
use dice_agent::status::set_job_execution_status;

fn dev_config() -> AgentConfig {
    AgentConfig::dev_default("token".to_string())
}

#[test]
fn dev_default_values() {
    let c = dev_config();
    assert_eq!(c.root, "/tmp/dice");
    assert_eq!(c.auth_token, "token");
    assert_eq!(c.work_check_interval_seconds, 1);
}

#[test]
fn staging_paths() {
    let c = dev_config();
    assert_eq!(c.get_job_execution_path("e1"), "/tmp/dice/e1");
    assert_eq!(c.get_job_execution_input_path("e1"), "/tmp/dice/e1/input");
    assert_eq!(c.get_job_execution_output_path("e1"), "/tmp/dice/e1/output");
    assert_eq!(c.get_runtime_path("e1", "r9"), "/tmp/dice/e1/r9");
}

#[test]
fn status_wire_names() {
    assert_eq!(host_status_name(HostStatus::Idle), "Idle");
    assert_eq!(host_status_name(HostStatus::Busy), "Busy");
    assert_eq!(
        job_execution_status_name(JobExecutionStatus::PendingExecution),
        "PendingExecution"
    );
    assert_eq!(job_execution_status_name(JobExecutionStatus::Execution), "Execution");
    assert_eq!(
        job_execution_status_name(JobExecutionStatus::PendingArtifactUpload),
        "PendingArtifactUpload"
    );
    assert_eq!(job_execution_status_name(JobExecutionStatus::Completed), "Completed");
    assert_eq!(artifact_status_name(ArtifactStatus::Created), "Created");
    assert_eq!(artifact_status_name(ArtifactStatus::Active), "Active");
}

#[test]
fn status_update_payloads() {
    let h = set_host_status(HostStatus::Busy);
    assert_eq!(h.status, Some(HostStatus::Busy));
    let j = set_job_execution_status(JobExecutionStatus::Execution);
    assert_eq!(j.status, Some(JobExecutionStatus::Execution));
    assert!(j.host_id.is_none());
    assert!(j.output_artifacts.is_none());
    let a = set_artifact_status(ArtifactStatus::Active);
    assert_eq!(a.status, Some(ArtifactStatus::Active));
}

#[test]
fn claim_filter() {
    let f = pending_execution_filter("host42");
    assert_eq!(f.len(), 2);
    assert_eq!(f[0].0, "status");
    assert_eq!(f[0].1, "PendingExecution");
    assert_eq!(f[1].0, "host_id");
    assert_eq!(f[1].1, "host42");
}

#[test]
fn device_architecture_parsing() {
    assert_eq!(get_device_architecture("arm64\n"), Ok(PlatformArchitecture::Arm64));
    assert_eq!(get_device_architecture("aarch64\n"), Ok(PlatformArchitecture::Arm64));
    assert_eq!(get_device_architecture("x86_64\n"), Ok(PlatformArchitecture::X86_64));
    assert_eq!(get_device_architecture("riscv64\n"), Err(AgentError::UnknownArchitecture));
    assert_eq!(get_device_architecture("x86_64"), Err(AgentError::UnknownArchitecture));
    assert_eq!(get_device_architecture(""), Err(AgentError::UnknownArchitecture));
}

#[test]
fn platform_architecture_lists() {
    assert_eq!(
        get_platform_architectures(PlatformArchitecture::X86_64, true),
        vec![PlatformArchitecture::Wasm, PlatformArchitecture::X86_64]
    );
    assert_eq!(
        get_platform_architectures(PlatformArchitecture::Arm64, false),
        vec![PlatformArchitecture::Arm64]
    );
}

#[test]
fn platform_execution_type_lists() {
    assert_eq!(
        get_platform_execution_types(true, true),
        vec![
            PlatformExecutionType::Docker,
            PlatformExecutionType::Wasmer,
            PlatformExecutionType::BareMetal,
        ]
    );
    assert_eq!(
        get_platform_execution_types(false, true),
        vec![PlatformExecutionType::Docker, PlatformExecutionType::BareMetal]
    );
    assert_eq!(
        get_platform_execution_types(true, false),
        vec![PlatformExecutionType::Wasmer, PlatformExecutionType::BareMetal]
    );
    assert_eq!(get_platform_execution_types(false, false), vec![PlatformExecutionType::BareMetal]);
}

#[test]
fn disk_space_sums() {
    assert_eq!(total_disk_space(&vec![]), 0);
    assert_eq!(total_disk_space(&vec![10, 20, 30]), 60);
    assert_eq!(total_disk_space(&vec![u64::MAX, 1]), u64::MAX);
    assert_eq!(total_disk_space(&vec![1, u64::MAX, 7]), u64::MAX);
}

#[test]
fn host_registration() {
    let dto = register_host(4096, &vec![100, 200], PlatformArchitecture::X86_64, true, false);
    assert!(dto.tags.is_empty());
    assert_eq!(dto.configuration.mem_bytes, 4096);
    assert_eq!(dto.configuration.disk_bytes, 300);
    assert_eq!(
        dto.configuration.platform_architecture_types,
        vec![PlatformArchitecture::Wasm, PlatformArchitecture::X86_64]
    );
    assert_eq!(
        dto.configuration.platform_execution_types,
        vec![PlatformExecutionType::Wasmer, PlatformExecutionType::BareMetal]
    );
}

#[test]
fn substring_search() {
    assert!(contains_substr("module.wasm", ".wasm"));
    assert!(contains_substr("dir/.wasm-cache/x", ".wasm"));
    assert!(contains_substr("anything", ""));
    assert!(!contains_substr("module.wat", ".wasm"));
    assert!(!contains_substr("", ".wasm"));
    assert!(!contains_substr("wasm", ".wasm"));
}

#[test]
fn wasm_file_lookup_first_match() {
    let entries = vec![
        "/r/readme.md".to_string(),
        "/r/a.wasm".to_string(),
        "/r/b.wasm".to_string(),
    ];
    assert_eq!(get_wasm_file_in_dir(&entries), Ok("/r/a.wasm".to_string()));
}

#[test]
fn wasm_file_lookup_missing() {
    let entries = vec!["/r/readme.md".to_string(), "/r/data.bin".to_string()];
    assert_eq!(get_wasm_file_in_dir(&entries), Err(AgentError::MissingWasmModule));
    assert_eq!(get_wasm_file_in_dir(&vec![]), Err(AgentError::MissingWasmModule));
}

#[test]
fn wasmer_invocation_args() {
    let c = dev_config();
    let args = run_wasmer(&c, "e1", "/tmp/dice/e1/r1/mod.wasm");
    assert_eq!(
        args,
        vec![
            "run".to_string(),
            "--mapdir=input:/tmp/dice/e1/input".to_string(),
            "--mapdir=output:/tmp/dice/e1/output".to_string(),
            "/tmp/dice/e1/r1/mod.wasm".to_string(),
        ]
    );
}

#[test]
fn runtime_staging_plan() {
    let c = dev_config();
    let steps = prepare_runtime(&c, "e1", "r1");
    assert_eq!(steps.len(), 4);
    match &steps[0] {
        StagingStep::CreateDir(d) => assert_eq!(d, "/tmp/dice/e1/r1"),
        _ => panic!("expected CreateDir first"),
    }
    match &steps[1] {
        StagingStep::DownloadRuntime { runtime_id, dest } => {
            assert_eq!(runtime_id, "r1");
            assert_eq!(dest, "/tmp/dice/e1/r1/r1.tar");
        }
        _ => panic!("expected DownloadRuntime second"),
    }
    match &steps[2] {
        StagingStep::Unpack { archive, dir } => {
            assert_eq!(archive, "/tmp/dice/e1/r1/r1.tar");
            assert_eq!(dir, "/tmp/dice/e1/r1");
        }
        _ => panic!("expected Unpack third"),
    }
    match &steps[3] {
        StagingStep::RemoveFile(f) => assert_eq!(f, "/tmp/dice/e1/r1/r1.tar"),
        _ => panic!("expected RemoveFile last"),
    }
}

#[test]
fn input_staging_plan() {
    let c = dev_config();
    let steps = prepare_input_artifact(&c, "e1", "a7");
    assert_eq!(steps.len(), 3);
    match &steps[0] {
        StagingStep::DownloadArtifact { artifact_id, dest } => {
            assert_eq!(artifact_id, "a7");
            assert_eq!(dest, "/tmp/dice/e1/input/a7.tar");
        }
        _ => panic!("expected DownloadArtifact first"),
    }
    match &steps[1] {
        StagingStep::Unpack { archive, dir } => {
            assert_eq!(archive, "/tmp/dice/e1/input/a7.tar");
            assert_eq!(dir, "/tmp/dice/e1/input");
        }
        _ => panic!("expected Unpack second"),
    }
    match &steps[2] {
        StagingStep::RemoveFile(f) => assert_eq!(f, "/tmp/dice/e1/input/a7.tar"),
        _ => panic!("expected RemoveFile last"),
    }
}

#[test]
fn input_staging_fan_out_matches_artifact_count() {
    let c = dev_config();
    let ids = vec!["a1".to_string(), "a2".to_string(), "a3".to_string()];
    let tasks = prepare_input_artifacts(&c, "e1", &ids);
    assert_eq!(tasks.len(), 3);
    for (k, task) in tasks.iter().enumerate() {
        match &task[0] {
            StagingStep::DownloadArtifact { artifact_id, .. } => assert_eq!(artifact_id, &ids[k]),
            _ => panic!("expected DownloadArtifact first"),
        }
    }
    assert!(prepare_input_artifacts(&c, "e1", &vec![]).is_empty());
}

#[test]
fn artifact_registrations_match_file_count() {
    let files = vec!["x.bin".to_string(), "y.bin".to_string()];
    let reqs = prepare_output_artifacts(&files, "p1");
    assert_eq!(reqs.len(), 2);
    for r in &reqs {
        assert_eq!(r.project_id, "p1");
        assert!(r.tags.is_empty());
    }
    assert!(prepare_output_artifacts(&vec![], "p1").is_empty());
}

#[test]
fn harvest_marks_active_before_upload() {
    let steps = harvest_file_steps("/tmp/dice/e1/output", "result.bin", "a9");
    assert_eq!(steps.len(), 3);
    match &steps[0] {
        HarvestStep::Pack { archive, file } => {
            assert_eq!(archive, "/tmp/dice/e1/output/a9.tar");
            assert_eq!(file, "result.bin");
        }
        _ => panic!("expected Pack first"),
    }
    match &steps[1] {
        HarvestStep::SetArtifactStatus { artifact_id, status } => {
            assert_eq!(artifact_id, "a9");
            assert_eq!(*status, ArtifactStatus::Active);
        }
        _ => panic!("expected the Active mark before the upload"),
    }
    match &steps[2] {
        HarvestStep::Upload { artifact_id, archive } => {
            assert_eq!(artifact_id, "a9");
            assert_eq!(archive, "/tmp/dice/e1/output/a9.tar");
        }
        _ => panic!("expected Upload last"),
    }
}

#[test]
fn harvest_tasks_pair_files_with_artifacts() {
    let files = vec!["a.bin".to_string(), "b.bin".to_string()];
    let ids = vec!["a1".to_string(), "a2".to_string()];
    let tasks = harvest_tasks("/tmp/dice/e1/output", &files, &ids);
    assert_eq!(tasks.len(), 2);
    match &tasks[1][0] {
        HarvestStep::Pack { archive, file } => {
            assert_eq!(archive, "/tmp/dice/e1/output/a2.tar");
            assert_eq!(file, "b.bin");
        }
        _ => panic!("expected Pack first"),
    }
}

#[test]
fn error_names() {
    assert_eq!(AgentError::Filesystem.name(), "filesystem error");
    assert_eq!(AgentError::Transfer.name(), "transfer error");
    assert_eq!(AgentError::Archive.name(), "archive error");
    assert_eq!(AgentError::ControlPlane.name(), "control plane error");
    assert_eq!(AgentError::MissingWasmModule.name(), "no wasm module in runtime directory");
    assert_eq!(AgentError::BackendFailed.name(), "backend exited unsuccessfully");
    assert_eq!(AgentError::UnexpectedEvent.name(), "unexpected event for the current phase");
    assert_eq!(AgentError::UnknownArchitecture.name(), "unrecognized machine architecture");
}
