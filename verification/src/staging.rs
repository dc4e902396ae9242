//! Staging plans: the exact step sequences that bring a runtime bundle and
//! the input artifacts of a job into the execution's staging tree.
//!
//! A plan is data; the caller performs each step (directory creation,
//! download, unpack, archive removal) against the filesystem and the
//! transfer layer. Every path in a plan is absolute: no step depends on an
//! ambient working directory.

use vstd::prelude::*;
use vstd::string::*;
use crate::config::AgentConfig;
use crate::config::spec_job_execution_input_path;
use crate::config::spec_runtime_path;

verus! {

/// One filesystem or transfer step of a staging plan.
pub enum StagingStep {
    /// Create a directory and any missing parents.
    CreateDir(String),
    /// Download the runtime bundle archive of `runtime_id` to `dest`.
    DownloadRuntime { runtime_id: String, dest: String },
    /// Download the archive of input artifact `artifact_id` to `dest`.
    DownloadArtifact { artifact_id: String, dest: String },
    /// Unpack `archive` into the directory `dir`.
    Unpack { archive: String, dir: String },
    /// Remove a file.
    RemoveFile(String),
}

pub ghost enum StagingStepView {
    CreateDir(Seq<char>),
    DownloadRuntime { runtime_id: Seq<char>, dest: Seq<char> },
    DownloadArtifact { artifact_id: Seq<char>, dest: Seq<char> },
    Unpack { archive: Seq<char>, dir: Seq<char> },
    RemoveFile(Seq<char>),
}

impl View for StagingStep {
    type V = StagingStepView;

    open spec fn view(&self) -> StagingStepView {
        match self {
            StagingStep::CreateDir(d) => StagingStepView::CreateDir(d@),
            StagingStep::DownloadRuntime { runtime_id, dest } => StagingStepView::DownloadRuntime {
                runtime_id: runtime_id@,
                dest: dest@,
            },
            StagingStep::DownloadArtifact { artifact_id, dest } => StagingStepView::DownloadArtifact {
                artifact_id: artifact_id@,
                dest: dest@,
            },
            StagingStep::Unpack { archive, dir } => StagingStepView::Unpack {
                archive: archive@,
                dir: dir@,
            },
            StagingStep::RemoveFile(f) => StagingStepView::RemoveFile(f@),
        }
    }
}

impl DeepView for StagingStep {
    type V = StagingStepView;

    open spec fn deep_view(&self) -> StagingStepView {
        self.view()
    }
}

/// Where the runtime bundle's archive lands before it is unpacked:
/// `{runtime dir}/{runtime_id}.tar`.
pub open spec fn spec_runtime_archive_path(
    root: Seq<char>,
    job_execution_id: Seq<char>,
    runtime_id: Seq<char>,
) -> Seq<char> {
    spec_runtime_path(root, job_execution_id, runtime_id) + "/"@ + runtime_id + ".tar"@
}

/// The runtime staging plan: create the runtime directory, download the
/// bundle archive into it, unpack it in place, remove the archive.
pub open spec fn spec_runtime_staging_steps(
    root: Seq<char>,
    job_execution_id: Seq<char>,
    runtime_id: Seq<char>,
) -> Seq<StagingStepView> {
    let dir = spec_runtime_path(root, job_execution_id, runtime_id);
    let archive = spec_runtime_archive_path(root, job_execution_id, runtime_id);
    seq![
        StagingStepView::CreateDir(dir),
        StagingStepView::DownloadRuntime { runtime_id, dest: archive },
        StagingStepView::Unpack { archive, dir },
        StagingStepView::RemoveFile(archive),
    ]
}

/// Builds the staging plan for a runtime bundle. A failure at any step
/// aborts the whole cycle; the plan has no retry.
pub fn prepare_runtime(config: &AgentConfig, job_execution_id: &str, id: &str) -> (steps: Vec<
    StagingStep,
>)
    ensures
        steps.deep_view() == spec_runtime_staging_steps(config.root@, job_execution_id@, id@),
{
    let dir = config.get_runtime_path(job_execution_id, id);
    let mut archive = dir.clone();
    archive.append("/");
    archive.append(id);
    archive.append(".tar");
    let mut steps: Vec<StagingStep> = Vec::new();
    steps.push(StagingStep::CreateDir(dir.clone()));
    steps.push(
        StagingStep::DownloadRuntime { runtime_id: id.to_owned(), dest: archive.clone() },
    );
    steps.push(StagingStep::Unpack { archive: archive.clone(), dir });
    steps.push(StagingStep::RemoveFile(archive));
    proof {
        assert(steps.deep_view() =~= spec_runtime_staging_steps(
            config.root@,
            job_execution_id@,
            id@,
        ));
    }
    steps
}

/// Where one input artifact's archive lands before it is unpacked:
/// `{input dir}/{artifact_id}.tar`.
pub open spec fn spec_input_archive_path(
    root: Seq<char>,
    job_execution_id: Seq<char>,
    artifact_id: Seq<char>,
) -> Seq<char> {
    spec_job_execution_input_path(root, job_execution_id) + "/"@ + artifact_id + ".tar"@
}

/// The staging plan of one input artifact: download its archive into the
/// execution's input directory, unpack it there, remove the archive.
pub open spec fn spec_input_staging_steps(
    root: Seq<char>,
    job_execution_id: Seq<char>,
    artifact_id: Seq<char>,
) -> Seq<StagingStepView> {
    let dir = spec_job_execution_input_path(root, job_execution_id);
    let archive = spec_input_archive_path(root, job_execution_id, artifact_id);
    seq![
        StagingStepView::DownloadArtifact { artifact_id, dest: archive },
        StagingStepView::Unpack { archive, dir },
        StagingStepView::RemoveFile(archive),
    ]
}

/// Builds the staging plan for one input artifact.
pub fn prepare_input_artifact(
    config: &AgentConfig,
    job_execution_id: &str,
    artifact_id: &str,
) -> (steps: Vec<StagingStep>)
    ensures
        steps.deep_view() == spec_input_staging_steps(
            config.root@,
            job_execution_id@,
            artifact_id@,
        ),
{
    let dir = config.get_job_execution_input_path(job_execution_id);
    let mut archive = dir.clone();
    archive.append("/");
    archive.append(artifact_id);
    archive.append(".tar");
    let mut steps: Vec<StagingStep> = Vec::new();
    steps.push(
        StagingStep::DownloadArtifact { artifact_id: artifact_id.to_owned(), dest: archive.clone() },
    );
    steps.push(StagingStep::Unpack { archive: archive.clone(), dir });
    steps.push(StagingStep::RemoveFile(archive));
    proof {
        assert(steps.deep_view() =~= spec_input_staging_steps(
            config.root@,
            job_execution_id@,
            artifact_id@,
        ));
    }
    steps
}

/// One staging task per input artifact, in the artifacts' order.
pub open spec fn spec_input_staging_tasks(
    root: Seq<char>,
    job_execution_id: Seq<char>,
    artifact_ids: Seq<Seq<char>>,
) -> Seq<Seq<StagingStepView>> {
    Seq::new(artifact_ids.len(), |k: int| spec_input_staging_steps(root, job_execution_id, artifact_ids[k]))
}

/// Builds one staging task per input artifact. The tasks are independent
/// and meant to run concurrently: the fan-out equals the artifact count,
/// and the caller must join them all before the backend runs. One failing
/// task is fatal to the whole cycle, not isolated to its artifact.
pub fn prepare_input_artifacts(
    config: &AgentConfig,
    job_execution_id: &str,
    input_artifacts: &Vec<String>,
) -> (tasks: Vec<Vec<StagingStep>>)
    ensures
        tasks.deep_view() == spec_input_staging_tasks(
            config.root@,
            job_execution_id@,
            input_artifacts.deep_view(),
        ),
        tasks@.len() == input_artifacts@.len(),
        forall|k: int|
            0 <= k < tasks@.len() ==> #[trigger] tasks@[k].deep_view()
                == spec_input_staging_steps(
                config.root@,
                job_execution_id@,
                input_artifacts@[k]@,
            ),
{
    let mut tasks: Vec<Vec<StagingStep>> = Vec::new();
    let mut i: usize = 0;
    while i < input_artifacts.len()
        invariant
            i <= input_artifacts@.len(),
            tasks@.len() == i,
            forall|k: int|
                0 <= k < i ==> #[trigger] tasks@[k].deep_view() == spec_input_staging_steps(
                    config.root@,
                    job_execution_id@,
                    input_artifacts@[k]@,
                ),
        decreases input_artifacts@.len() - i,
    {
        tasks.push(prepare_input_artifact(config, job_execution_id, input_artifacts[i].as_str()));
        i = i + 1;
    }
    proof {
        assert(tasks.deep_view() =~= spec_input_staging_tasks(
            config.root@,
            job_execution_id@,
            input_artifacts.deep_view(),
        ));
    }
    tasks
}

} // verus!
