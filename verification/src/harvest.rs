//! Harvest plans: how the files an execution leaves in its output
//! directory become uploaded artifacts.
//!
//! For each output file the agent registers a new artifact against the
//! job's project, packs the file into an archive, marks the artifact
//! `Active`, and uploads the archive bytes. The `Active` mark deliberately
//! precedes the upload: a consumer polling artifact status can observe
//! `Active` while the content is not yet retrievable. That ordering is
//! documented platform behavior and is preserved here, pinned by the plan's
//! contract.

use vstd::prelude::*;
use vstd::string::*;
use crate::model::ArtifactStatus;

verus! {

/// Registration payload for a new artifact; harvested artifacts start
/// untagged.
pub struct CreateArtifactDTO {
    pub project_id: String,
    pub tags: Vec<(String, String)>,
}

pub ghost struct CreateArtifactDTOView {
    pub project_id: Seq<char>,
    pub tags: Seq<(String, String)>,
}

impl View for CreateArtifactDTO {
    type V = CreateArtifactDTOView;

    open spec fn view(&self) -> CreateArtifactDTOView {
        CreateArtifactDTOView { project_id: self.project_id@, tags: self.tags@ }
    }
}

impl DeepView for CreateArtifactDTO {
    type V = CreateArtifactDTOView;

    open spec fn deep_view(&self) -> CreateArtifactDTOView {
        self.view()
    }
}

/// One step of harvesting a single output file.
pub enum HarvestStep {
    /// Pack `file` into the compressed archive `archive`.
    Pack { archive: String, file: String },
    /// Report the artifact's status to the control plane.
    SetArtifactStatus { artifact_id: String, status: ArtifactStatus },
    /// Upload the bytes of `archive` to the artifact's transfer URI.
    Upload { artifact_id: String, archive: String },
}

pub ghost enum HarvestStepView {
    Pack { archive: Seq<char>, file: Seq<char> },
    SetArtifactStatus { artifact_id: Seq<char>, status: ArtifactStatus },
    Upload { artifact_id: Seq<char>, archive: Seq<char> },
}

impl View for HarvestStep {
    type V = HarvestStepView;

    open spec fn view(&self) -> HarvestStepView {
        match self {
            HarvestStep::Pack { archive, file } => HarvestStepView::Pack {
                archive: archive@,
                file: file@,
            },
            HarvestStep::SetArtifactStatus { artifact_id, status } => HarvestStepView::SetArtifactStatus {
                artifact_id: artifact_id@,
                status: *status,
            },
            HarvestStep::Upload { artifact_id, archive } => HarvestStepView::Upload {
                artifact_id: artifact_id@,
                archive: archive@,
            },
        }
    }
}

impl DeepView for HarvestStep {
    type V = HarvestStepView;

    open spec fn deep_view(&self) -> HarvestStepView {
        self.view()
    }
}

/// One artifact registration per output file, all against the job's
/// project, none tagged.
pub open spec fn spec_artifact_requests(project_id: Seq<char>, count: nat) -> Seq<
    CreateArtifactDTOView,
> {
    Seq::new(count, |k: int| CreateArtifactDTOView { project_id, tags: Seq::empty() })
}

/// One artifact registration per output file, all against the job's
/// project, none tagged.
pub fn prepare_output_artifacts(output_files: &Vec<String>, project_id: &str) -> (reqs: Vec<
    CreateArtifactDTO,
>)
    ensures
        reqs.deep_view() == spec_artifact_requests(project_id@, output_files@.len()),
        reqs@.len() == output_files@.len(),
        forall|k: int|
            0 <= k < reqs@.len() ==> (#[trigger] reqs@[k]).project_id@ == project_id@
                && reqs@[k].tags@.len() == 0,
{
    let mut reqs: Vec<CreateArtifactDTO> = Vec::new();
    let mut i: usize = 0;
    while i < output_files.len()
        invariant
            i <= output_files@.len(),
            reqs@.len() == i,
            forall|k: int|
                0 <= k < i ==> (#[trigger] reqs@[k]).project_id@ == project_id@
                    && reqs@[k].tags@.len() == 0,
        decreases output_files@.len() - i,
    {
        reqs.push(CreateArtifactDTO { project_id: project_id.to_owned(), tags: Vec::new() });
        i = i + 1;
    }
    proof {
        assert forall|k: int| 0 <= k < reqs@.len() implies #[trigger] reqs.deep_view()[k]
            == spec_artifact_requests(project_id@, output_files@.len())[k] by {
            assert(reqs@[k].tags@ =~= Seq::<(String, String)>::empty());
        }
        assert(reqs.deep_view() =~= spec_artifact_requests(project_id@, output_files@.len()));
    }
    reqs
}

/// Where one harvested file's archive is written:
/// `{output dir}/{artifact_id}.tar`.
pub open spec fn spec_harvest_archive_path(
    output_dir: Seq<char>,
    artifact_id: Seq<char>,
) -> Seq<char> {
    output_dir + "/"@ + artifact_id + ".tar"@
}

/// The harvest plan of one output file: pack it, mark its artifact
/// `Active`, then upload the archive — in exactly that order.
pub open spec fn spec_harvest_steps(
    output_dir: Seq<char>,
    file: Seq<char>,
    artifact_id: Seq<char>,
) -> Seq<HarvestStepView> {
    let archive = spec_harvest_archive_path(output_dir, artifact_id);
    seq![
        HarvestStepView::Pack { archive, file },
        HarvestStepView::SetArtifactStatus { artifact_id, status: ArtifactStatus::Active },
        HarvestStepView::Upload { artifact_id, archive },
    ]
}

/// Builds the harvest plan of one output file. The `Active` mark stands
/// before the upload on purpose; see the module documentation.
pub fn harvest_file_steps(output_dir: &str, file: &str, artifact_id: &str) -> (steps: Vec<
    HarvestStep,
>)
    ensures
        steps.deep_view() == spec_harvest_steps(output_dir@, file@, artifact_id@),
{
    let mut archive = output_dir.to_owned();
    archive.append("/");
    archive.append(artifact_id);
    archive.append(".tar");
    let mut steps: Vec<HarvestStep> = Vec::new();
    steps.push(HarvestStep::Pack { archive: archive.clone(), file: file.to_owned() });
    steps.push(
        HarvestStep::SetArtifactStatus {
            artifact_id: artifact_id.to_owned(),
            status: ArtifactStatus::Active,
        },
    );
    steps.push(HarvestStep::Upload { artifact_id: artifact_id.to_owned(), archive });
    proof {
        assert(steps.deep_view() =~= spec_harvest_steps(output_dir@, file@, artifact_id@));
    }
    steps
}

/// One harvest task per output file, each wired to the artifact registered
/// for it, in the files' order.
pub open spec fn spec_harvest_task_list(
    output_dir: Seq<char>,
    output_files: Seq<Seq<char>>,
    artifact_ids: Seq<Seq<char>>,
) -> Seq<Seq<HarvestStepView>> {
    Seq::new(output_files.len(), |k: int| spec_harvest_steps(output_dir, output_files[k], artifact_ids[k]))
}

/// One harvest task per output file, each wired to its own freshly
/// registered artifact. The tasks are independent and meant to run
/// concurrently; the caller joins them all, and one failing task is fatal
/// to the whole cycle.
pub fn harvest_tasks(
    output_dir: &str,
    output_files: &Vec<String>,
    artifact_ids: &Vec<String>,
) -> (tasks: Vec<Vec<HarvestStep>>)
    requires
        output_files@.len() == artifact_ids@.len(),
    ensures
        tasks.deep_view() == spec_harvest_task_list(
            output_dir@,
            output_files.deep_view(),
            artifact_ids.deep_view(),
        ),
        tasks@.len() == output_files@.len(),
        forall|k: int|
            0 <= k < tasks@.len() ==> #[trigger] tasks@[k].deep_view() == spec_harvest_steps(
                output_dir@,
                output_files@[k]@,
                artifact_ids@[k]@,
            ),
{
    let mut tasks: Vec<Vec<HarvestStep>> = Vec::new();
    let mut i: usize = 0;
    while i < output_files.len()
        invariant
            output_files@.len() == artifact_ids@.len(),
            i <= output_files@.len(),
            tasks@.len() == i,
            forall|k: int|
                0 <= k < i ==> #[trigger] tasks@[k].deep_view() == spec_harvest_steps(
                    output_dir@,
                    output_files@[k]@,
                    artifact_ids@[k]@,
                ),
        decreases output_files@.len() - i,
    {
        tasks.push(
            harvest_file_steps(output_dir, output_files[i].as_str(), artifact_ids[i].as_str()),
        );
        i = i + 1;
    }
    proof {
        assert(tasks.deep_view() =~= spec_harvest_task_list(
            output_dir@,
            output_files.deep_view(),
            artifact_ids.deep_view(),
        ));
    }
    tasks
}

} // verus!
