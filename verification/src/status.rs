//! Status reporting: the update payloads the agent sends to the control
//! plane, the wire names of the statuses, and the claim-query filter.
//!
//! Each reporting operation is a single remote update with no local caching,
//! no batching and no retry; a failed update is fatal to the cycle. The
//! library builds the payloads; the caller performs the remote call.

use vstd::prelude::*;
use vstd::string::*;
use crate::model::ArtifactStatus;
use crate::model::HostStatus;
use crate::model::JobExecutionStatus;

verus! {

/// Update payload for a host: only the status field is ever set.
pub struct UpdateHostDTO {
    pub status: Option<HostStatus>,
}

/// Update payload for a job execution: the agent only ever moves the
/// status, never the host assignment or the output-artifact list.
pub struct UpdateJobExecutionDTO {
    pub host_id: Option<String>,
    pub output_artifacts: Option<Vec<String>>,
    pub status: Option<JobExecutionStatus>,
}

/// Update payload for an artifact: only the status field is ever set.
pub struct UpdateArtifactDTO {
    pub status: Option<ArtifactStatus>,
}

/// Payload of a host-status report.
pub fn set_host_status(status: HostStatus) -> (r: UpdateHostDTO)
    ensures
        r.status == Some(status),
{
    UpdateHostDTO { status: Some(status) }
}

/// Payload of a job-execution-status report. Host assignment and output
/// artifacts are left untouched.
pub fn set_job_execution_status(status: JobExecutionStatus) -> (r: UpdateJobExecutionDTO)
    ensures
        r.status == Some(status),
        r.host_id is None,
        r.output_artifacts is None,
{
    UpdateJobExecutionDTO { host_id: None, output_artifacts: None, status: Some(status) }
}

/// Payload of an artifact-status report.
pub fn set_artifact_status(status: ArtifactStatus) -> (r: UpdateArtifactDTO)
    ensures
        r.status == Some(status),
{
    UpdateArtifactDTO { status: Some(status) }
}

/// Wire name of a host status.
pub fn host_status_name(s: HostStatus) -> (r: String)
    ensures
        s == HostStatus::Idle ==> r@ == "Idle"@,
        s == HostStatus::Busy ==> r@ == "Busy"@,
{
    match s {
        HostStatus::Idle => "Idle".to_owned(),
        HostStatus::Busy => "Busy".to_owned(),
    }
}

/// Wire name of a job-execution status.
pub fn job_execution_status_name(s: JobExecutionStatus) -> (r: String)
    ensures
        s == JobExecutionStatus::PendingExecution ==> r@ == "PendingExecution"@,
        s == JobExecutionStatus::Execution ==> r@ == "Execution"@,
        s == JobExecutionStatus::PendingArtifactUpload ==> r@ == "PendingArtifactUpload"@,
        s == JobExecutionStatus::Completed ==> r@ == "Completed"@,
{
    match s {
        JobExecutionStatus::PendingExecution => "PendingExecution".to_owned(),
        JobExecutionStatus::Execution => "Execution".to_owned(),
        JobExecutionStatus::PendingArtifactUpload => "PendingArtifactUpload".to_owned(),
        JobExecutionStatus::Completed => "Completed".to_owned(),
    }
}

/// Wire name of an artifact status.
pub fn artifact_status_name(s: ArtifactStatus) -> (r: String)
    ensures
        s == ArtifactStatus::Created ==> r@ == "Created"@,
        s == ArtifactStatus::Active ==> r@ == "Active"@,
{
    match s {
        ArtifactStatus::Created => "Created".to_owned(),
        ArtifactStatus::Active => "Active".to_owned(),
    }
}

/// The claim-query filter as key/value pairs: executions that are pending
/// and assigned to this host.
pub open spec fn spec_pending_filter(host_id: Seq<char>) -> Seq<(Seq<char>, Seq<char>)> {
    seq![("status"@, "PendingExecution"@), ("host_id"@, host_id)]
}

/// The claim-query filter: executions that are pending and assigned to this
/// host. This filter is the sole admission-control mechanism of the agent.
pub fn pending_execution_filter(host_id: &str) -> (r: Vec<(String, String)>)
    ensures
        r.deep_view() == spec_pending_filter(host_id@),
        r@.len() == 2,
        r@[0].0@ == "status"@,
        r@[0].1@ == "PendingExecution"@,
        r@[1].0@ == "host_id"@,
        r@[1].1@ == host_id@,
{
    let mut r: Vec<(String, String)> = Vec::new();
    r.push(("status".to_owned(), job_execution_status_name(JobExecutionStatus::PendingExecution)));
    r.push(("host_id".to_owned(), host_id.to_owned()));
    proof {
        assert(r.deep_view() =~~= spec_pending_filter(host_id@));
    }
    r
}

} // verus!
