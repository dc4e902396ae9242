//! Agent configuration and the staging-directory layout.
//!
//! Every execution gets a staging tree under the agent's working root:
//! `{root}/{execution_id}/input`, `{root}/{execution_id}/output`, and
//! `{root}/{execution_id}/{runtime_id}` for the unpacked runtime bundle.

use vstd::prelude::*;
use vstd::string::*;

verus! {

/// Staging path for one execution: `{root}/{execution_id}`.
pub open spec fn spec_job_execution_path(root: Seq<char>, id: Seq<char>) -> Seq<char> {
    root + "/"@ + id
}

/// Input directory of an execution: `{root}/{execution_id}/input`.
pub open spec fn spec_job_execution_input_path(root: Seq<char>, id: Seq<char>) -> Seq<char> {
    spec_job_execution_path(root, id) + "/input"@
}

/// Output directory of an execution: `{root}/{execution_id}/output`.
pub open spec fn spec_job_execution_output_path(root: Seq<char>, id: Seq<char>) -> Seq<char> {
    spec_job_execution_path(root, id) + "/output"@
}

/// Runtime-bundle directory of an execution: `{root}/{execution_id}/{runtime_id}`.
pub open spec fn spec_runtime_path(
    root: Seq<char>,
    job_execution_id: Seq<char>,
    id: Seq<char>,
) -> Seq<char> {
    spec_job_execution_path(root, job_execution_id) + "/"@ + id
}

/// Agent-wide configuration: the working root under which all staging
/// trees live, the control-plane authentication token, and the polling
/// interval of the claim loop.
pub struct AgentConfig {
    pub root: String,
    pub auth_token: String,
    pub work_check_interval_seconds: u64,
}

impl AgentConfig {
    /// The development default: staging under `/tmp/dice`, polling every
    /// second.
    pub fn dev_default(token: String) -> (c: Self)
        ensures
            c.root@ == "/tmp/dice"@,
            c.auth_token == token,
            c.work_check_interval_seconds == 1,
    {
        AgentConfig { root: "/tmp/dice".to_owned(), auth_token: token, work_check_interval_seconds: 1 }
    }

    /// Staging path for one execution: `{root}/{execution_id}`.
    pub fn get_job_execution_path(&self, id: &str) -> (r: String)
        ensures
            r@ == spec_job_execution_path(self.root@, id@),
    {
        let mut r = self.root.clone();
        r.append("/");
        r.append(id);
        r
    }

    /// Input directory of an execution.
    pub fn get_job_execution_input_path(&self, id: &str) -> (r: String)
        ensures
            r@ == spec_job_execution_input_path(self.root@, id@),
    {
        let mut r = self.get_job_execution_path(id);
        r.append("/input");
        r
    }

    /// Output directory of an execution.
    pub fn get_job_execution_output_path(&self, id: &str) -> (r: String)
        ensures
            r@ == spec_job_execution_output_path(self.root@, id@),
    {
        let mut r = self.get_job_execution_path(id);
        r.append("/output");
        r
    }

    /// Runtime-bundle directory of an execution.
    pub fn get_runtime_path(&self, job_execution_id: &str, id: &str) -> (r: String)
        ensures
            r@ == spec_runtime_path(self.root@, job_execution_id@, id@),
    {
        let mut r = self.get_job_execution_path(job_execution_id);
        r.append("/");
        r.append(id);
        r
    }
}

} // verus!
