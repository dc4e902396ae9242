//! The lifecycle laws: what holds of every engine state the agent can
//! reach, and of every transition out of it.

use vstd::prelude::*;
use crate::config::spec_job_execution_input_path;
use crate::config::spec_job_execution_output_path;
use crate::config::spec_job_execution_path;
use crate::config::spec_runtime_path;
use crate::dispatch::spec_first_wasm;
use crate::dispatch::spec_wasmer_args;
use crate::engine::ActionView;
use crate::engine::EngineView;
use crate::engine::Event;
use crate::engine::Phase;
use crate::engine::spec_step;
use crate::harvest::spec_artifact_requests;
use crate::harvest::spec_harvest_task_list;
use crate::model::HostStatus;
use crate::model::JobExecutionStatus;
use crate::model::JobExecutionView;
use crate::model::JobView;
use crate::model::PlatformExecutionType;
use crate::model::RuntimeView;
use crate::model::status_rank;
use crate::model::status_successor;
use crate::staging::spec_input_staging_tasks;
use crate::staging::spec_runtime_staging_steps;

verus! {

/// The engine holds a claim in these phases: from the moment a pending
/// execution is taken until its staging tree is removed.
pub open spec fn claim_held(p: Phase) -> bool {
    match p {
        Phase::AwaitJob => true,
        Phase::AwaitRuntime => true,
        Phase::AwaitBusyAck => true,
        Phase::AwaitExecutionStatusAck => true,
        Phase::AwaitDirsCreated => true,
        Phase::AwaitRuntimeStaged => true,
        Phase::AwaitInputsStaged => true,
        Phase::AwaitRuntimeDirList => true,
        Phase::AwaitBackendExit => true,
        Phase::AwaitUploadStatusAck => true,
        Phase::AwaitOutputList => true,
        Phase::AwaitArtifactsRegistered => true,
        Phase::AwaitCompletedAck => true,
        Phase::AwaitHarvestDone => true,
        Phase::AwaitCleanup => true,
        _ => false,
    }
}

/// The staging tree of the claimed execution exists in these phases: from
/// the acknowledged creation of its directories until its removal.
pub open spec fn staging_phase(p: Phase) -> bool {
    match p {
        Phase::AwaitRuntimeStaged => true,
        Phase::AwaitInputsStaged => true,
        Phase::AwaitRuntimeDirList => true,
        Phase::AwaitBackendExit => true,
        Phase::AwaitUploadStatusAck => true,
        Phase::AwaitOutputList => true,
        Phase::AwaitArtifactsRegistered => true,
        Phase::AwaitHarvestDone => true,
        Phase::AwaitCompletedAck => true,
        Phase::AwaitCleanup => true,
        _ => false,
    }
}

/// The last status the engine reported for the claimed execution, by
/// phase: `PendingExecution` until the `Execution` report goes out, and so
/// on along the chain.
pub open spec fn reported_in_phase(p: Phase) -> Option<JobExecutionStatus> {
    match p {
        Phase::AwaitJob => Some(JobExecutionStatus::PendingExecution),
        Phase::AwaitRuntime => Some(JobExecutionStatus::PendingExecution),
        Phase::AwaitBusyAck => Some(JobExecutionStatus::PendingExecution),
        Phase::AwaitExecutionStatusAck => Some(JobExecutionStatus::Execution),
        Phase::AwaitDirsCreated => Some(JobExecutionStatus::Execution),
        Phase::AwaitRuntimeStaged => Some(JobExecutionStatus::Execution),
        Phase::AwaitInputsStaged => Some(JobExecutionStatus::Execution),
        Phase::AwaitRuntimeDirList => Some(JobExecutionStatus::Execution),
        Phase::AwaitBackendExit => Some(JobExecutionStatus::Execution),
        Phase::AwaitUploadStatusAck => Some(JobExecutionStatus::PendingArtifactUpload),
        Phase::AwaitOutputList => Some(JobExecutionStatus::PendingArtifactUpload),
        Phase::AwaitArtifactsRegistered => Some(JobExecutionStatus::PendingArtifactUpload),
        Phase::AwaitHarvestDone => Some(JobExecutionStatus::PendingArtifactUpload),
        Phase::AwaitCompletedAck => Some(JobExecutionStatus::Completed),
        Phase::AwaitCleanup => Some(JobExecutionStatus::Completed),
        _ => None,
    }
}

/// Every state the engine can reach is well-formed: the claim, the staging
/// tree, the fetched descriptors, the last reported statuses and the phase
/// all agree. A halted engine is exempt — nothing further happens to it.
pub open spec fn wf(v: EngineView) -> bool {
    v.phase == Phase::Halted || {
        &&& (claim_held(v.phase) <==> v.cycle is Some)
        &&& (v.staging_exists <==> staging_phase(v.phase))
        &&& (v.phase == Phase::Start ==> v.host_status is None)
        &&& (match v.phase {
            Phase::Start => true,
            Phase::Halted => true,
            Phase::AwaitIdleAck | Phase::AwaitPendingList | Phase::Sleeping | Phase::AwaitJob
                | Phase::AwaitRuntime => v.host_status == Some(HostStatus::Idle),
            _ => v.host_status == Some(HostStatus::Busy),
        })
        &&& (match v.cycle {
            Some(c) => {
                &&& reported_in_phase(v.phase) == Some(c.reported)
                &&& (v.phase != Phase::AwaitJob ==> c.job is Some)
                &&& (v.phase != Phase::AwaitJob && v.phase != Phase::AwaitRuntime ==> c.runtime
                    is Some)
                &&& (match v.phase {
                    Phase::AwaitArtifactsRegistered | Phase::AwaitHarvestDone
                        | Phase::AwaitCompletedAck | Phase::AwaitCleanup => c.output_files is Some,
                    _ => true,
                })
            },
            None => true,
        })
    }
}

/// Well-formedness is preserved by every transition, whatever the event.
pub proof fn lemma_step_preserves_wf(pre: EngineView, ev: Event)
    requires
        wf(pre),
    ensures
        wf(spec_step(pre, ev).0),
{
}

/// Every job-execution status the engine reports is the immediate
/// successor of the last one it reported for that same execution: observed
/// transitions follow the chain PendingExecution, Execution,
/// PendingArtifactUpload, Completed exactly, with no skips and no
/// regressions.
pub proof fn lemma_status_report_is_successor(pre: EngineView, ev: Event)
    requires
        wf(pre),
    ensures
        ({
            let (post, a) = spec_step(pre, ev);
            a matches ActionView::ReportJobExecutionStatus(id, s) ==> {
                &&& pre.cycle matches Some(c) && id == c.execution.id && s == status_successor(
                    c.reported,
                ) && status_rank(s) == status_rank(c.reported) + 1
                &&& post.cycle matches Some(c2) && c2.reported == s
            }
        }),
{
}

/// Host reports alternate: Busy is only ever reported when the last report
/// said Idle, and Idle only when the last report did not (at startup, or
/// after the Busy of a completed cycle). The host is never reported both at
/// once — each report carries exactly one status, recorded in the state,
/// and the record only moves when a report goes out.
pub proof fn lemma_host_reports_alternate(pre: EngineView, ev: Event)
    requires
        wf(pre),
    ensures
        ({
            let (post, a) = spec_step(pre, ev);
            &&& a == ActionView::ReportHostStatus(HostStatus::Busy) ==> pre.host_status == Some(
                HostStatus::Idle,
            ) && post.host_status == Some(HostStatus::Busy)
            &&& a == ActionView::ReportHostStatus(HostStatus::Idle) ==> pre.host_status != Some(
                HostStatus::Idle,
            ) && post.host_status == Some(HostStatus::Idle)
            &&& !(a is ReportHostStatus) ==> post.host_status == pre.host_status
        }),
{
}

/// The staging tree's lifecycle: it comes into being only when the claimed
/// execution's directories are acknowledged created, and it goes away only
/// at the successful end of a cycle, right before the next Idle report.
pub proof fn lemma_staging_tree_lifecycle(pre: EngineView, ev: Event)
    requires
        wf(pre),
    ensures
        ({
            let (post, a) = spec_step(pre, ev);
            &&& (!pre.staging_exists && post.staging_exists) ==> (pre.phase
                == Phase::AwaitDirsCreated && claim_held(pre.phase) && a is StageRuntime)
            &&& (pre.staging_exists && !post.staging_exists) ==> (pre.phase == Phase::AwaitCleanup
                && a == ActionView::ReportHostStatus(HostStatus::Idle) && post.cycle is None)
            &&& (post.phase != Phase::Halted ==> (post.staging_exists <==> staging_phase(
                post.phase,
            )))
        }),
{
    lemma_step_preserves_wf(pre, ev);
}

/// The backend only ever runs after the input staging tasks were all
/// acknowledged: a backend invocation is emitted only from the phase the
/// engine enters once staging is complete, with the staging tree in place.
pub proof fn lemma_backend_follows_staging(pre: EngineView, ev: Event)
    requires
        wf(pre),
    ensures
        ({
            let (post, a) = spec_step(pre, ev);
            &&& (a is RunBackend) ==> pre.phase == Phase::AwaitRuntimeDirList && pre.staging_exists
            &&& (a is ListRuntimeDir) ==> pre.phase == Phase::AwaitInputsStaged
                && pre.staging_exists
            &&& (a is StageInputs) ==> pre.phase == Phase::AwaitRuntimeStaged && pre.staging_exists
        }),
{
}

/// A whole run of the engine: the final state and the action trace that a
/// sequence of events produces, one action per event.
pub open spec fn run(v: EngineView, evs: Seq<Event>) -> (EngineView, Seq<ActionView>)
    decreases evs.len(),
{
    if evs.len() == 0 {
        (v, Seq::empty())
    } else {
        let first = spec_step(v, evs[0]);
        let rest = run(first.0, evs.drop_first());
        (rest.0, seq![first.1] + rest.1)
    }
}

/// Along any run from a well-formed state, every intermediate state is
/// well-formed, and each event yields exactly one action.
pub proof fn lemma_run_wf(v: EngineView, evs: Seq<Event>)
    requires
        wf(v),
    ensures
        wf(run(v, evs).0),
        run(v, evs).1.len() == evs.len(),
    decreases evs.len(),
{
    if evs.len() > 0 {
        lemma_step_preserves_wf(v, evs[0]);
        lemma_run_wf(spec_step(v, evs[0]).0, evs.drop_first());
    }
}

/// The state a run has reached after its first `i` events.
pub open spec fn state_at(v: EngineView, evs: Seq<Event>, i: int) -> EngineView
    decreases i,
{
    if i <= 0 {
        v
    } else {
        spec_step(state_at(v, evs, i - 1), evs[i - 1]).0
    }
}

/// Stepping once and running the rest reaches the same states as running
/// the whole sequence.
pub proof fn lemma_state_at_shift(v: EngineView, evs: Seq<Event>, i: int)
    requires
        evs.len() > 0,
        1 <= i <= evs.len(),
    ensures
        state_at(v, evs, i) == state_at(spec_step(v, evs[0]).0, evs.drop_first(), i - 1),
    decreases i,
{
    let s1 = spec_step(v, evs[0]).0;
    let rest = evs.drop_first();
    if i == 1 {
        assert(state_at(v, evs, 1) == spec_step(state_at(v, evs, 0), evs[0]).0);
        assert(state_at(v, evs, 0) == v);
        assert(state_at(s1, rest, 0) == s1);
    } else {
        lemma_state_at_shift(v, evs, i - 1);
        assert(rest[i - 2] == evs[i - 1]);
        assert(state_at(v, evs, i) == spec_step(state_at(v, evs, i - 1), evs[i - 1]).0);
        assert(state_at(s1, rest, i - 1) == spec_step(state_at(s1, rest, i - 2), rest[i - 2]).0);
    }
}

/// A run's trace, action by action: the i-th action is the step taken from
/// the state after i events, and the final state is the state after all of
/// them.
pub proof fn lemma_run_trace(v: EngineView, evs: Seq<Event>)
    ensures
        run(v, evs).0 == state_at(v, evs, evs.len() as int),
        run(v, evs).1.len() == evs.len(),
        forall|i: int|
            0 <= i < evs.len() ==> #[trigger] run(v, evs).1[i] == spec_step(
                state_at(v, evs, i),
                evs[i],
            ).1,
    decreases evs.len(),
{
    if evs.len() > 0 {
        let s1 = spec_step(v, evs[0]).0;
        let rest = evs.drop_first();
        lemma_run_trace(s1, rest);
        lemma_state_at_shift(v, evs, evs.len() as int);
        assert forall|i: int|
            0 <= i < evs.len() implies #[trigger] run(v, evs).1[i] == spec_step(
            state_at(v, evs, i),
            evs[i],
        ).1 by {
            if i == 0 {
                assert(run(v, evs).1[0] == spec_step(v, evs[0]).1);
            } else {
                assert(run(v, evs).1[i] == run(s1, rest).1[i - 1]);
                lemma_state_at_shift(v, evs, i);
                assert(rest[i - 1] == evs[i]);
            }
        }
    }
}

/// Every state a run passes through is well-formed.
pub proof fn lemma_state_at_wf(v: EngineView, evs: Seq<Event>, i: int)
    requires
        wf(v),
        0 <= i,
    ensures
        wf(state_at(v, evs, i)),
    decreases i,
{
    if i > 0 {
        lemma_state_at_wf(v, evs, i - 1);
        lemma_step_preserves_wf(state_at(v, evs, i - 1), evs[i - 1]);
    }
}

/// The monotonic-status law over whole runs: whatever events arrive, every
/// job-execution status the engine ever reports is the immediate successor
/// of the last one it reported for the claimed execution — the observed
/// transitions follow the chain PendingExecution, Execution,
/// PendingArtifactUpload, Completed with no skips and no regressions.
pub proof fn lemma_trace_status_reports_monotonic(v: EngineView, evs: Seq<Event>, i: int)
    requires
        wf(v),
        0 <= i < evs.len(),
    ensures
        ({
            let pre = state_at(v, evs, i);
            run(v, evs).1[i] matches ActionView::ReportJobExecutionStatus(id, s) ==> {
                &&& pre.cycle matches Some(c) && id == c.execution.id && s == status_successor(
                    c.reported,
                ) && status_rank(s) == status_rank(c.reported) + 1
            }
        }),
{
    lemma_run_trace(v, evs);
    lemma_state_at_wf(v, evs, i);
    lemma_status_report_is_successor(state_at(v, evs, i), evs[i]);
}

/// Between two host reports the recorded host status does not move.
pub proof fn lemma_host_status_stable(v: EngineView, evs: Seq<Event>, i: int, j: int)
    requires
        wf(v),
        0 <= i <= j <= evs.len(),
        forall|k: int| i <= k < j ==> !(#[trigger] run(v, evs).1[k] is ReportHostStatus),
    ensures
        state_at(v, evs, j).host_status == state_at(v, evs, i).host_status,
    decreases j - i,
{
    if j > i {
        lemma_host_status_stable(v, evs, i, j - 1);
        lemma_run_trace(v, evs);
        lemma_state_at_wf(v, evs, j - 1);
        lemma_host_reports_alternate(state_at(v, evs, j - 1), evs[j - 1]);
        assert(!(run(v, evs).1[j - 1] is ReportHostStatus));
        assert(run(v, evs).1[j - 1] == spec_step(state_at(v, evs, j - 1), evs[j - 1]).1);
        assert(state_at(v, evs, j) == spec_step(state_at(v, evs, j - 1), evs[j - 1]).0);
    }
}

/// The alternation law over whole runs: two consecutive host reports (no
/// other host report between them) never carry the same status — the host
/// alternates Idle and Busy across cycles.
pub proof fn lemma_trace_host_reports_alternate(
    v: EngineView,
    evs: Seq<Event>,
    i: int,
    j: int,
    si: HostStatus,
    sj: HostStatus,
)
    requires
        wf(v),
        0 <= i < j < evs.len(),
        run(v, evs).1[i] == ActionView::ReportHostStatus(si),
        run(v, evs).1[j] == ActionView::ReportHostStatus(sj),
        forall|k: int| i < k < j ==> !(#[trigger] run(v, evs).1[k] is ReportHostStatus),
    ensures
        si != sj,
{
    lemma_run_trace(v, evs);
    lemma_state_at_wf(v, evs, i);
    lemma_state_at_wf(v, evs, j);
    lemma_host_reports_alternate(state_at(v, evs, i), evs[i]);
    lemma_host_reports_alternate(state_at(v, evs, j), evs[j]);
    lemma_host_status_stable(v, evs, i + 1, j);
    assert(state_at(v, evs, i + 1).host_status == Some(si));
    assert(state_at(v, evs, j).host_status == Some(si));
}

/// The phases the engine only reaches once the input staging tasks were
/// all handed out.
pub open spec fn inputs_staged_phase(p: Phase) -> bool {
    match p {
        Phase::AwaitInputsStaged => true,
        Phase::AwaitRuntimeDirList => true,
        Phase::AwaitBackendExit => true,
        _ => false,
    }
}

/// Reaching a staged-inputs phase takes a staging fan-out first: somewhere
/// earlier in the run, the engine handed out the input staging tasks.
pub proof fn lemma_inputs_staged_before_phase(v: EngineView, evs: Seq<Event>, i: int)
    requires
        wf(v),
        !inputs_staged_phase(v.phase),
        0 <= i <= evs.len(),
        inputs_staged_phase(state_at(v, evs, i).phase),
    ensures
        exists|k: int| 0 <= k < i && #[trigger] run(v, evs).1[k] is StageInputs,
    decreases i,
{
    lemma_run_trace(v, evs);
    if i > 0 {
        if inputs_staged_phase(state_at(v, evs, i - 1).phase) {
            lemma_inputs_staged_before_phase(v, evs, i - 1);
            let k = choose|k: int| 0 <= k < i - 1 && #[trigger] run(v, evs).1[k] is StageInputs;
            assert(run(v, evs).1[k] is StageInputs);
        } else {
            assert(state_at(v, evs, i) == spec_step(state_at(v, evs, i - 1), evs[i - 1]).0);
            assert(run(v, evs).1[i - 1] == spec_step(state_at(v, evs, i - 1), evs[i - 1]).1);
            assert(run(v, evs).1[i - 1] is StageInputs);
        }
    }
}

/// The fan-out barrier over whole runs: whenever the backend is invoked,
/// the input staging tasks — one per input artifact — were handed out
/// earlier in the run, and the engine only moved on once they were all
/// acknowledged complete.
pub proof fn lemma_trace_backend_after_staging(v: EngineView, evs: Seq<Event>, i: int)
    requires
        wf(v),
        !inputs_staged_phase(v.phase),
        0 <= i < evs.len(),
        run(v, evs).1[i] is RunBackend,
    ensures
        exists|k: int| 0 <= k < i && #[trigger] run(v, evs).1[k] is StageInputs,
{
    lemma_run_trace(v, evs);
    lemma_state_at_wf(v, evs, i);
    lemma_backend_follows_staging(state_at(v, evs, i), evs[i]);
    lemma_inputs_staged_before_phase(v, evs, i);
}

/// One full successful cycle with a WebAssembly runtime, from a claim-ready
/// state (claim query underway, Idle reported, nothing claimed): the engine
/// emits exactly the cycle's actions, in order. In particular:
/// - the job-execution status reports are exactly Execution,
///   PendingArtifactUpload, Completed, in that order — the monotonic chain
///   with no skips and no regressions;
/// - the host reports are exactly Busy then Idle, returning the host to the
///   claim-ready state;
/// - the staging tree exists once the directories are created (after the
///   sixth event) and no longer exists when the cycle completes;
/// - the input fan-out has one staging task per input artifact, all staged
///   before the backend runs, and one artifact is registered per output
///   file.
#[verifier::rlimit(100)]
pub proof fn lemma_successful_cycle_wasmer(
    v0: EngineView,
    evs: Seq<Event>,
    xv: JobExecutionView,
    jv: JobView,
    rv: RuntimeView,
    entries: Seq<Seq<char>>,
    files: Seq<Seq<char>>,
    ids: Seq<Seq<char>>,
)
    requires
        v0.phase == Phase::AwaitPendingList,
        v0.cycle is None,
        !v0.staging_exists,
        v0.host_status == Some(HostStatus::Idle),
        evs.len() == 16,
        evs[0] matches Event::PendingExecutions(list) && list@.len() > 0 && list@[0]@ == xv,
        evs[1] matches Event::JobFetched(j) && j@ == jv,
        evs[2] matches Event::RuntimeFetched(r) && r@ == rv,
        rv.platform_execution_type == PlatformExecutionType::Wasmer,
        evs[3] == Event::Acked,
        evs[4] == Event::Acked,
        evs[5] == Event::Acked,
        evs[6] == Event::Acked,
        evs[7] == Event::Acked,
        evs[8] matches Event::RuntimeDirListed(en) && en.deep_view() == entries,
        spec_first_wasm(entries) is Some,
        evs[9] == Event::BackendExited(true),
        evs[10] == Event::Acked,
        evs[11] matches Event::OutputFilesListed(f) && f.deep_view() == files,
        evs[12] matches Event::ArtifactsRegistered(i) && i.deep_view() == ids,
        ids.len() == files.len(),
        evs[13] == Event::Acked,
        evs[14] == Event::Acked,
        evs[15] == Event::Acked,
    ensures
        run(v0, evs).1 == seq![
            ActionView::FetchJob(xv.job_id),
            ActionView::FetchRuntime(jv.runtime_id),
            ActionView::ReportHostStatus(HostStatus::Busy),
            ActionView::ReportJobExecutionStatus(xv.id, JobExecutionStatus::Execution),
            ActionView::CreateDirs(
                seq![
                    spec_job_execution_input_path(v0.root, xv.id),
                    spec_job_execution_output_path(v0.root, xv.id),
                ],
            ),
            ActionView::StageRuntime(spec_runtime_staging_steps(v0.root, xv.id, jv.runtime_id)),
            ActionView::StageInputs(spec_input_staging_tasks(v0.root, xv.id, jv.input_artifacts)),
            ActionView::ListRuntimeDir(spec_runtime_path(v0.root, xv.id, rv.id)),
            ActionView::RunBackend(
                spec_wasmer_args(v0.root, xv.id, spec_first_wasm(entries)->Some_0),
            ),
            ActionView::ReportJobExecutionStatus(xv.id, JobExecutionStatus::PendingArtifactUpload),
            ActionView::ListOutputDir(spec_job_execution_output_path(v0.root, xv.id)),
            ActionView::RegisterArtifacts(spec_artifact_requests(jv.project_id, files.len())),
            ActionView::HarvestOutputs(
                spec_harvest_task_list(
                    spec_job_execution_output_path(v0.root, xv.id),
                    files,
                    ids,
                ),
            ),
            ActionView::ReportJobExecutionStatus(xv.id, JobExecutionStatus::Completed),
            ActionView::RemoveDirTree(spec_job_execution_path(v0.root, xv.id)),
            ActionView::ReportHostStatus(HostStatus::Idle),
        ],
        run(v0, evs).0 == (EngineView {
            phase: Phase::AwaitIdleAck,
            host_status: Some(HostStatus::Idle),
            staging_exists: false,
            cycle: None,
            ..v0
        }),
        run(v0, evs.take(6)).0.staging_exists,
{
    let s1 = spec_step(v0, evs[0]).0;
    let a0 = spec_step(v0, evs[0]).1;
    let s2 = spec_step(s1, evs[1]).0;
    let a1 = spec_step(s1, evs[1]).1;
    let s3 = spec_step(s2, evs[2]).0;
    let a2 = spec_step(s2, evs[2]).1;
    let s4 = spec_step(s3, evs[3]).0;
    let a3 = spec_step(s3, evs[3]).1;
    let s5 = spec_step(s4, evs[4]).0;
    let a4 = spec_step(s4, evs[4]).1;
    let s6 = spec_step(s5, evs[5]).0;
    let a5 = spec_step(s5, evs[5]).1;
    let s7 = spec_step(s6, evs[6]).0;
    let a6 = spec_step(s6, evs[6]).1;
    let s8 = spec_step(s7, evs[7]).0;
    let a7 = spec_step(s7, evs[7]).1;
    let s9 = spec_step(s8, evs[8]).0;
    let a8 = spec_step(s8, evs[8]).1;
    let s10 = spec_step(s9, evs[9]).0;
    let a9 = spec_step(s9, evs[9]).1;
    let s11 = spec_step(s10, evs[10]).0;
    let a10 = spec_step(s10, evs[10]).1;
    let s12 = spec_step(s11, evs[11]).0;
    let a11 = spec_step(s11, evs[11]).1;
    let s13 = spec_step(s12, evs[12]).0;
    let a12 = spec_step(s12, evs[12]).1;
    let s14 = spec_step(s13, evs[13]).0;
    let a13 = spec_step(s13, evs[13]).1;
    let s15 = spec_step(s14, evs[14]).0;
    let a14 = spec_step(s14, evs[14]).1;
    let s16 = spec_step(s15, evs[15]).0;
    let a15 = spec_step(s15, evs[15]).1;
    lemma_run_trace(v0, evs);
    assert(state_at(v0, evs, 0) == v0);
    assert(state_at(v0, evs, 1) == s1);
    assert(state_at(v0, evs, 2) == s2);
    assert(state_at(v0, evs, 3) == s3);
    assert(state_at(v0, evs, 4) == s4);
    assert(state_at(v0, evs, 5) == s5);
    assert(state_at(v0, evs, 6) == s6);
    assert(state_at(v0, evs, 7) == s7);
    assert(state_at(v0, evs, 8) == s8);
    assert(state_at(v0, evs, 9) == s9);
    assert(state_at(v0, evs, 10) == s10);
    assert(state_at(v0, evs, 11) == s11);
    assert(state_at(v0, evs, 12) == s12);
    assert(state_at(v0, evs, 13) == s13);
    assert(state_at(v0, evs, 14) == s14);
    assert(state_at(v0, evs, 15) == s15);
    assert(state_at(v0, evs, 16) == s16);
    assert(run(v0, evs).1 =~= seq![
        a0, a1, a2, a3, a4, a5, a6, a7, a8, a9, a10, a11, a12, a13, a14, a15,
    ]);
    let t6 = evs.take(6);
    lemma_run_trace(v0, t6);
    assert(state_at(v0, t6, 0) == v0);
    assert(state_at(v0, t6, 1) == s1);
    assert(state_at(v0, t6, 2) == s2);
    assert(state_at(v0, t6, 3) == s3);
    assert(state_at(v0, t6, 4) == s4);
    assert(state_at(v0, t6, 5) == s5);
    assert(state_at(v0, t6, 6) == s6);
    assert(s6.staging_exists);
}

/// One full successful cycle with a container or bare-metal runtime, from a
/// claim-ready state: those selectors are declared extension points that
/// perform no backend work, so the engine emits no directory listing and no
/// backend invocation, yet the cycle still reports PendingArtifactUpload
/// and Completed and cleans up, exactly as with a real backend.
#[verifier::rlimit(100)]
pub proof fn lemma_successful_cycle_no_op_backend(
    v0: EngineView,
    evs: Seq<Event>,
    xv: JobExecutionView,
    jv: JobView,
    rv: RuntimeView,
    files: Seq<Seq<char>>,
    ids: Seq<Seq<char>>,
)
    requires
        v0.phase == Phase::AwaitPendingList,
        v0.cycle is None,
        !v0.staging_exists,
        v0.host_status == Some(HostStatus::Idle),
        evs.len() == 14,
        evs[0] matches Event::PendingExecutions(list) && list@.len() > 0 && list@[0]@ == xv,
        evs[1] matches Event::JobFetched(j) && j@ == jv,
        evs[2] matches Event::RuntimeFetched(r) && r@ == rv,
        rv.platform_execution_type != PlatformExecutionType::Wasmer,
        evs[3] == Event::Acked,
        evs[4] == Event::Acked,
        evs[5] == Event::Acked,
        evs[6] == Event::Acked,
        evs[7] == Event::Acked,
        evs[8] == Event::Acked,
        evs[9] matches Event::OutputFilesListed(f) && f.deep_view() == files,
        evs[10] matches Event::ArtifactsRegistered(i) && i.deep_view() == ids,
        ids.len() == files.len(),
        evs[11] == Event::Acked,
        evs[12] == Event::Acked,
        evs[13] == Event::Acked,
    ensures
        run(v0, evs).1 == seq![
            ActionView::FetchJob(xv.job_id),
            ActionView::FetchRuntime(jv.runtime_id),
            ActionView::ReportHostStatus(HostStatus::Busy),
            ActionView::ReportJobExecutionStatus(xv.id, JobExecutionStatus::Execution),
            ActionView::CreateDirs(
                seq![
                    spec_job_execution_input_path(v0.root, xv.id),
                    spec_job_execution_output_path(v0.root, xv.id),
                ],
            ),
            ActionView::StageRuntime(spec_runtime_staging_steps(v0.root, xv.id, jv.runtime_id)),
            ActionView::StageInputs(spec_input_staging_tasks(v0.root, xv.id, jv.input_artifacts)),
            ActionView::ReportJobExecutionStatus(xv.id, JobExecutionStatus::PendingArtifactUpload),
            ActionView::ListOutputDir(spec_job_execution_output_path(v0.root, xv.id)),
            ActionView::RegisterArtifacts(spec_artifact_requests(jv.project_id, files.len())),
            ActionView::HarvestOutputs(
                spec_harvest_task_list(
                    spec_job_execution_output_path(v0.root, xv.id),
                    files,
                    ids,
                ),
            ),
            ActionView::ReportJobExecutionStatus(xv.id, JobExecutionStatus::Completed),
            ActionView::RemoveDirTree(spec_job_execution_path(v0.root, xv.id)),
            ActionView::ReportHostStatus(HostStatus::Idle),
        ],
        run(v0, evs).0 == (EngineView {
            phase: Phase::AwaitIdleAck,
            host_status: Some(HostStatus::Idle),
            staging_exists: false,
            cycle: None,
            ..v0
        }),
{
    let s1 = spec_step(v0, evs[0]).0;
    let a0 = spec_step(v0, evs[0]).1;
    let s2 = spec_step(s1, evs[1]).0;
    let a1 = spec_step(s1, evs[1]).1;
    let s3 = spec_step(s2, evs[2]).0;
    let a2 = spec_step(s2, evs[2]).1;
    let s4 = spec_step(s3, evs[3]).0;
    let a3 = spec_step(s3, evs[3]).1;
    let s5 = spec_step(s4, evs[4]).0;
    let a4 = spec_step(s4, evs[4]).1;
    let s6 = spec_step(s5, evs[5]).0;
    let a5 = spec_step(s5, evs[5]).1;
    let s7 = spec_step(s6, evs[6]).0;
    let a6 = spec_step(s6, evs[6]).1;
    let s8 = spec_step(s7, evs[7]).0;
    let a7 = spec_step(s7, evs[7]).1;
    let s9 = spec_step(s8, evs[8]).0;
    let a8 = spec_step(s8, evs[8]).1;
    let s10 = spec_step(s9, evs[9]).0;
    let a9 = spec_step(s9, evs[9]).1;
    let s11 = spec_step(s10, evs[10]).0;
    let a10 = spec_step(s10, evs[10]).1;
    let s12 = spec_step(s11, evs[11]).0;
    let a11 = spec_step(s11, evs[11]).1;
    let s13 = spec_step(s12, evs[12]).0;
    let a12 = spec_step(s12, evs[12]).1;
    let s14 = spec_step(s13, evs[13]).0;
    let a13 = spec_step(s13, evs[13]).1;
    lemma_run_trace(v0, evs);
    assert(state_at(v0, evs, 0) == v0);
    assert(state_at(v0, evs, 1) == s1);
    assert(state_at(v0, evs, 2) == s2);
    assert(state_at(v0, evs, 3) == s3);
    assert(state_at(v0, evs, 4) == s4);
    assert(state_at(v0, evs, 5) == s5);
    assert(state_at(v0, evs, 6) == s6);
    assert(state_at(v0, evs, 7) == s7);
    assert(state_at(v0, evs, 8) == s8);
    assert(state_at(v0, evs, 9) == s9);
    assert(state_at(v0, evs, 10) == s10);
    assert(state_at(v0, evs, 11) == s11);
    assert(state_at(v0, evs, 12) == s12);
    assert(state_at(v0, evs, 13) == s13);
    assert(state_at(v0, evs, 14) == s14);
    assert(run(v0, evs).1 =~= seq![
        a0, a1, a2, a3, a4, a5, a6, a7, a8, a9, a10, a11, a12, a13,
    ]);
}

} // verus!
