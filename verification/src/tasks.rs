//! The task descriptor carried by the server slot, the submission payload it
//! is built from, and the task runner's decision logic.

use crate::server::{spec_elapsed, ServerInfo, ServerModel, SERVER_EXIT_TIME_OUT_AFTER_TASK_DONE};
use crate::status::{ServerStatus, TaskStatus};
use vstd::prelude::*;
use vstd::slice::slice_to_vec;

verus! {

/// Descriptor of the single in-flight task: the caller-supplied correlation
/// id, the opaque serialized inputs of the proof computation, and the task's
/// own progress. `result` stays empty until the computation is done.
#[derive(Debug)]
pub struct TaskInfo {
    pub task_id: String,
    pub vanilla_proof: Vec<u8>,
    pub pub_in: Vec<u8>,
    pub post_config: Vec<u8>,
    pub replicas_len: usize,
    pub result: Vec<u8>,
    pub task_status: TaskStatus,
}

/// The mathematical shape of a [`TaskInfo`].
#[verifier::ext_equal]
pub ghost struct TaskModel {
    pub task_id: Seq<char>,
    pub vanilla_proof: Seq<u8>,
    pub pub_in: Seq<u8>,
    pub post_config: Seq<u8>,
    pub replicas_len: int,
    pub result: Seq<u8>,
    pub task_status: TaskStatus,
}

impl View for TaskInfo {
    type V = TaskModel;

    open spec fn view(&self) -> TaskModel {
        TaskModel {
            task_id: self.task_id@,
            vanilla_proof: self.vanilla_proof@,
            pub_in: self.pub_in@,
            post_config: self.post_config@,
            replicas_len: self.replicas_len as int,
            result: self.result@,
            task_status: self.task_status,
        }
    }
}

impl TaskModel {
    /// The empty descriptor: no id, no payload, no progress.
    pub open spec fn spec_default() -> TaskModel {
        TaskModel {
            task_id: Seq::empty(),
            vanilla_proof: Seq::empty(),
            pub_in: Seq::empty(),
            post_config: Seq::empty(),
            replicas_len: 0,
            result: Seq::empty(),
            task_status: TaskStatus::Idle,
        }
    }
}

impl Default for TaskInfo {
    /// The slot starts out, and is reset to, an empty descriptor.
    fn default() -> (r: Self)
        ensures
            r@ == TaskModel::spec_default(),
    {
        TaskInfo {
            task_id: String::new(),
            vanilla_proof: Vec::new(),
            pub_in: Vec::new(),
            post_config: Vec::new(),
            replicas_len: 0,
            result: Vec::new(),
            task_status: TaskStatus::Idle,
        }
    }
}

impl TaskInfo {
    /// A deep copy of the descriptor, taken under the server lock so the
    /// computation can run on it without holding the lock.
    pub fn snapshot(&self) -> (r: TaskInfo)
        ensures
            r@ == self@,
    {
        TaskInfo {
            task_id: self.task_id.clone(),
            vanilla_proof: slice_to_vec(self.vanilla_proof.as_slice()),
            pub_in: slice_to_vec(self.pub_in.as_slice()),
            post_config: slice_to_vec(self.post_config.as_slice()),
            replicas_len: self.replicas_len,
            result: slice_to_vec(self.result.as_slice()),
            task_status: self.task_status,
        }
    }
}

/// The fields of a task-submission request, as they arrive over the wire.
#[derive(Debug)]
pub struct SnarkTaskRequestParams {
    pub task_id: String,
    pub vanilla_proof: Vec<u8>,
    pub pub_in: Vec<u8>,
    pub post_config: Vec<u8>,
    pub replicas_len: u32,
}

/// The mathematical shape of a [`SnarkTaskRequestParams`].
#[verifier::ext_equal]
pub ghost struct ParamsModel {
    pub task_id: Seq<char>,
    pub vanilla_proof: Seq<u8>,
    pub pub_in: Seq<u8>,
    pub post_config: Seq<u8>,
    pub replicas_len: int,
}

impl View for SnarkTaskRequestParams {
    type V = ParamsModel;

    open spec fn view(&self) -> ParamsModel {
        ParamsModel {
            task_id: self.task_id@,
            vanilla_proof: self.vanilla_proof@,
            pub_in: self.pub_in@,
            post_config: self.post_config@,
            replicas_len: self.replicas_len as int,
        }
    }
}

/// The descriptor a submission creates: the payload is copied in, the result
/// is empty, and the task is ready to be picked up by the runner.
pub open spec fn spec_task_from_params(p: ParamsModel) -> TaskModel {
    TaskModel {
        task_id: p.task_id,
        vanilla_proof: p.vanilla_proof,
        pub_in: p.pub_in,
        post_config: p.post_config,
        replicas_len: p.replicas_len,
        result: Seq::empty(),
        task_status: TaskStatus::Ready,
    }
}

/// Builds the slot's task descriptor from an accepted submission.
pub fn set_task_info(snark_params: &SnarkTaskRequestParams) -> (task_info: TaskInfo)
    ensures
        task_info@ == spec_task_from_params(snark_params@),
{
    TaskInfo {
        task_id: snark_params.task_id.clone(),
        vanilla_proof: slice_to_vec(snark_params.vanilla_proof.as_slice()),
        pub_in: slice_to_vec(snark_params.pub_in.as_slice()),
        post_config: slice_to_vec(snark_params.post_config.as_slice()),
        replicas_len: snark_params.replicas_len as usize,
        result: Vec::new(),
        task_status: TaskStatus::Ready,
    }
}

/// When woken, the runner re-reads the authoritative record rather than
/// trusting the signal: it picks up a task exactly when one is ready, so a
/// duplicate or stale wake-up is harmless.
pub fn ready_task_snapshot(si: &ServerInfo) -> (r: Option<TaskInfo>)
    ensures
        si.task_info@.task_status == TaskStatus::Ready ==> (r matches Some(t) && t@
            == si.task_info@),
        si.task_info@.task_status != TaskStatus::Ready ==> r is None,
{
    if si.task_info.task_status == TaskStatus::Ready {
        Some(si.task_info.snapshot())
    } else {
        None
    }
}

/// Abstracts the computation's outcome — result bytes or a failure text — to
/// the model level.
pub open spec fn spec_outcome_view(outcome: Result<Vec<u8>, String>) -> Result<Seq<u8>, Seq<char>> {
    match outcome {
        Ok(res) => Ok(res@),
        Err(msg) => Err(msg@),
    }
}

/// How the runner writes a finished computation back into the record: on
/// success the bytes are stored and the task is done, on failure the text is
/// stored and the task has failed; either way the clock is stamped. A record
/// no longer busy — the slot was reclaimed meanwhile — is left untouched.
pub open spec fn spec_record(m: ServerModel, outcome: Result<Seq<u8>, Seq<char>>, now: u64) -> ServerModel {
    if m.status != ServerStatus::Working {
        m
    } else {
        match outcome {
            Ok(res) => ServerModel {
                task_info: TaskModel {
                    result: res,
                    task_status: TaskStatus::Done,
                    ..m.task_info
                },
                last_update_time: now,
                ..m
            },
            Err(msg) => ServerModel {
                task_info: TaskModel { task_status: TaskStatus::Failed, ..m.task_info },
                error: msg,
                last_update_time: now,
                ..m
            },
        }
    }
}

/// Writes the outcome of the computation back into the record, per
/// [`spec_record`]. A decode failure of the embedded configuration is
/// reported here as a failure outcome too, so a malformed submission cannot
/// wedge the slot until the pickup timeout alone frees it.
pub fn record_task_outcome(si: &mut ServerInfo, outcome: Result<Vec<u8>, String>, now: u64)
    ensures
        final(si)@ == spec_record(old(si)@, spec_outcome_view(outcome), now),
{
    if si.status == ServerStatus::Working {
        match outcome {
            Ok(res) => {
                si.task_info.result = res;
                si.task_info.task_status = TaskStatus::Done;
            },
            Err(msg) => {
                si.task_info.task_status = TaskStatus::Failed;
                si.error = msg;
            },
        }
        si.last_update_time = now;
    }
}

/// The shutdown drain rule. An in-flight computation cannot be preempted, so
/// the drain loop polls the task's progress: it keeps waiting while the task
/// runs, waits for a done result to be picked up until
/// [`SERVER_EXIT_TIME_OUT_AFTER_TASK_DONE`] has passed since the drain
/// began, and exits at once in every terminal or not-yet-started state.
pub open spec fn spec_drain_should_exit(task_status: TaskStatus, now: u64, drain_start: u64) -> bool {
    match task_status {
        TaskStatus::Idle => true,
        TaskStatus::Ready => true,
        TaskStatus::Working => false,
        TaskStatus::Done => spec_elapsed(now, drain_start)
            > SERVER_EXIT_TIME_OUT_AFTER_TASK_DONE as int,
        TaskStatus::Returned => true,
        TaskStatus::Failed => true,
    }
}

/// Exec counterpart of [`spec_drain_should_exit`], consulted by the drain
/// loop on every poll of the record.
pub fn drain_should_exit(task_status: TaskStatus, now: u64, drain_start: u64) -> (r: bool)
    ensures
        r == spec_drain_should_exit(task_status, now, drain_start),
{
    match task_status {
        TaskStatus::Idle => true,
        TaskStatus::Ready => true,
        TaskStatus::Working => false,
        TaskStatus::Done => crate::server::elapsed_millis(now, drain_start)
            > SERVER_EXIT_TIME_OUT_AFTER_TASK_DONE,
        TaskStatus::Returned => true,
        TaskStatus::Failed => true,
    }
}

} // verus!
