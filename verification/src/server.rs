//! The server's single mutable record and the lease controller: the rules by
//! which the slot moves between free, reserved and busy, under three
//! timeout-based recovery paths.
//!
//! Every operation takes the current reading `now` of a monotonic
//! millisecond clock as an argument; the caller reads the clock after
//! acquiring the lock that guards the record, so the timeout check and the
//! state change it gates are atomic.

use crate::error::{Error, ErrorModel};
use crate::status::{ServerStatus, TaskStatus};
use crate::tasks::{set_task_info, spec_task_from_params, ParamsModel, SnarkTaskRequestParams, TaskInfo, TaskModel};
use vstd::prelude::*;
use vstd::slice::slice_to_vec;
use vstd::string::StringExecFns;

verus! {

/// A lease not followed by a submission is treated as abandoned after this
/// many milliseconds.
pub const SERVER_LOCK_TIME_OUT: u64 = 10_000;

/// A finished task whose result is not fetched is dropped after this many
/// milliseconds.
pub const SERVER_TASK_GET_BACK_TIME_OUT: u64 = 60_000;

/// During shutdown, a finished task is waited for at most this many
/// milliseconds before its result is given up.
pub const SERVER_EXIT_TIME_OUT_AFTER_TASK_DONE: u64 = 300_000;

/// The single source of truth for what the slot is doing now. Exactly one
/// instance exists per running process, guarded by one lock outside this
/// crate; every mutation stamps `last_update_time`.
#[derive(Debug)]
pub struct ServerInfo {
    pub task_info: TaskInfo,
    pub status: ServerStatus,
    pub last_update_time: u64,
    pub error: String,
}

/// The mathematical shape of a [`ServerInfo`].
#[verifier::ext_equal]
pub ghost struct ServerModel {
    pub task_info: TaskModel,
    pub status: ServerStatus,
    pub last_update_time: u64,
    pub error: Seq<char>,
}

impl View for ServerInfo {
    type V = ServerModel;

    open spec fn view(&self) -> ServerModel {
        ServerModel {
            task_info: self.task_info@,
            status: self.status,
            last_update_time: self.last_update_time,
            error: self.error@,
        }
    }
}

impl ServerModel {
    /// The record at process start: a free slot holding an empty descriptor.
    pub open spec fn spec_init() -> ServerModel {
        ServerModel {
            task_info: TaskModel::spec_default(),
            status: ServerStatus::Free,
            last_update_time: 0,
            error: Seq::empty(),
        }
    }

    /// The combinations of slot status and task progress that the protocol
    /// can actually reach. A free slot holds no task, an untouched one, a
    /// returned one or a failed one; a reserved slot holds an empty
    /// descriptor; a busy slot holds a task that is ready, done or failed.
    pub open spec fn wf(self) -> bool {
        &&& (self.status == ServerStatus::Free ==> {
            ||| self.task_info.task_status == TaskStatus::Idle
            ||| self.task_info.task_status == TaskStatus::Returned
            ||| self.task_info.task_status == TaskStatus::Failed
        })
        &&& (self.status == ServerStatus::Locked ==> self.task_info.task_status == TaskStatus::Idle)
        &&& (self.status == ServerStatus::Working ==> {
            ||| self.task_info.task_status == TaskStatus::Ready
            ||| self.task_info.task_status == TaskStatus::Done
            ||| self.task_info.task_status == TaskStatus::Failed
        })
    }
}

impl Default for ServerInfo {
    /// The record at process start.
    fn default() -> (r: Self)
        ensures
            r@ == ServerModel::spec_init(),
    {
        ServerInfo {
            task_info: TaskInfo::default(),
            status: ServerStatus::Free,
            last_update_time: 0,
            error: String::new(),
        }
    }
}

/// Milliseconds elapsed between two clock readings, zero if the clock
/// appears to have gone backwards.
pub open spec fn spec_elapsed(now: u64, since: u64) -> int {
    if now >= since {
        now - since
    } else {
        0
    }
}

/// Exec counterpart of [`spec_elapsed`].
pub fn elapsed_millis(now: u64, since: u64) -> (r: u64)
    ensures
        r as int == spec_elapsed(now, since),
{
    if now >= since {
        now - since
    } else {
        0
    }
}

/// Grants a fresh lease: an empty descriptor carrying the requesting id, the
/// slot reserved, the clock stamped. The last failure text is left in place.
pub open spec fn spec_grant(m: ServerModel, id: Seq<char>, now: u64) -> ServerModel {
    ServerModel {
        task_info: TaskModel { task_id: id, ..TaskModel::spec_default() },
        status: ServerStatus::Locked,
        last_update_time: now,
        error: m.error,
    }
}

/// When a reservation request is granted: the slot is free, or its lease was
/// never used within [`SERVER_LOCK_TIME_OUT`], or a finished task's result
/// was not picked up within [`SERVER_TASK_GET_BACK_TIME_OUT`].
pub open spec fn spec_reserve_grants(m: ServerModel, now: u64) -> bool {
    ||| m.status == ServerStatus::Free
    ||| (m.status == ServerStatus::Locked && spec_elapsed(now, m.last_update_time)
        > SERVER_LOCK_TIME_OUT as int)
    ||| (m.status == ServerStatus::Working && (m.task_info.task_status == TaskStatus::Done
        || m.task_info.task_status == TaskStatus::Failed) && spec_elapsed(
        now,
        m.last_update_time,
    ) >= SERVER_TASK_GET_BACK_TIME_OUT as int)
}

/// One reservation request: the record after the call and the status word
/// sent back. `Free` means "you got it"; any other word means "busy, try
/// later" and leaves the record untouched.
pub open spec fn spec_reserve(m: ServerModel, id: Seq<char>, now: u64) -> (ServerModel, ServerStatus) {
    if spec_reserve_grants(m, now) {
        (spec_grant(m, id, now), ServerStatus::Free)
    } else {
        (m, m.status)
    }
}

/// A submission is accepted exactly when the slot is reserved and the
/// caller's id is the recorded lease id.
pub open spec fn spec_submit_ok(m: ServerModel, id: Seq<char>) -> bool {
    m.status == ServerStatus::Locked && m.task_info.task_id == id
}

/// The status-specific reason a submission is refused.
pub open spec fn spec_submit_refusal_msg(status: ServerStatus) -> Seq<char> {
    match status {
        ServerStatus::Locked => "server was locked by another task, can not be used now"@,
        ServerStatus::Free => "server should be locked until task is executed"@,
        ServerStatus::Working => "server is working on another task, can not be used now"@,
        ServerStatus::Unknown => "server is Unknown, can not be used now"@,
    }
}

/// Exec counterpart of [`spec_submit_refusal_msg`].
fn submit_refusal_msg(status: ServerStatus) -> (r: &'static str)
    ensures
        r@ == spec_submit_refusal_msg(status),
{
    match status {
        ServerStatus::Locked => "server was locked by another task, can not be used now",
        ServerStatus::Free => "server should be locked until task is executed",
        ServerStatus::Working => "server is working on another task, can not be used now",
        ServerStatus::Unknown => "server is Unknown, can not be used now",
    }
}

/// One submission: on acceptance the payload fills the descriptor, the task
/// becomes ready for the runner and the slot turns busy; on refusal the
/// record is untouched.
pub open spec fn spec_submit(m: ServerModel, p: ParamsModel, now: u64) -> (ServerModel, Result<
    (),
    ErrorModel,
>) {
    if spec_submit_ok(m, p.task_id) {
        (
            ServerModel {
                task_info: spec_task_from_params(p),
                status: ServerStatus::Working,
                last_update_time: now,
                error: m.error,
            },
            Ok(()),
        )
    } else {
        (m, Err(ErrorModel::InvalidParameters(spec_submit_refusal_msg(m.status))))
    }
}

/// The message sent back when a result is requested under a foreign id.
pub open spec fn spec_fetch_mismatch_msg(current: Seq<char>, got: Seq<char>) -> Seq<char> {
    "current working task id is:"@ + current + ",but:"@ + got
}

/// One result request: retrieval is one-shot. A done task hands its bytes
/// out, is marked returned, and the slot turns free; a failed task frees the
/// slot and surfaces the stored failure text once; an unfinished task asks
/// the caller to poll again.
pub open spec fn spec_fetch(m: ServerModel, id: Seq<char>, now: u64) -> (ServerModel, Result<
    Seq<u8>,
    ErrorModel,
>) {
    if m.status != ServerStatus::Working {
        (m, Err(ErrorModel::NoTaskRunningOnSever))
    } else if m.task_info.task_id != id {
        (m, Err(ErrorModel::InvalidParameters(spec_fetch_mismatch_msg(m.task_info.task_id, id))))
    } else if m.task_info.task_status == TaskStatus::Done {
        (
            ServerModel {
                task_info: TaskModel { task_status: TaskStatus::Returned, ..m.task_info },
                status: ServerStatus::Free,
                last_update_time: now,
                error: m.error,
            },
            Ok(m.task_info.result),
        )
    } else if m.task_info.task_status == TaskStatus::Failed {
        (
            ServerModel { status: ServerStatus::Free, last_update_time: now, ..m },
            Err(ErrorModel::TaskFailedWithError(m.error)),
        )
    } else {
        (m, Err(ErrorModel::TaskStillRunning))
    }
}

/// The message sent back when a release is requested under a foreign id.
pub open spec fn spec_unlock_mismatch_msg(current: Seq<char>, got: Seq<char>) -> Seq<char> {
    "can not be unlocked by another task ,which is locked by task_id:"@ + current + ",but "@ + got
}

/// One release request: only a reservation can be released, and only by the
/// id that holds it; then the record returns to its defaults. A busy slot
/// can only be left through completion or the timeout paths of reservation.
pub open spec fn spec_unlock(m: ServerModel, id: Seq<char>, now: u64) -> (ServerModel, Result<
    (),
    ErrorModel,
>) {
    if m.status == ServerStatus::Free {
        (m, Err(ErrorModel::InvalidParameters("server is already Free"@)))
    } else if m.status == ServerStatus::Locked {
        if m.task_info.task_id == id {
            (
                ServerModel {
                    task_info: TaskModel::spec_default(),
                    status: ServerStatus::Free,
                    last_update_time: now,
                    error: m.error,
                },
                Ok(()),
            )
        } else {
            (
                m,
                Err(ErrorModel::InvalidParameters(spec_unlock_mismatch_msg(m.task_info.task_id, id))),
            )
        }
    } else {
        (
            m,
            Err(ErrorModel::InvalidParameters(
                "this operation just used to unlock a server in status Locked"@,
            )),
        )
    }
}

/// Abstracts an executable unit result to the model level.
pub open spec fn spec_unit_result_view(r: Result<(), Error>) -> Result<(), ErrorModel> {
    match r {
        Ok(u) => Ok(u),
        Err(e) => Err(e@),
    }
}

/// Abstracts an executable byte result to the model level.
pub open spec fn spec_bytes_result_view(r: Result<Vec<u8>, Error>) -> Result<Seq<u8>, ErrorModel> {
    match r {
        Ok(v) => Ok(v@),
        Err(e) => Err(e@),
    }
}

impl ServerInfo {
    /// Resets the descriptor for a fresh lease under `task_id`.
    fn grant(&mut self, task_id: String, now: u64)
        ensures
            final(self)@ == spec_grant(old(self)@, task_id@, now),
    {
        self.task_info = TaskInfo::default();
        self.task_info.task_id = task_id;
        self.status = ServerStatus::Locked;
        self.last_update_time = now;
    }

    /// The reservation operation: grants the slot when it is free or when
    /// one of the two abandonment timeouts has fired, and otherwise reports
    /// the current status without touching the record. Never fails.
    pub fn lock_server_if_free(&mut self, task_id: String, now: u64) -> (r: ServerStatus)
        ensures
            final(self)@ == spec_reserve(old(self)@, task_id@, now).0,
            r == spec_reserve(old(self)@, task_id@, now).1,
    {
        match self.status {
            ServerStatus::Free => {
                self.grant(task_id, now);
                ServerStatus::Free
            },
            ServerStatus::Locked => {
                if elapsed_millis(now, self.last_update_time) > SERVER_LOCK_TIME_OUT {
                    self.grant(task_id, now);
                    ServerStatus::Free
                } else {
                    ServerStatus::Locked
                }
            },
            ServerStatus::Working => {
                if (self.task_info.task_status == TaskStatus::Done || self.task_info.task_status
                    == TaskStatus::Failed) && elapsed_millis(now, self.last_update_time)
                    >= SERVER_TASK_GET_BACK_TIME_OUT {
                    self.grant(task_id, now);
                    ServerStatus::Free
                } else {
                    ServerStatus::Working
                }
            },
            ServerStatus::Unknown => ServerStatus::Unknown,
        }
    }

    /// The submission operation. On acceptance the caller must wake the task
    /// runner, whose channel lives outside this crate.
    pub fn do_task(&mut self, task_params: &SnarkTaskRequestParams, now: u64) -> (r: Result<
        (),
        Error,
    >)
        ensures
            final(self)@ == spec_submit(old(self)@, task_params@, now).0,
            spec_unit_result_view(r) == spec_submit(old(self)@, task_params@, now).1,
    {
        if self.status == ServerStatus::Locked && self.task_info.task_id == task_params.task_id {
            self.task_info = set_task_info(task_params);
            self.status = ServerStatus::Working;
            self.last_update_time = now;
            Ok(())
        } else {
            Err(Error::InvalidParameters(submit_refusal_msg(self.status).to_owned()))
        }
    }

    /// The retrieval operation: one-shot, per the rules of [`spec_fetch`].
    pub fn get_task_result(&mut self, task_id: String, now: u64) -> (r: Result<Vec<u8>, Error>)
        ensures
            final(self)@ == spec_fetch(old(self)@, task_id@, now).0,
            spec_bytes_result_view(r) == spec_fetch(old(self)@, task_id@, now).1,
    {
        if self.status == ServerStatus::Working {
            if !(task_id == self.task_info.task_id) {
                let mut m = "current working task id is:".to_owned();
                m.append(self.task_info.task_id.as_str());
                m.append(",but:");
                m.append(task_id.as_str());
                Err(Error::InvalidParameters(m))
            } else if self.task_info.task_status == TaskStatus::Done {
                self.status = ServerStatus::Free;
                self.last_update_time = now;
                self.task_info.task_status = TaskStatus::Returned;
                Ok(slice_to_vec(self.task_info.result.as_slice()))
            } else if self.task_info.task_status == TaskStatus::Failed {
                self.status = ServerStatus::Free;
                self.last_update_time = now;
                Err(Error::TaskFailedWithError(self.error.clone()))
            } else {
                Err(Error::TaskStillRunning)
            }
        } else {
            Err(Error::NoTaskRunningOnSever)
        }
    }

    /// The release operation, per the rules of [`spec_unlock`].
    pub fn unlock(&mut self, task_id: String, now: u64) -> (r: Result<(), Error>)
        ensures
            final(self)@ == spec_unlock(old(self)@, task_id@, now).0,
            spec_unit_result_view(r) == spec_unlock(old(self)@, task_id@, now).1,
    {
        if self.status == ServerStatus::Free {
            Err(Error::InvalidParameters("server is already Free".to_owned()))
        } else if self.status == ServerStatus::Locked {
            if task_id == self.task_info.task_id {
                self.status = ServerStatus::default();
                self.task_info = TaskInfo::default();
                self.last_update_time = now;
                Ok(())
            } else {
                let mut m = "can not be unlocked by another task ,which is locked by task_id:"
                    .to_owned();
                m.append(self.task_info.task_id.as_str());
                m.append(",but ");
                m.append(task_id.as_str());
                Err(Error::InvalidParameters(m))
            }
        } else {
            Err(Error::InvalidParameters(
                "this operation just used to unlock a server in status Locked".to_owned(),
            ))
        }
    }
}

} // verus!
