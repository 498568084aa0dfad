//! The protocol's guarantees, stated and proved over the model: exclusivity
//! of the lease, the exactness of admission, the one-shot round trip of a
//! result, the two abandonment-recovery paths, the safety of release, and
//! preservation of the reachable-state shape.

use crate::error::ErrorModel;
use crate::server::{
    spec_elapsed, spec_fetch, spec_grant, spec_reserve, spec_reserve_grants, spec_submit,
    spec_submit_ok, spec_unlock, spec_unlock_mismatch_msg, ServerModel, SERVER_LOCK_TIME_OUT,
    SERVER_TASK_GET_BACK_TIME_OUT,
};
use crate::status::{ServerStatus, TaskStatus};
use crate::tasks::{spec_record, ParamsModel};
use vstd::prelude::*;

verus! {

/// The record after a whole sequence of reservation requests, each given by
/// the requesting id and the clock reading at which it arrived.
pub open spec fn spec_reserve_seq(m: ServerModel, ids: Seq<Seq<char>>, times: Seq<u64>) -> ServerModel
    decreases ids.len(),
{
    if ids.len() == 0 {
        m
    } else {
        spec_reserve_seq(spec_reserve(m, ids[0], times[0]).0, ids.skip(1), times.skip(1))
    }
}

/// A reservation that meets a held, unexpired lease is answered `Locked` and
/// does not touch the record.
pub proof fn lemma_reserve_busy_unchanged(m: ServerModel, id: Seq<char>, now: u64)
    requires
        m.status == ServerStatus::Locked,
        spec_elapsed(now, m.last_update_time) <= SERVER_LOCK_TIME_OUT as int,
    ensures
        spec_reserve(m, id, now).0 == m,
        spec_reserve(m, id, now).1 == ServerStatus::Locked,
{
}

/// Lease exclusivity: from any state in which a reservation is granted, the
/// granted caller observes `Free`, and every further reservation whose clock
/// reading lies within [`SERVER_LOCK_TIME_OUT`] of the grant observes
/// `Locked` — whatever id it carries, however many there are — and the
/// record stays exactly as the grant left it.
pub proof fn lemma_lease_exclusive_window(
    m0: ServerModel,
    first_id: Seq<char>,
    t0: u64,
    ids: Seq<Seq<char>>,
    times: Seq<u64>,
)
    requires
        spec_reserve_grants(m0, t0),
        ids.len() == times.len(),
        forall|i: int|
            0 <= i < times.len() ==> spec_elapsed(#[trigger] times[i], t0)
                <= SERVER_LOCK_TIME_OUT as int,
    ensures
        spec_reserve(m0, first_id, t0).1 == ServerStatus::Free,
        spec_reserve_seq(spec_reserve(m0, first_id, t0).0, ids, times) == spec_reserve(
            m0,
            first_id,
            t0,
        ).0,
        forall|i: int|
            0 <= i < ids.len() ==> spec_reserve(
                spec_reserve(m0, first_id, t0).0,
                ids[i],
                #[trigger] times[i],
            ).1 == ServerStatus::Locked,
    decreases ids.len(),
{
    let m1 = spec_reserve(m0, first_id, t0).0;
    assert(m1 == spec_grant(m0, first_id, t0));
    assert forall|i: int| 0 <= i < ids.len() implies spec_reserve(m1, ids[i], #[trigger] times[i]).1
        == ServerStatus::Locked by {
        lemma_reserve_busy_unchanged(m1, ids[i], times[i]);
    }
    if ids.len() > 0 {
        lemma_reserve_busy_unchanged(m1, ids[0], times[0]);
        assert(spec_reserve(m1, ids[0], times[0]).0 == m1);
        assert forall|i: int|
            0 <= i < times.skip(1).len() implies spec_elapsed(#[trigger] times.skip(1)[i], t0)
            <= SERVER_LOCK_TIME_OUT as int by {
            assert(times.skip(1)[i] == times[i + 1]);
        }
        lemma_lease_exclusive_window(m0, first_id, t0, ids.skip(1), times.skip(1));
        assert(spec_reserve_seq(m1, ids, times) == spec_reserve_seq(
            m1,
            ids.skip(1),
            times.skip(1),
        ));
    }
}

/// Admission is exact: a submission succeeds precisely when the slot is
/// reserved and the caller's id equals the recorded lease id, and a refused
/// submission leaves the record unchanged.
pub proof fn lemma_submit_exact(m: ServerModel, p: ParamsModel, now: u64)
    ensures
        (spec_submit(m, p, now).1 matches Ok(_)) <==> spec_submit_ok(m, p.task_id),
        !spec_submit_ok(m, p.task_id) ==> spec_submit(m, p, now).0 == m,
{
}

/// Round trip: an accepted submission, once the runner has completed it,
/// hands its result bytes out exactly once; the slot then reads free with
/// the task marked returned, and an immediate second retrieval under the
/// same id reports that no task is running and changes nothing.
pub proof fn lemma_result_round_trip(
    m: ServerModel,
    p: ParamsModel,
    t1: u64,
    res: Seq<u8>,
    t2: u64,
    t3: u64,
    t4: u64,
)
    requires
        spec_submit_ok(m, p.task_id),
    ensures
        ({
            let m1 = spec_submit(m, p, t1).0;
            let m2 = spec_record(m1, Ok(res), t2);
            let m3 = spec_fetch(m2, p.task_id, t3).0;
            &&& spec_submit(m, p, t1).1 == Ok::<(), ErrorModel>(())
            &&& spec_fetch(m2, p.task_id, t3).1 == Ok::<Seq<u8>, ErrorModel>(res)
            &&& m3.status == ServerStatus::Free
            &&& m3.task_info.task_status == TaskStatus::Returned
            &&& spec_fetch(m3, p.task_id, t4).1 == Err::<Seq<u8>, ErrorModel>(
                ErrorModel::NoTaskRunningOnSever,
            )
            &&& spec_fetch(m3, p.task_id, t4).0 == m3
        }),
{
}

/// Timeout reclaim: a lease granted and then never used is, once
/// [`SERVER_LOCK_TIME_OUT`] has passed, granted anew to the next caller;
/// from then on the stale id can no longer submit.
pub proof fn lemma_lease_timeout_reclaim(
    m: ServerModel,
    id_a: Seq<char>,
    t0: u64,
    id_b: Seq<char>,
    t1: u64,
)
    requires
        spec_reserve_grants(m, t0),
        spec_elapsed(t1, t0) > SERVER_LOCK_TIME_OUT as int,
    ensures
        ({
            let m1 = spec_reserve(m, id_a, t0).0;
            let m2 = spec_reserve(m1, id_b, t1).0;
            &&& spec_reserve(m, id_a, t0).1 == ServerStatus::Free
            &&& spec_reserve(m1, id_b, t1).1 == ServerStatus::Free
            &&& m2.task_info.task_id == id_b
            &&& (id_a != id_b ==> !spec_submit_ok(m2, id_a))
        }),
{
}

/// Pickup abandonment: once the runner records a task as done, if the
/// result is not fetched within [`SERVER_TASK_GET_BACK_TIME_OUT`] the next
/// reservation reclaims the slot.
pub proof fn lemma_result_pickup_timeout(
    m: ServerModel,
    res: Seq<u8>,
    t1: u64,
    id: Seq<char>,
    t2: u64,
)
    requires
        m.status == ServerStatus::Working,
        spec_elapsed(t2, t1) >= SERVER_TASK_GET_BACK_TIME_OUT as int,
    ensures
        ({
            let m1 = spec_record(m, Ok(res), t1);
            &&& m1.task_info.task_status == TaskStatus::Done
            &&& spec_reserve(m1, id, t2).1 == ServerStatus::Free
            &&& spec_reserve(m1, id, t2).0 == spec_grant(m1, id, t2)
        }),
{
}

/// Release is idempotent-safe: releasing a held lease succeeds and frees the
/// slot; releasing again reports "already free" and changes nothing; and a
/// release under a foreign id while the lease is held never mutates the
/// record.
pub proof fn lemma_release_idempotent_safe(
    m: ServerModel,
    id: Seq<char>,
    t1: u64,
    t2: u64,
    foreign: Seq<char>,
)
    requires
        m.status == ServerStatus::Locked,
        m.task_info.task_id == id,
        foreign != id,
    ensures
        ({
            let m1 = spec_unlock(m, id, t1).0;
            &&& spec_unlock(m, id, t1).1 == Ok::<(), ErrorModel>(())
            &&& m1.status == ServerStatus::Free
            &&& spec_unlock(m1, id, t2).1 == Err::<(), ErrorModel>(
                ErrorModel::InvalidParameters("server is already Free"@),
            )
            &&& spec_unlock(m1, id, t2).0 == m1
            &&& spec_unlock(m, foreign, t1).0 == m
            &&& spec_unlock(m, foreign, t1).1 == Err::<(), ErrorModel>(
                ErrorModel::InvalidParameters(spec_unlock_mismatch_msg(id, foreign)),
            )
        }),
{
}

/// Every operation of the protocol preserves the reachable-state shape
/// [`ServerModel::wf`], and the initial record has it.
pub proof fn lemma_ops_preserve_wf(
    m: ServerModel,
    id: Seq<char>,
    p: ParamsModel,
    outcome: Result<Seq<u8>, Seq<char>>,
    now: u64,
)
    requires
        m.wf(),
    ensures
        spec_reserve(m, id, now).0.wf(),
        spec_submit(m, p, now).0.wf(),
        spec_fetch(m, id, now).0.wf(),
        spec_unlock(m, id, now).0.wf(),
        spec_record(m, outcome, now).wf(),
        ServerModel::spec_init().wf(),
{
}

/// One step of the protocol, as seen by the shared record: one of the four
/// admission operations, or the runner's write-back of an outcome.
pub ghost enum ProtocolOp {
    Reserve(Seq<char>, u64),
    Submit(ParamsModel, u64),
    Fetch(Seq<char>, u64),
    Release(Seq<char>, u64),
    Record(Result<Seq<u8>, Seq<char>>, u64),
}

/// The record after one protocol step.
pub open spec fn spec_apply(m: ServerModel, op: ProtocolOp) -> ServerModel {
    match op {
        ProtocolOp::Reserve(id, now) => spec_reserve(m, id, now).0,
        ProtocolOp::Submit(p, now) => spec_submit(m, p, now).0,
        ProtocolOp::Fetch(id, now) => spec_fetch(m, id, now).0,
        ProtocolOp::Release(id, now) => spec_unlock(m, id, now).0,
        ProtocolOp::Record(outcome, now) => spec_record(m, outcome, now),
    }
}

/// The record after a whole sequence of protocol steps.
pub open spec fn spec_apply_all(m: ServerModel, ops: Seq<ProtocolOp>) -> ServerModel
    decreases ops.len(),
{
    if ops.len() == 0 {
        m
    } else {
        spec_apply_all(spec_apply(m, ops[0]), ops.skip(1))
    }
}

/// One protocol step keeps the reachable-state shape and never makes the
/// record's status degenerate.
pub proof fn lemma_apply_preserves_wf(m: ServerModel, op: ProtocolOp)
    requires
        m.wf(),
        m.status != ServerStatus::Unknown,
    ensures
        spec_apply(m, op).wf(),
        spec_apply(m, op).status != ServerStatus::Unknown,
{
}

/// A whole sequence of protocol steps keeps the reachable-state shape and
/// never makes the record's status degenerate.
pub proof fn lemma_protocol_preserves_wf(m: ServerModel, ops: Seq<ProtocolOp>)
    requires
        m.wf(),
        m.status != ServerStatus::Unknown,
    ensures
        spec_apply_all(m, ops).wf(),
        spec_apply_all(m, ops).status != ServerStatus::Unknown,
    decreases ops.len(),
{
    if ops.len() > 0 {
        lemma_apply_preserves_wf(m, ops[0]);
        lemma_protocol_preserves_wf(spec_apply(m, ops[0]), ops.skip(1));
    }
}

/// Not all combinations of slot status and task progress can arise: every
/// state reachable from the initial record — by any interleaving of the four
/// admission operations and the runner's write-back — has the
/// reachable-state shape [`ServerModel::wf`], and the degenerate status
/// `Unknown` is never reached.
pub proof fn lemma_reachable_states_wf(ops: Seq<ProtocolOp>)
    ensures
        spec_apply_all(ServerModel::spec_init(), ops).wf(),
        spec_apply_all(ServerModel::spec_init(), ops).status != ServerStatus::Unknown,
{
    lemma_protocol_preserves_wf(ServerModel::spec_init(), ops);
}

/// Every mutation stamps the clock: each operation either leaves the record
/// exactly as it was or sets `last_update_time` to the reading it was given.
pub proof fn lemma_every_mutation_stamps_clock(
    m: ServerModel,
    id: Seq<char>,
    p: ParamsModel,
    outcome: Result<Seq<u8>, Seq<char>>,
    now: u64,
)
    ensures
        spec_reserve(m, id, now).0 == m || spec_reserve(m, id, now).0.last_update_time == now,
        spec_submit(m, p, now).0 == m || spec_submit(m, p, now).0.last_update_time == now,
        spec_fetch(m, id, now).0 == m || spec_fetch(m, id, now).0.last_update_time == now,
        spec_unlock(m, id, now).0 == m || spec_unlock(m, id, now).0.last_update_time == now,
        spec_record(m, outcome, now) == m || spec_record(m, outcome, now).last_update_time == now,
{
}

} // verus!
