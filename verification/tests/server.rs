use window_post_snark_server::error::Error;
use window_post_snark_server::server::{
    ServerInfo, SERVER_LOCK_TIME_OUT, SERVER_TASK_GET_BACK_TIME_OUT,
};
use window_post_snark_server::status::{ServerStatus, TaskStatus};
use window_post_snark_server::tasks::{record_task_outcome, SnarkTaskRequestParams};

fn params(task_id: &str) -> SnarkTaskRequestParams {
    SnarkTaskRequestParams {
        task_id: task_id.to_string(),
        vanilla_proof: vec![4, 5, 6],
        pub_in: vec![7, 8],
        post_config: vec![123, 125],
        replicas_len: 2,
    }
}

#[test]
fn test_lock_server_if_free() {
    let mut si = ServerInfo::default();
    // The first caller is granted the slot and told so with `Free`.
    let first = si.lock_server_if_free("task-1".to_string(), 0);
    assert_eq!(first, ServerStatus::Free);
    assert_eq!(si.status, ServerStatus::Locked);
    assert_eq!(si.task_info.task_id, "task-1");
    // Every further reservation within the 10s lease timeout is refused with
    // `Locked`, whatever id it carries, and the lease holder keeps the slot.
    let mut times: u64 = 1;
    loop {
        if times >= 20 {
            break;
        }
        let task_id = format!("task-{}", times + 1);
        let seen = si.lock_server_if_free(task_id, times * 500);
        assert_eq!(seen, ServerStatus::Locked);
        assert_eq!(si.task_info.task_id, "task-1");
        times += 1;
    }
    // Once more than 10 (simulated) seconds have passed without a
    // submission, the lease is treated as abandoned and granted anew.
    let reclaimed = si.lock_server_if_free("task-21".to_string(), SERVER_LOCK_TIME_OUT + 50);
    assert_eq!(reclaimed, ServerStatus::Free);
    assert_eq!(si.task_info.task_id, "task-21");
}

#[test]
fn test_unlock_server() {
    let mut si = ServerInfo::default();
    // Lease under the first id, release it under the same id.
    assert_eq!(si.lock_server_if_free("a".to_string(), 0), ServerStatus::Free);
    assert!(si.unlock("a".to_string(), 1).is_ok());
    assert_eq!(si.status, ServerStatus::Free);
    // The slot can then be leased by a second id; a third caller is refused.
    assert_eq!(si.lock_server_if_free("b".to_string(), 2), ServerStatus::Free);
    assert_eq!(si.lock_server_if_free("c".to_string(), 3), ServerStatus::Locked);
    // A release under the third id must not free the second id's lease.
    let e = si.unlock("c".to_string(), 4).unwrap_err();
    assert_eq!(
        e.message(),
        "Invalid parameters file: can not be unlocked by another task ,which is locked by task_id:b,but c"
    );
    assert_eq!(si.status, ServerStatus::Locked);
    assert_eq!(si.task_info.task_id, "b");
}

#[test]
fn test_unlock_twice_reports_already_free() {
    let mut si = ServerInfo::default();
    si.lock_server_if_free("a".to_string(), 0);
    assert!(si.unlock("a".to_string(), 1).is_ok());
    let e = si.unlock("a".to_string(), 2).unwrap_err();
    assert_eq!(e.message(), "Invalid parameters file: server is already Free");
    assert_eq!(si.status, ServerStatus::Free);
}

#[test]
fn test_unlock_refused_while_working() {
    let mut si = ServerInfo::default();
    si.lock_server_if_free("a".to_string(), 0);
    si.do_task(&params("a"), 1).unwrap();
    let e = si.unlock("a".to_string(), 2).unwrap_err();
    assert_eq!(
        e.message(),
        "Invalid parameters file: this operation just used to unlock a server in status Locked"
    );
    assert_eq!(si.status, ServerStatus::Working);
}

#[test]
fn test_submit_accepted_exactly_under_held_lease() {
    // Positive case: reserved slot, matching id.
    let mut si = ServerInfo::default();
    si.lock_server_if_free("a".to_string(), 0);
    assert!(si.do_task(&params("a"), 1).is_ok());
    assert_eq!(si.status, ServerStatus::Working);
    assert_eq!(si.task_info.task_status, TaskStatus::Ready);
    assert_eq!(si.task_info.task_id, "a");
    assert_eq!(si.task_info.vanilla_proof, vec![4, 5, 6]);
    assert_eq!(si.task_info.pub_in, vec![7, 8]);
    assert_eq!(si.task_info.post_config, vec![123, 125]);
    assert_eq!(si.task_info.replicas_len, 2);
    assert!(si.task_info.result.is_empty());

    // Wrong id against a held lease.
    let mut si = ServerInfo::default();
    si.lock_server_if_free("a".to_string(), 0);
    let e = si.do_task(&params("b"), 1).unwrap_err();
    assert!(matches!(e, Error::InvalidParameters(_)));
    assert_eq!(
        e.message(),
        "Invalid parameters file: server was locked by another task, can not be used now"
    );
    assert_eq!(si.status, ServerStatus::Locked);
    assert_eq!(si.task_info.task_status, TaskStatus::Idle);

    // No lease at all.
    let mut si = ServerInfo::default();
    let e = si.do_task(&params("a"), 1).unwrap_err();
    assert_eq!(
        e.message(),
        "Invalid parameters file: server should be locked until task is executed"
    );
    assert_eq!(si.status, ServerStatus::Free);

    // Already busy with other work.
    let mut si = ServerInfo::default();
    si.lock_server_if_free("a".to_string(), 0);
    si.do_task(&params("a"), 1).unwrap();
    let e = si.do_task(&params("a"), 2).unwrap_err();
    assert_eq!(
        e.message(),
        "Invalid parameters file: server is working on another task, can not be used now"
    );
    assert_eq!(si.status, ServerStatus::Working);
}

#[test]
fn test_result_round_trip() {
    // Reserve, submit, let the runner complete with [1, 2, 3], fetch once.
    let mut si = ServerInfo::default();
    assert_eq!(si.lock_server_if_free("A".to_string(), 0), ServerStatus::Free);
    assert!(si.do_task(&params("A"), 10).is_ok());
    record_task_outcome(&mut si, Ok(vec![1, 2, 3]), 20);
    assert_eq!(si.task_info.task_status, TaskStatus::Done);
    let got = si.get_task_result("A".to_string(), 30).unwrap();
    assert_eq!(got, vec![1, 2, 3]);
    assert_eq!(si.status, ServerStatus::Free);
    assert_eq!(si.task_info.task_status, TaskStatus::Returned);
    // Retrieval is one-shot: a second call finds no task running.
    let e = si.get_task_result("A".to_string(), 40).unwrap_err();
    assert!(matches!(e, Error::NoTaskRunningOnSever));
    assert_eq!(e.message(), "no task running on this server");
}

#[test]
fn test_fetch_before_submit_finds_no_task() {
    // Reserving alone starts no task: a fetch while the slot is only locked
    // is answered with "no task running".
    let mut si = ServerInfo::default();
    assert_eq!(si.lock_server_if_free("A".to_string(), 0), ServerStatus::Free);
    let e = si.get_task_result("A".to_string(), 1).unwrap_err();
    assert!(matches!(e, Error::NoTaskRunningOnSever));
    assert_eq!(si.status, ServerStatus::Locked);
}

#[test]
fn test_stale_lease_cannot_submit() {
    // Reserve under A, wait 11 simulated seconds, reserve under B: the
    // second reservation is granted, and A's stale id can no longer submit.
    let mut si = ServerInfo::default();
    assert_eq!(si.lock_server_if_free("A".to_string(), 0), ServerStatus::Free);
    assert_eq!(si.lock_server_if_free("B".to_string(), 11_000), ServerStatus::Free);
    assert_eq!(si.task_info.task_id, "B");
    let e = si.do_task(&params("A"), 11_500).unwrap_err();
    assert!(matches!(e, Error::InvalidParameters(_)));
    assert_eq!(si.task_info.task_id, "B");
    assert_eq!(si.status, ServerStatus::Locked);
}

#[test]
fn test_lock_timeout_boundary() {
    // The lease-abandonment timeout is strict: at exactly 10s the lease is
    // still held, one millisecond later it is reclaimed.
    let mut si = ServerInfo::default();
    si.lock_server_if_free("a".to_string(), 0);
    assert_eq!(
        si.lock_server_if_free("b".to_string(), SERVER_LOCK_TIME_OUT),
        ServerStatus::Locked
    );
    assert_eq!(
        si.lock_server_if_free("b".to_string(), SERVER_LOCK_TIME_OUT + 1),
        ServerStatus::Free
    );
}

#[test]
fn test_result_pickup_abandonment() {
    // A done result not fetched within 60s is dropped by the next
    // reservation; at 59.999s the slot is still guarded.
    let mut si = ServerInfo::default();
    si.lock_server_if_free("a".to_string(), 0);
    si.do_task(&params("a"), 1).unwrap();
    record_task_outcome(&mut si, Ok(vec![9]), 1_000);
    let t_early = 1_000 + SERVER_TASK_GET_BACK_TIME_OUT - 1;
    assert_eq!(si.lock_server_if_free("c".to_string(), t_early), ServerStatus::Working);
    assert_eq!(si.task_info.task_id, "a");
    let t_late = 1_000 + SERVER_TASK_GET_BACK_TIME_OUT;
    assert_eq!(si.lock_server_if_free("c".to_string(), t_late), ServerStatus::Free);
    assert_eq!(si.task_info.task_id, "c");
    assert_eq!(si.task_info.task_status, TaskStatus::Idle);
}

#[test]
fn test_failed_task_surfaces_error_once() {
    let mut si = ServerInfo::default();
    si.lock_server_if_free("a".to_string(), 0);
    si.do_task(&params("a"), 1).unwrap();
    record_task_outcome(&mut si, Err("proof setup failed".to_string()), 2);
    assert_eq!(si.task_info.task_status, TaskStatus::Failed);
    let e = si.get_task_result("a".to_string(), 3).unwrap_err();
    assert!(matches!(e, Error::TaskFailedWithError(_)));
    assert_eq!(e.message(), "task failed with error: proof setup failed");
    assert_eq!(si.status, ServerStatus::Free);
    // The failure is surfaced once; afterwards no task is running.
    let e = si.get_task_result("a".to_string(), 4).unwrap_err();
    assert!(matches!(e, Error::NoTaskRunningOnSever));
}

#[test]
fn test_fetch_while_still_running() {
    let mut si = ServerInfo::default();
    si.lock_server_if_free("a".to_string(), 0);
    si.do_task(&params("a"), 1).unwrap();
    let e = si.get_task_result("a".to_string(), 2).unwrap_err();
    assert!(matches!(e, Error::TaskStillRunning));
    assert_eq!(e.message(), "Task is still running, not completed");
    assert_eq!(si.status, ServerStatus::Working);
    assert_eq!(si.task_info.task_status, TaskStatus::Ready);
}

#[test]
fn test_fetch_under_foreign_id() {
    let mut si = ServerInfo::default();
    si.lock_server_if_free("a".to_string(), 0);
    si.do_task(&params("a"), 1).unwrap();
    let e = si.get_task_result("b".to_string(), 2).unwrap_err();
    assert_eq!(
        e.message(),
        "Invalid parameters file: current working task id is:a,but:b"
    );
    assert_eq!(si.status, ServerStatus::Working);
}

#[test]
fn test_degenerate_status_is_terminal() {
    // `Unknown` is a degenerate status the protocol itself never reaches
    // (see the reachability law); if a record is ever in it, reservation
    // reports it unchanged and submission is refused.
    let mut si = ServerInfo::default();
    si.status = ServerStatus::Unknown;
    assert_eq!(si.lock_server_if_free("a".to_string(), 0), ServerStatus::Unknown);
    assert_eq!(si.status, ServerStatus::Unknown);
    let e = si.do_task(&params("a"), 1).unwrap_err();
    assert_eq!(
        e.message(),
        "Invalid parameters file: server is Unknown, can not be used now"
    );
}

#[test]
fn test_server_info_default() {
    let si = ServerInfo::default();
    assert_eq!(si.status, ServerStatus::Free);
    assert_eq!(si.task_info.task_status, TaskStatus::Idle);
    assert_eq!(si.task_info.task_id, "");
    assert!(si.task_info.result.is_empty());
    assert_eq!(si.last_update_time, 0);
    assert_eq!(si.error, "");
}
