use window_post_snark_server::error::Error;

#[test]
fn test_error_messages() {
    assert_eq!(
        Error::Unclassified("lock poisoned".to_string()).message(),
        "unclassified error: lock poisoned"
    );
    assert_eq!(
        Error::InvalidParameters("bad id".to_string()).message(),
        "Invalid parameters file: bad id"
    );
    assert_eq!(
        Error::NoTaskRunningOnSever.message(),
        "no task running on this server"
    );
    assert_eq!(
        Error::TaskStillRunning.message(),
        "Task is still running, not completed"
    );
    assert_eq!(
        Error::TaskFailedWithError("proof setup failed".to_string()).message(),
        "task failed with error: proof setup failed"
    );
    assert_eq!(
        Error::NewClientFailed("connection refused".to_string()).message(),
        "new client failed with error: connection refused"
    );
}
