//! The status taxonomy shared by the whole server: what the slot is doing
//! (`ServerStatus`) and how far the single in-flight task has progressed
//! (`TaskStatus`).

use vstd::prelude::*;

verus! {

/// Governs which operations are currently admissible on the slot.
#[derive(Clone, Copy, Debug, PartialEq, Eq, Structural)]
pub enum ServerStatus {
    Unknown,
    Free,
    Working,
    Locked,
}

impl Default for ServerStatus {
    /// A freshly started server is free to be leased.
    fn default() -> (r: Self)
        ensures
            r == ServerStatus::Free,
    {
        ServerStatus::Free
    }
}

impl ServerStatus {
    /// The wire word for this status.
    pub open spec fn spec_str(self) -> Seq<char> {
        match self {
            ServerStatus::Unknown => "Unknown"@,
            ServerStatus::Free => "Free"@,
            ServerStatus::Working => "Working"@,
            ServerStatus::Locked => "Locked"@,
        }
    }

    /// Renders the status as its wire word.
    pub fn to_string(&self) -> (r: String)
        ensures
            r@ == self.spec_str(),
    {
        match self {
            ServerStatus::Unknown => "Unknown".to_owned(),
            ServerStatus::Free => "Free".to_owned(),
            ServerStatus::Working => "Working".to_owned(),
            ServerStatus::Locked => "Locked".to_owned(),
        }
    }
}

/// Lifecycle of the single in-flight task, tracked independently of
/// `ServerStatus`: the latter governs admission, this one the task's own
/// progress.
#[derive(Clone, Copy, Debug, PartialEq, Eq, Structural)]
pub enum TaskStatus {
    /// No task has been submitted; rendered as "None" on the wire.
    Idle,
    Ready,
    Working,
    Done,
    Returned,
    Failed,
}

impl Default for TaskStatus {
    /// Before any submission there is no task.
    fn default() -> (r: Self)
        ensures
            r == TaskStatus::Idle,
    {
        TaskStatus::Idle
    }
}

impl TaskStatus {
    /// The wire word of a task stage.
    pub open spec fn spec_str(self) -> Seq<char> {
        match self {
            TaskStatus::Idle => "None"@,
            TaskStatus::Ready => "Ready"@,
            TaskStatus::Working => "Working"@,
            TaskStatus::Done => "Done"@,
            TaskStatus::Returned => "Returned"@,
            TaskStatus::Failed => "Failed"@,
        }
    }

    /// Renders the task stage as its wire word.
    pub fn to_string(&self) -> (r: String)
        ensures
            r@ == self.spec_str(),
    {
        match self {
            TaskStatus::Idle => "None".to_owned(),
            TaskStatus::Ready => "Ready".to_owned(),
            TaskStatus::Working => "Working".to_owned(),
            TaskStatus::Done => "Done".to_owned(),
            TaskStatus::Returned => "Returned".to_owned(),
            TaskStatus::Failed => "Failed".to_owned(),
        }
    }
}

} // verus!
