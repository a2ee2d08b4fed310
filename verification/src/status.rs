use vstd::prelude::*;

verus! {

/// The lifecycle status of the application's update/run workflow. Exactly one
/// value is current at any instant; it is created `Idle` at process start and
/// thereafter mutated only by the update workflow.
pub enum Status {
    Idle,
    CheckingForUpdates,
    DownloadingUpdate { progress: u32 },
    Running { version: String },
}

/// The mathematical value of a `Status`: the same variants, with the version
/// string as a character sequence.
pub enum StatusView {
    Idle,
    CheckingForUpdates,
    DownloadingUpdate { progress: u32 },
    Running { version: Seq<char> },
}

impl View for Status {
    type V = StatusView;

    open spec fn view(&self) -> StatusView {
        match self {
            Status::Idle => StatusView::Idle,
            Status::CheckingForUpdates => StatusView::CheckingForUpdates,
            Status::DownloadingUpdate { progress } => StatusView::DownloadingUpdate {
                progress: *progress,
            },
            Status::Running { version } => StatusView::Running { version: version@ },
        }
    }
}

impl Clone for Status {
    /// The clone carries the same mathematical value.
    fn clone(&self) -> (r: Status)
        ensures
            r@ == self@,
    {
        match self {
            Status::Idle => Status::Idle,
            Status::CheckingForUpdates => Status::CheckingForUpdates,
            Status::DownloadingUpdate { progress } => Status::DownloadingUpdate {
                progress: *progress,
            },
            Status::Running { version } => Status::Running { version: version.clone() },
        }
    }
}

/// A status on which the update workflow has come to rest: the steady state
/// for a run in which no update was applied.
pub open spec fn is_terminal(s: StatusView) -> bool {
    s is Running
}

/// The mathematical values of a sequence of statuses, element by element.
pub open spec fn views_of(log: Seq<Status>) -> Seq<StatusView> {
    log.map_values(|s: Status| s@)
}

} // verus!
