//! The decisions of an Aspen worker that processes the feeds that Alpenrose fetched.
use vstd::prelude::*;

verus! {

/// A fetch of the realtime feeds of a chateau, waiting to be processed.
#[derive(Clone, Debug)]
pub struct ProcessAlpenroseData {
    pub chateau_id: String,
    pub realtime_feed_id: String,
    pub has_vehicles: bool,
    pub has_trips: bool,
    pub has_alerts: bool,
    pub vehicles_response_code: Option<u16>,
    pub trips_response_code: Option<u16>,
    pub alerts_response_code: Option<u16>,
}

/// What a worker does next.
#[derive(Debug)]
pub enum AlpenroseAction {
    /// Take `chateau_id` off the list of queued chateaus, then process `task`.
    Process { chateau_id: String, task: ProcessAlpenroseData },
    /// Wait `millis` milliseconds before looking at the queue again.
    Sleep { millis: u64 },
}

/// How long an idle worker waits before it looks at the queue again, in milliseconds.
pub const IDLE_WAIT_MILLIS: u64 = 5;

/// The next step of a worker, given what it took from the queue: a task it took is
/// processed after its chateau leaves the list of queued chateaus; with nothing taken the
/// worker waits a few milliseconds.
pub fn alpenrose_next_action(stolen: Option<ProcessAlpenroseData>) -> (action: AlpenroseAction)
    ensures
        match stolen {
            Some(task) => action == (AlpenroseAction::Process { chateau_id: task.chateau_id, task }),
            None => action == (AlpenroseAction::Sleep { millis: IDLE_WAIT_MILLIS }),
        },
{
    match stolen {
        Some(task) => {
            let chateau_id = task.chateau_id.clone();
            AlpenroseAction::Process { chateau_id, task }
        },
        None => AlpenroseAction::Sleep { millis: IDLE_WAIT_MILLIS },
    }
}

} // verus!
