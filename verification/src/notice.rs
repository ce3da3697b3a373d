//! What the watchdog has to say about a container while it watches it.
use crate::docker::{ContainerStatus, RestartMode};
use crate::time::Duration;
use vstd::prelude::*;

verus! {

/// Something worth telling the operator.
#[derive(Clone, Copy, Debug, PartialEq, Eq, Structural)]
pub enum Event {
    /// Docker restarts the container itself; it is left alone.
    ManagedRestart,
    /// The container has been unhealthy for the whole grace period.
    UnhealthyTooLong { unhealthy_for: Duration, threshold: Duration },
    /// The container is unhealthy, and the grace period is still running.
    UnhealthyInGrace { unhealthy_for: Duration, threshold: Duration },
    /// The health check of the container has not settled yet.
    HealthStarting,
    /// The container has been stable long enough; its backoff is reset.
    BackoffReset { uptime: Duration },
    /// The container is not running.
    NotRunning { status: ContainerStatus },
    /// Docker reports no status for the container; it counts as stopped.
    NoStatus,
    /// There is no container of that name.
    NotFound,
    /// The backoff window is closed; nothing is attempted yet.
    BackoffInEffect { wait: Duration },
    /// An attempt to bring the container back is about to be made.
    Attempting { mode: RestartMode, attempt: u32 },
    /// The container was started.
    Started,
    /// The container was already running when it was to be started.
    AlreadyRunning,
    /// The container could not be started.
    StartFailed,
    /// The container was restarted.
    Restarted,
    /// The container could not be restarted.
    RestartFailed,
    /// An attempt was counted, and the next backoff window is armed.
    AttemptRecorded { attempt: u32, backoff: Duration, next_backoff: Duration },
}

/// An event, together with the name of the container it is about.
pub struct Notice {
    pub container: String,
    pub event: Event,
}

impl View for Notice {
    type V = (Seq<char>, Event);

    open spec fn view(&self) -> (Seq<char>, Event) {
        (self.container@, self.event)
    }
}

impl Notice {
    /// The notice of `event` about the container `name`.
    pub fn about(name: &str, event: Event) -> (r: Notice)
        ensures
            r@ == (name@, event),
    {
        Notice { container: name.to_owned(), event }
    }
}

} // verus!
