//! What the Docker daemon reports of a container, as plain values.
use vstd::prelude::*;

verus! {

/// The status that Docker gives a container.
#[derive(Clone, Copy, Debug, PartialEq, Eq, Structural)]
pub enum ContainerStatus {
    Empty,
    Created,
    Running,
    Paused,
    Restarting,
    Removing,
    Exited,
    Dead,
}

/// The result of a container's health check.
#[derive(Clone, Copy, Debug, PartialEq, Eq, Structural)]
pub enum HealthStatus {
    Empty,
    NoCheck,
    Starting,
    Healthy,
    Unhealthy,
}

/// The health section of an inspected container.
#[derive(Clone, Copy, Debug, PartialEq, Eq, Structural)]
pub struct Health {
    pub status: Option<HealthStatus>,
}

/// The state section of an inspected container.
#[derive(Clone, Copy, Debug, PartialEq, Eq, Structural)]
pub struct StateReport {
    pub status: Option<ContainerStatus>,
    pub running: Option<bool>,
    pub health: Option<Health>,
}

/// A request that the Docker daemon did not carry out.
#[derive(Clone, Copy, Debug, PartialEq, Eq, Structural)]
pub enum ApiError {
    /// The daemon answered with an error status.
    Response { status_code: u16 },
    /// The request failed in any other way.
    Other,
}

/// How a container is to be brought back.
#[derive(Clone, Copy, Debug, PartialEq, Eq, Structural)]
pub enum RestartMode {
    /// The container is stopped: start it.
    Start,
    /// The container is running but unhealthy: restart it.
    Restart,
}

/// What one inspection says about a container.
#[derive(Clone, Copy, Debug, PartialEq, Eq, Structural)]
pub enum Condition {
    /// Docker is restarting the container under its own restart policy.
    Restarting,
    /// The container runs and its health check fails.
    Unhealthy,
    /// The container runs and its health check has not settled yet.
    HealthStarting,
    /// The container runs, and nothing is known against its health.
    Healthy,
    /// The container does not run; its status is given where Docker gives one.
    Stopped { status: Option<ContainerStatus> },
}

/// The status in a report, where there is one.
pub open spec fn reported_status(report: Option<StateReport>) -> Option<ContainerStatus> {
    match report {
        Some(s) => s.status,
        None => None,
    }
}

/// Whether a report says that the container runs. A report that does not say counts as no.
pub open spec fn reported_running(report: Option<StateReport>) -> bool {
    report matches Some(s) && s.running == Some(true)
}

/// Whether a report holds the health status `health`.
pub open spec fn reported_health(report: Option<StateReport>, health: HealthStatus) -> bool {
    report matches Some(s) && s.health == Some(Health { status: Some(health) })
}

/// The condition that a report describes. Docker's own restart comes before everything else;
/// after it the running flag decides, not the status.
pub open spec fn condition(report: Option<StateReport>) -> Condition {
    if reported_status(report) == Some(ContainerStatus::Restarting) {
        Condition::Restarting
    } else if !reported_running(report) {
        Condition::Stopped { status: reported_status(report) }
    } else if reported_health(report, HealthStatus::Unhealthy) {
        Condition::Unhealthy
    } else if reported_health(report, HealthStatus::Starting) {
        Condition::HealthStarting
    } else {
        Condition::Healthy
    }
}

/// Reads the condition of a container off the state section of its inspection.
pub fn classify(report: &Option<StateReport>) -> (r: Condition)
    ensures
        r == condition(*report),
{
    let (status, running, health) = match report {
        Some(s) => (
            s.status,
            s.running.unwrap_or(false),
            match &s.health {
                Some(h) => h.status,
                None => None,
            },
        ),
        None => (None, false, None),
    };
    match status {
        Some(ContainerStatus::Restarting) => Condition::Restarting,
        _ if running => match health {
            Some(HealthStatus::Unhealthy) => Condition::Unhealthy,
            Some(HealthStatus::Starting) => Condition::HealthStarting,
            _ => Condition::Healthy,
        },
        _ => Condition::Stopped { status },
    }
}

} // verus!
