//! The session establisher's plan: the exact, ordered sequence of
//! remote calls that configures and starts a fresh client object. The
//! embedding process executes the steps over the bus; if any step fails
//! the whole establishment fails and no session is returned.

use vstd::prelude::*;
use crate::accuracy::{spec_ordinal, AccuracyLevel};

verus! {

/// Configuration of one session with the remote location service.
#[derive(Debug, Clone)]
pub struct SessionConfig {
    /// The desktop identifier the client registers under.
    pub desktop_id: String,
    /// Movement, in meters, below which no update is sent.
    pub distance_threshold_m: u32,
    /// Time, in seconds, below which no update is sent.
    pub time_threshold_s: u32,
    /// The requested accuracy tier.
    pub accuracy: AccuracyLevel,
}

/// One remote operation on a fresh client object.
#[derive(Debug, Clone, PartialEq, Eq)]
pub enum ClientStep {
    /// Write the string property naming the desktop.
    SetDesktopId(String),
    /// Write the distance threshold property, in meters.
    SetDistanceThreshold(u32),
    /// Write the time threshold property, in seconds.
    SetTimeThreshold(u32),
    /// Write the requested accuracy property, as its wire ordinal.
    SetRequestedAccuracyLevel(u32),
    /// Invoke the method that starts the client.
    Start,
}

impl ClientStep {
    /// The remote property or method name this step addresses.
    pub open spec fn spec_remote_name(self) -> Seq<char> {
        match self {
            ClientStep::SetDesktopId(_) => "DesktopId"@,
            ClientStep::SetDistanceThreshold(_) => "DistanceThreshold"@,
            ClientStep::SetTimeThreshold(_) => "TimeThreshold"@,
            ClientStep::SetRequestedAccuracyLevel(_) => "RequestedAccuracyLevel"@,
            ClientStep::Start => "Start"@,
        }
    }

    /// The remote property or method name this step addresses.
    pub fn remote_name(&self) -> (r: &'static str)
        ensures
            r@ == self.spec_remote_name(),
    {
        match self {
            ClientStep::SetDesktopId(_) => "DesktopId",
            ClientStep::SetDistanceThreshold(_) => "DistanceThreshold",
            ClientStep::SetTimeThreshold(_) => "TimeThreshold",
            ClientStep::SetRequestedAccuracyLevel(_) => "RequestedAccuracyLevel",
            ClientStep::Start => "Start",
        }
    }
}

/// The steps of establishing a session, in order: the four properties
/// (identifier, distance threshold, time threshold, accuracy ordinal),
/// then starting the client.
pub fn establish_steps(config: &SessionConfig) -> (steps: Vec<ClientStep>)
    ensures
        steps@ =~= seq![
            ClientStep::SetDesktopId(config.desktop_id),
            ClientStep::SetDistanceThreshold(config.distance_threshold_m),
            ClientStep::SetTimeThreshold(config.time_threshold_s),
            ClientStep::SetRequestedAccuracyLevel(spec_ordinal(config.accuracy)),
            ClientStep::Start,
        ],
{
    let mut steps: Vec<ClientStep> = Vec::new();
    steps.push(ClientStep::SetDesktopId(config.desktop_id.clone()));
    steps.push(ClientStep::SetDistanceThreshold(config.distance_threshold_m));
    steps.push(ClientStep::SetTimeThreshold(config.time_threshold_s));
    steps.push(ClientStep::SetRequestedAccuracyLevel(config.accuracy.as_ordinal()));
    steps.push(ClientStep::Start);
    steps
}

} // verus!
