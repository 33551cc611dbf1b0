//! Why a node could not be brought up.
use vstd::prelude::*;

use crate::platform::Platform;

verus! {

/// The failure that ended the start of a node, told apart by the layer that reported it.
pub enum NodeError<P: Platform> {
    /// Telemetry could not start.
    Telemetry(P::TelemetryError),
    /// The service layer refused.
    Service(P::ServiceError),
    /// The Ethereum block database could not be opened.
    Frontier(P::FrontierError),
    /// The relay chain side failed.
    Application(P::ApplicationError),
}

} // verus!
