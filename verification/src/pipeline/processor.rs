//! The decisions of the processor stage, which stores accepted bundles,
//! simulating them first when simulation is on.
use vstd::prelude::*;

use crate::domain::time::{elapsed_micros, elapsed_micros_spec, UtcTimestamp};

use super::message::{AcceptedBundle, PipelineMessage};

verus! {

/// The timings stored with a simulated bundle.
pub struct Timings {
    pub simulation_started_at: UtcTimestamp,
    pub simulation_completed_at: UtcTimestamp,
    pub queue_wait_us: i64,
    pub simulation_duration_us: i64,
}

/// What the processor does with a message.
pub enum ProcessorStep {
    /// Simulate the bundle, then store it with its timings.
    SimulateAndStore(AcceptedBundle),
    /// Store the bundle without timings.
    Store(AcceptedBundle),
    /// Stop processing.
    Stop,
}

/// The step a message calls for: a bundle is simulated and stored when
/// simulation is on, stored alone when it is off; `Shutdown` stops.
pub fn processor_step(msg: PipelineMessage, simulation_on: bool) -> (step: ProcessorStep)
    ensures
        msg is Shutdown ==> step is Stop,
        msg matches PipelineMessage::BundleAccepted(b) ==> (if simulation_on {
            step == ProcessorStep::SimulateAndStore(b)
        } else {
            step == ProcessorStep::Store(b)
        }),
{
    match msg {
        PipelineMessage::BundleAccepted(b) => if simulation_on {
            ProcessorStep::SimulateAndStore(b)
        } else {
            ProcessorStep::Store(b)
        },
        PipelineMessage::Shutdown => ProcessorStep::Stop,
    }
}

/// The timings of a simulation of `bundle` that started and completed at the
/// given instants and took `simulation_duration_us`; the queue wait runs from
/// the bundle's receipt to the start of the simulation.
pub fn simulation_timings(
    bundle: &AcceptedBundle,
    simulation_started_at: UtcTimestamp,
    simulation_completed_at: UtcTimestamp,
    simulation_duration_us: i64,
) -> (t: Timings)
    ensures
        t.simulation_started_at == simulation_started_at,
        t.simulation_completed_at == simulation_completed_at,
        t.queue_wait_us == elapsed_micros_spec(bundle.spec_received_at(), simulation_started_at),
        t.simulation_duration_us == simulation_duration_us,
{
    let received_at = bundle.received_at();
    let queue_wait_us: i64 = elapsed_micros(&received_at, &simulation_started_at);
    Timings { simulation_started_at, simulation_completed_at, queue_wait_us, simulation_duration_us }
}

} // verus!
