//! The decisions of the simulation stage.
use vstd::prelude::*;

use crate::domain::job::BundleSimulationJob;
use crate::domain::result::BundleProcessingResult;
use crate::domain::time::{elapsed_micros, elapsed_micros_spec, UtcTimestamp};

verus! {

/// How long a job waited in the queue before its simulation started.
pub fn queue_wait_us(job: &BundleSimulationJob, simulation_started_at: &UtcTimestamp) -> (r: i64)
    ensures
        r == elapsed_micros_spec(job.received_at, *simulation_started_at),
        r >= 0,
{
    elapsed_micros(&job.received_at, simulation_started_at)
}

/// The result of a finished simulation of `job`: the job's fields, the two
/// instants, the queue wait up to the start, and the measured duration.
pub fn simulation_result(
    job: BundleSimulationJob,
    simulation_started_at: UtcTimestamp,
    simulation_completed_at: UtcTimestamp,
    simulation_duration_us: i64,
) -> (r: BundleProcessingResult)
    ensures
        r.bundle_hash == job.bundle_hash,
        r.target_block == job.target_block,
        r.tx_count == job.tx_count,
        r.received_at == job.received_at,
        r.simulation_started_at == simulation_started_at,
        r.simulation_completed_at == simulation_completed_at,
        r.queue_wait_us == elapsed_micros_spec(job.received_at, simulation_started_at),
        r.simulation_duration_us == simulation_duration_us,
{
    let queue_wait_us: i64 = queue_wait_us(&job, &simulation_started_at);
    BundleProcessingResult {
        bundle_hash: job.bundle_hash,
        target_block: job.target_block,
        tx_count: job.tx_count,
        received_at: job.received_at,
        simulation_started_at,
        simulation_completed_at,
        queue_wait_us,
        simulation_duration_us,
    }
}

} // verus!
