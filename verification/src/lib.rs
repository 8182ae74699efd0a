//! Builder Trace Lab: admission, simulation and storage of mock bundles,
//! with the backpressure policy of the simulation queue as the variable
//! under study.
use vstd::prelude::*;

use config::AdmissionPolicy;

pub mod admission;
pub mod config;
pub mod domain;
pub mod http;
pub mod metrics;
pub mod pipeline;
pub mod text;

verus! {

/// The `mode` label that metrics carry for a policy.
pub fn admission_policy_label(policy: AdmissionPolicy) -> (label: &'static str)
    ensures
        label@ == config::policy_label(policy),
{
    match policy {
        AdmissionPolicy::Unbounded => "unbounded",
        AdmissionPolicy::WaitWhenFull => "wait",
        AdmissionPolicy::RejectWhenFull => "reject",
    }
}

/// The capacity the simulation queue reports: none when it is unbounded,
/// the configured capacity otherwise.
pub fn simulation_queue_capacity(policy: AdmissionPolicy, channel_cap: usize) -> (res: Option<i64>)
    ensures
        policy is Unbounded ==> res is None,
        !(policy is Unbounded) ==> res == Some(channel_cap as i64),
{
    match policy {
        AdmissionPolicy::Unbounded => None,
        AdmissionPolicy::WaitWhenFull | AdmissionPolicy::RejectWhenFull => Some(
            channel_cap as i64,
        ),
    }
}

/// The number of messages waiting in a bounded channel, from its maximum
/// capacity and the room it has left.
pub fn mpsc_sender_depth(max_capacity: usize, capacity: usize) -> (depth: i64)
    requires
        capacity <= max_capacity,
    ensures
        depth == (max_capacity - capacity) as i64,
{
    (max_capacity - capacity) as i64
}

} // verus!
