//! Planning a run on this machine: one producer per available CPU, each
//! with its quota of the requested total.

use vstd::prelude::*;
use crate::partition::{plan, quotas_of, sum, work_plan};

verus! {

/// Relies on num_cpus::get: the number of CPUs available to this process,
/// which its documentation says is always at least 1.
#[verifier::external_body]
fn available_workers() -> (r: usize)
    ensures
        r >= 1,
{
    num_cpus::get()
}

/// The quotas of a run of `total` values, one per available CPU. The number
/// of workers depends on the machine; whatever it is, the quotas follow the
/// plan for it and add up to `total`.
pub fn plan_run(total: usize) -> (r: Vec<usize>)
    ensures
        r.len() >= 1,
        quotas_of(r@) == plan(total as nat, r.len() as nat),
        sum(quotas_of(r@)) == total,
{
    let workers = available_workers();
    work_plan(total, workers)
}

} // verus!
