//! Splitting a requested total into one quota per producer worker.

use vstd::prelude::*;

verus! {

/// Sum of a sequence of natural numbers.
pub open spec fn sum(s: Seq<nat>) -> nat
    decreases s.len(),
{
    if s.len() == 0 {
        0
    } else {
        s[0] + sum(s.drop_first())
    }
}

/// Quota of worker `i` when `total` values are split among `workers`:
/// the first worker takes the remainder on top of the common base.
pub open spec fn quota(total: nat, workers: nat, i: int) -> nat
    recommends
        workers >= 1,
{
    if i == 0 {
        total / workers + total % workers
    } else {
        total / workers
    }
}

/// The whole plan: one quota for each of `workers` workers.
pub open spec fn plan(total: nat, workers: nat) -> Seq<nat>
    recommends
        workers >= 1,
{
    Seq::new(workers, |i: int| quota(total, workers, i))
}

/// View of an executable plan as natural numbers.
pub open spec fn quotas_of(v: Seq<usize>) -> Seq<nat> {
    v.map_values(|q: usize| q as nat)
}

proof fn lemma_sum_constant(s: Seq<nat>, c: nat)
    requires
        forall|i: int| 0 <= i < s.len() ==> s[i] == c,
    ensures
        sum(s) == c * s.len(),
    decreases s.len(),
{
    if s.len() > 0 {
        lemma_sum_constant(s.drop_first(), c);
        assert(c * s.len() == c + c * (s.len() - 1)) by (nonlinear_arith);
    }
}

/// The quotas of a plan add up to the requested total, for every total and
/// every positive number of workers.
pub proof fn lemma_plan_sums_to_total(total: nat, workers: nat)
    requires
        workers >= 1,
    ensures
        sum(plan(total, workers)) == total,
{
    let p = plan(total, workers);
    let base = total / workers;
    let rest = p.drop_first();
    assert forall|i: int| 0 <= i < rest.len() implies rest[i] == base by {
        assert(rest[i] == p[i + 1]);
    }
    lemma_sum_constant(rest, base);
    vstd::arithmetic::div_mod::lemma_fundamental_div_mod(total as int, workers as int);
    assert(base * (workers - 1) + base == base * workers) by (nonlinear_arith);
}

/// In every plan all workers but the first share the base quota
/// `total / workers`, and the first exceeds it by exactly `total % workers`:
/// at most one quota differs from the others.
pub proof fn lemma_plan_single_outlier(total: nat, workers: nat)
    requires
        workers >= 1,
    ensures
        plan(total, workers).len() == workers,
        plan(total, workers)[0] == total / workers + total % workers,
        forall|i: int|
            1 <= i < workers ==> #[trigger] plan(total, workers)[i] == total / workers,
        forall|i: int, j: int|
            1 <= i < workers && 1 <= j < workers ==> #[trigger] plan(total, workers)[i]
                == #[trigger] plan(total, workers)[j],
{
}

/// The number of workers does not change how many values a plan produces:
/// two plans for the same total, with any positive numbers of workers, add
/// up to the same count.
pub proof fn lemma_total_independent_of_workers(total: nat, w1: nat, w2: nat)
    requires
        w1 >= 1,
        w2 >= 1,
    ensures
        sum(plan(total, w1)) == sum(plan(total, w2)),
{
    lemma_plan_sums_to_total(total, w1);
    lemma_plan_sums_to_total(total, w2);
}

/// Splits `total` values among `workers` producers. Every worker gets
/// `total / workers`; the first one also gets the remainder `total % workers`.
pub fn work_plan(total: usize, workers: usize) -> (r: Vec<usize>)
    requires
        workers >= 1,
    ensures
        quotas_of(r@) == plan(total as nat, workers as nat),
        r.len() == workers,
        forall|i: int| 0 <= i < workers ==> #[trigger] r@[i] == quota(total as nat, workers as nat, i),
        sum(quotas_of(r@)) == total,
{
    let base: usize = total / workers;
    let remainder: usize = total % workers;
    let mut quotas: Vec<usize> = Vec::with_capacity(workers);
    let mut i: usize = 0;
    while i < workers
        invariant
            i <= workers,
            workers >= 1,
            base == total / workers,
            remainder == total % workers,
            quotas.len() == i,
            forall|k: int|
                0 <= k < i ==> quotas@[k] as nat == quota(total as nat, workers as nat, k),
        decreases workers - i,
    {
        if i == 0 {
            proof {
                vstd::arithmetic::div_mod::lemma_fundamental_div_mod(total as int, workers as int);
                assert(base * workers >= base) by (nonlinear_arith)
                    requires workers >= 1;
            }
            quotas.push(base + remainder);
        } else {
            quotas.push(base);
        }
        i = i + 1;
    }
    assert(quotas_of(quotas@) =~= plan(total as nat, workers as nat));
    proof {
        lemma_plan_sums_to_total(total as nat, workers as nat);
    }
    quotas
}

} // verus!
