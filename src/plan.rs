use vstd::prelude::*;

verus! {

/// Error raised when a run is configured in a way that no work plan can serve.
#[derive(Debug, Clone, Copy, PartialEq, Eq, Structural)]
pub enum PlanError {
    /// The run asked for zero workers.
    ContractViolation,
}

/// The quota of worker `i` when `n` requests are spread over `c` workers:
/// the first `n % c` workers take one request more than the others.
pub open spec fn quota_of(n: nat, c: nat, i: int) -> nat
    recommends
        c >= 1,
{
    if i < (n % c) as int {
        n / c + 1
    } else {
        n / c
    }
}

/// Sum of the first `len` quotas of a plan.
pub open spec fn sum_quotas(q: Seq<u32>) -> nat
    decreases q.len(),
{
    if q.len() == 0 {
        0
    } else {
        sum_quotas(q.drop_last()) + q.last() as nat
    }
}

/// Sum of the first `k` quotas of the plan for `n` requests on `c` workers.
pub open spec fn prefix_total(n: nat, c: nat, k: nat) -> nat
    decreases k,
{
    if k == 0 {
        0
    } else {
        prefix_total(n, c, (k - 1) as nat) + quota_of(n, c, k - 1)
    }
}

/// Whether `q` is the plan that spreads `n` requests over `c` workers.
pub open spec fn is_plan(q: Seq<u32>, n: nat, c: nat) -> bool {
    &&& q.len() == c
    &&& forall|i: int| 0 <= i < c ==> #[trigger] q[i] as nat == quota_of(n, c, i)
}

proof fn lemma_prefix_total(n: nat, c: nat, k: nat)
    requires
        c >= 1,
        k <= c,
    ensures
        prefix_total(n, c, k) == k * (n / c) + if k <= n % c { k } else { n % c },
    decreases k,
{
    if k > 0 {
        lemma_prefix_total(n, c, (k - 1) as nat);
        let q = n / c;
        let km = (k - 1) as nat;
        assert(k * q == km * q + q) by (nonlinear_arith)
            requires
                k > 0,
                km == k - 1,
        ;
        assert(prefix_total(n, c, k) == prefix_total(n, c, km) + quota_of(n, c, km as int));
        if k <= n % c {
            assert(quota_of(n, c, km as int) == q + 1);
        } else {
            assert(quota_of(n, c, km as int) == q);
        }
    } else {
        assert(0 * (n / c) == 0);
    }
}

proof fn lemma_sum_matches(q: Seq<u32>, n: nat, c: nat, k: nat)
    requires
        c >= 1,
        k <= q.len(),
        q.len() == c,
        forall|i: int| 0 <= i < c ==> #[trigger] q[i] as nat == quota_of(n, c, i),
    ensures
        sum_quotas(q.subrange(0, k as int)) == prefix_total(n, c, k),
    decreases k,
{
    if k > 0 {
        lemma_sum_matches(q, n, c, (k - 1) as nat);
        assert(q.subrange(0, k as int).drop_last() =~= q.subrange(0, k - 1));
    }
}

/// Spreads `total_requests` over `worker_count` workers: worker `i` gets
/// `total_requests / worker_count` requests, plus one when `i` is below the
/// remainder. Zero workers is refused before any work is planned.
pub fn partition(total_requests: u32, worker_count: u32) -> (r: Result<Vec<u32>, PlanError>)
    ensures
        worker_count == 0 <==> r is Err,
        r is Err ==> r == Err::<Vec<u32>, PlanError>(PlanError::ContractViolation),
        r matches Ok(q) ==> is_plan(q@, total_requests as nat, worker_count as nat),
{
    if worker_count == 0 {
        return Err(PlanError::ContractViolation);
    }
    let base = total_requests / worker_count;
    let extra = total_requests % worker_count;
    let mut quotas: Vec<u32> = Vec::new();
    let mut i: u32 = 0;
    while i < worker_count
        invariant
            worker_count >= 1,
            i <= worker_count,
            base == total_requests / worker_count,
            extra == total_requests % worker_count,
            quotas@.len() == i,
            forall|j: int|
                0 <= j < i ==> #[trigger] quotas@[j] as nat == quota_of(
                    total_requests as nat,
                    worker_count as nat,
                    j,
                ),
        decreases worker_count - i,
    {
        if i < extra {
            proof {
                assert(base < total_requests) by (nonlinear_arith)
                    requires
                        base == total_requests / worker_count,
                        worker_count >= 1,
                        total_requests % worker_count > 0,
                ;
            }
            quotas.push(base + 1);
        } else {
            quotas.push(base);
        }
        i = i + 1;
    }
    Ok(quotas)
}

/// Every plan covers its requests exactly, has one quota per worker, and no two
/// quotas differ by more than one.
pub proof fn lemma_plan_exact_and_balanced(q: Seq<u32>, n: nat, c: nat)
    requires
        c >= 1,
        is_plan(q, n, c),
    ensures
        q.len() == c,
        sum_quotas(q) == n,
        forall|i: int, j: int| 0 <= i < c && 0 <= j < c ==> q[i] <= q[j] + 1,
{
    lemma_sum_matches(q, n, c, c);
    assert(q.subrange(0, c as int) =~= q);
    lemma_prefix_total(n, c, c);
    assert(n % c < c);
    assert(n == c * (n / c) + n % c) by (nonlinear_arith)
        requires
            c >= 1,
    ;
    assert(c * (n / c) == (c as int) * (n / c)) ;
}

/// With no requests to make, every worker's quota is zero.
pub proof fn lemma_empty_run_plan(q: Seq<u32>, c: nat)
    requires
        c >= 1,
        is_plan(q, 0, c),
    ensures
        forall|i: int| 0 <= i < c ==> q[i] == 0,
{
    assert(0nat / c == 0 && 0nat % c == 0) by (nonlinear_arith)
        requires
            c >= 1,
    ;
}

} // verus!
