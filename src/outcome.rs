use vstd::prelude::*;

verus! {

/// What one request attempt came to.
pub enum RequestOutcome {
    /// The response arrived: milliseconds to its headers, milliseconds until its
    /// body was read to the end, and its status code.
    Success { ttfb_ms: u64, total_ms: u64, status_code: u16 },
    /// A transport error kept the request from getting a status code.
    Failure { description: String },
}

impl RequestOutcome {
    /// A success never ends before its headers arrived.
    pub open spec fn wf(&self) -> bool {
        match self {
            RequestOutcome::Success { ttfb_ms, total_ms, .. } => *ttfb_ms <= *total_ms,
            RequestOutcome::Failure { .. } => true,
        }
    }

    /// Classifies a request from the two elapsed times measured for it. The total
    /// is never taken below the time to first byte.
    pub fn from_timings(ttfb_ms: u64, total_ms: u64, status_code: u16) -> (r: RequestOutcome)
        ensures
            r.wf(),
            r == (RequestOutcome::Success {
                ttfb_ms,
                total_ms: if total_ms >= ttfb_ms { total_ms } else { ttfb_ms },
                status_code,
            }),
    {
        let total = if total_ms >= ttfb_ms { total_ms } else { ttfb_ms };
        RequestOutcome::Success { ttfb_ms, total_ms: total, status_code }
    }
}

/// Every outcome built from timings satisfies `total_ms >= ttfb_ms`.
pub proof fn lemma_success_ordered(o: RequestOutcome)
    requires
        o.wf(),
    ensures
        o matches RequestOutcome::Success { ttfb_ms, total_ms, .. } ==> total_ms >= ttfb_ms,
{
}

} // verus!
