use vstd::prelude::*;

use crate::counts::{
    bump_error, bump_status, count_map, keys_unique, text_rows, total_of,
};
use crate::outcome::RequestOutcome;

verus! {

/// Least time, in milliseconds, between two redraws of a run in progress.
pub const REFRESH_TIME: u64 = 300;

/// Whether a run in progress is due for a redraw, given when it was last drawn.
pub open spec fn redraw_due(last_ms: nat, now_ms: nat) -> bool {
    now_ms > last_ms + REFRESH_TIME
}

/// Decides whether a run in progress is due for a redraw.
pub fn should_redraw(last_ms: u64, now_ms: u64) -> (r: bool)
    ensures
        r == redraw_due(last_ms as nat, now_ms as nat),
{
    now_ms > last_ms && now_ms - last_ms > REFRESH_TIME
}

/// The statistics of a run as a reader sees them.
pub struct RunView {
    pub ttfb: Seq<u64>,
    pub total: Seq<u64>,
    pub status_counts: Map<u16, nat>,
    pub error_counts: Map<Seq<char>, nat>,
    pub error_total: nat,
    pub received: nat,
    pub expected: nat,
    pub done: bool,
    pub started_ms: nat,
    pub finished_ms: nat,
    pub last_drawn_ms: nat,
}

/// Requests per second of a finished run, over whole elapsed seconds; none while
/// the run goes on or when it took less than a second.
pub open spec fn throughput_of(v: RunView) -> Option<u64> {
    let secs = if v.finished_ms >= v.started_ms {
        (v.finished_ms - v.started_ms) as nat / 1000
    } else {
        0
    };
    if !v.done || secs == 0 {
        None
    } else {
        Some((v.received / secs) as u64)
    }
}

/// The running statistics of one load run, written only by the consumer of the
/// request outcomes.
pub struct UI {
    ttfb_points: Vec<u64>,
    total_time_points: Vec<u64>,
    errors: Vec<(String, u64)>,
    status_map: Vec<(u16, u64)>,
    expected: u64,
    received: u64,
    is_done: bool,
    started_ms: u64,
    finished_ms: u64,
    last_updated: u64,
}

impl View for UI {
    type V = RunView;

    closed spec fn view(&self) -> RunView {
        RunView {
            ttfb: self.ttfb_points@,
            total: self.total_time_points@,
            status_counts: count_map(self.status_map@),
            error_counts: count_map(text_rows(self.errors@)),
            error_total: total_of(text_rows(self.errors@)),
            received: self.received as nat,
            expected: self.expected as nat,
            done: self.is_done,
            started_ms: self.started_ms as nat,
            finished_ms: self.finished_ms as nat,
            last_drawn_ms: self.last_updated as nat,
        }
    }
}

/// The run that is about to make `total_requests` requests, with nothing
/// received yet. A run of no requests is complete from the start.
pub fn new(total_requests: u64) -> (r: UI)
    ensures
        r.wf(),
        r@.ttfb.len() == 0,
        r@.total.len() == 0,
        r@.status_counts == Map::<u16, nat>::empty(),
        r@.error_counts == Map::<Seq<char>, nat>::empty(),
        r@.error_total == 0,
        r@.received == 0,
        r@.expected == total_requests,
        r@.done == (total_requests == 0),
        r@.started_ms == 0,
        r@.finished_ms == 0,
        r@.last_drawn_ms == 0,
{
    let r = UI {
        ttfb_points: Vec::new(),
        total_time_points: Vec::new(),
        errors: Vec::new(),
        status_map: Vec::new(),
        expected: total_requests,
        received: 0,
        is_done: total_requests == 0,
        started_ms: 0,
        finished_ms: 0,
        last_updated: 0,
    };
    assert(text_rows(r.errors@) =~= Seq::<(Seq<char>, u64)>::empty());
    r
}

/// What a renderer draws of a run: the banner data, the two latency sample
/// sets and the two tables of counts, rows in the order they were first seen.
pub struct Snapshot {
    pub completed: u64,
    pub done: bool,
    pub throughput: Option<u64>,
    pub ttfb: Vec<u64>,
    pub total: Vec<u64>,
    pub status_rows: Vec<(u16, u64)>,
    pub error_rows: Vec<(String, u64)>,
}

/// Two snapshots that a renderer would draw alike.
pub open spec fn same_content(a: Snapshot, b: Snapshot) -> bool {
    &&& a.completed == b.completed
    &&& a.done == b.done
    &&& a.throughput == b.throughput
    &&& a.ttfb@ == b.ttfb@
    &&& a.total@ == b.total@
    &&& a.status_rows@ == b.status_rows@
    &&& a.error_rows@ == b.error_rows@
}

impl UI {
    /// The invariant of a run's statistics.
    pub closed spec fn wf(&self) -> bool {
        &&& self.ttfb_points@.len() == self.total_time_points@.len()
        &&& forall|i: int|
            0 <= i < self.ttfb_points@.len() ==> #[trigger] self.ttfb_points@[i]
                <= self.total_time_points@[i]
        &&& keys_unique(self.status_map@)
        &&& keys_unique(text_rows(self.errors@))
        &&& total_of(self.status_map@) == self.ttfb_points@.len()
        &&& self.ttfb_points@.len() + total_of(text_rows(self.errors@)) == self.received
        &&& self.received <= self.expected
        &&& self.is_done == (self.received == self.expected)
    }

    /// The status rows in the order they were first seen.
    pub closed spec fn status_rows(&self) -> Seq<(u16, u64)> {
        self.status_map@
    }

    /// The error rows in the order they were first seen.
    pub closed spec fn error_rows(&self) -> Seq<(String, u64)> {
        self.errors@
    }

    /// What `snapshot` hands out for this run.
    pub open spec fn is_snapshot(&self, s: Snapshot) -> bool {
        &&& s.completed == self@.received
        &&& s.done == self@.done
        &&& s.throughput == throughput_of(self@)
        &&& s.ttfb@ == self@.ttfb
        &&& s.total@ == self@.total
        &&& s.status_rows@ == self.status_rows()
        &&& s.error_rows@ == self.error_rows()
        &&& count_map(s.status_rows@) == self@.status_counts
        &&& count_map(text_rows(s.error_rows@)) == self@.error_counts
    }

    /// Marks the start of the run at `now_ms`; a run of no requests also ends there.
    pub fn start(&mut self, now_ms: u64)
        requires
            old(self).wf(),
        ensures
            final(self).wf(),
            final(self)@ == (RunView {
                started_ms: now_ms as nat,
                last_drawn_ms: now_ms as nat,
                finished_ms: if old(self)@.done {
                    now_ms as nat
                } else {
                    old(self)@.finished_ms
                },
                ..old(self)@
            }),
    {
        self.started_ms = now_ms;
        self.last_updated = now_ms;
        if self.is_done {
            self.finished_ms = now_ms;
        }
    }

    /// Counts one more received outcome; completes the run when it was the last
    /// one, and says whether the run is to be drawn again.
    fn finish_receipt(&mut self, now_ms: u64) -> (redraw: bool)
        requires
            old(self).received < old(self).expected,
            old(self).ttfb_points@.len() + total_of(text_rows(old(self).errors@))
                == old(self).received + 1,
            old(self).ttfb_points@.len() == old(self).total_time_points@.len(),
            forall|i: int|
                0 <= i < old(self).ttfb_points@.len() ==> #[trigger] old(self).ttfb_points@[i]
                    <= old(self).total_time_points@[i],
            keys_unique(old(self).status_map@),
            keys_unique(text_rows(old(self).errors@)),
            total_of(old(self).status_map@) == old(self).ttfb_points@.len(),
        ensures
            final(self).wf(),
            final(self).ttfb_points == old(self).ttfb_points,
            final(self).total_time_points == old(self).total_time_points,
            final(self).status_map == old(self).status_map,
            final(self).errors == old(self).errors,
            final(self).expected == old(self).expected,
            final(self).started_ms == old(self).started_ms,
            final(self).received == old(self).received + 1,
            final(self).is_done == (old(self).received + 1 == old(self).expected),
            final(self).finished_ms == if final(self).is_done {
                now_ms
            } else {
                old(self).finished_ms
            },
            redraw == (final(self).is_done || redraw_due(
                old(self).last_updated as nat,
                now_ms as nat,
            )),
            final(self).last_updated == if redraw {
                now_ms
            } else {
                old(self).last_updated
            },
    {
        self.received = self.received + 1;
        self.is_done = self.received == self.expected;
        if self.is_done {
            self.finished_ms = now_ms;
        }
        let redraw = self.is_done || should_redraw(self.last_updated, now_ms);
        if redraw {
            self.last_updated = now_ms;
        }
        redraw
    }

    /// Records a successful request: both timing samples and one more response
    /// with `status`. Returns whether the run is to be drawn again: when it has
    /// just completed, or when the last drawing is older than the refresh time.
    pub fn add_point(&mut self, ttfb: u64, total_time: u64, status: u16, now_ms: u64) -> (redraw: bool)
        requires
            old(self).wf(),
            !old(self)@.done,
            ttfb <= total_time,
        ensures
            final(self).wf(),
            final(self)@.ttfb == old(self)@.ttfb.push(ttfb),
            final(self)@.total == old(self)@.total.push(total_time),
            final(self)@.status_counts == old(self)@.status_counts.insert(
                status,
                if old(self)@.status_counts.contains_key(status) {
                    old(self)@.status_counts[status] + 1
                } else {
                    1
                },
            ),
            final(self)@.error_counts == old(self)@.error_counts,
            final(self)@.error_total == old(self)@.error_total,
            final(self)@.received == old(self)@.received + 1,
            final(self)@.expected == old(self)@.expected,
            final(self)@.done == (final(self)@.received == final(self)@.expected),
            final(self)@.started_ms == old(self)@.started_ms,
            final(self)@.finished_ms == if final(self)@.done {
                now_ms as nat
            } else {
                old(self)@.finished_ms
            },
            redraw == (final(self)@.done || redraw_due(old(self)@.last_drawn_ms, now_ms as nat)),
            final(self)@.last_drawn_ms == if redraw {
                now_ms as nat
            } else {
                old(self)@.last_drawn_ms
            },
    {
        self.ttfb_points.push(ttfb);
        self.total_time_points.push(total_time);
        bump_status(&mut self.status_map, status);
        self.finish_receipt(now_ms)
    }

    /// Records a failed request under its exact description. Returns whether the
    /// run is to be drawn again, as `add_point` does.
    pub fn add_error(&mut self, error: String, now_ms: u64) -> (redraw: bool)
        requires
            old(self).wf(),
            !old(self)@.done,
        ensures
            final(self).wf(),
            final(self)@.ttfb == old(self)@.ttfb,
            final(self)@.total == old(self)@.total,
            final(self)@.status_counts == old(self)@.status_counts,
            final(self)@.error_counts == old(self)@.error_counts.insert(
                error@,
                if old(self)@.error_counts.contains_key(error@) {
                    old(self)@.error_counts[error@] + 1
                } else {
                    1
                },
            ),
            final(self)@.error_total == old(self)@.error_total + 1,
            final(self)@.received == old(self)@.received + 1,
            final(self)@.expected == old(self)@.expected,
            final(self)@.done == (final(self)@.received == final(self)@.expected),
            final(self)@.started_ms == old(self)@.started_ms,
            final(self)@.finished_ms == if final(self)@.done {
                now_ms as nat
            } else {
                old(self)@.finished_ms
            },
            redraw == (final(self)@.done || redraw_due(old(self)@.last_drawn_ms, now_ms as nat)),
            final(self)@.last_drawn_ms == if redraw {
                now_ms as nat
            } else {
                old(self)@.last_drawn_ms
            },
    {
        bump_error(&mut self.errors, error);
        self.finish_receipt(now_ms)
    }

    /// Folds one outcome into the statistics: a success as `add_point` does, a
    /// failure as `add_error` does. Returns whether the run is to be drawn again.
    pub fn record(&mut self, outcome: RequestOutcome, now_ms: u64) -> (redraw: bool)
        requires
            old(self).wf(),
            !old(self)@.done,
            outcome.wf(),
        ensures
            final(self).wf(),
            final(self)@.received == old(self)@.received + 1,
            final(self)@.expected == old(self)@.expected,
            final(self)@.done == (final(self)@.received == final(self)@.expected),
            redraw == (final(self)@.done || redraw_due(old(self)@.last_drawn_ms, now_ms as nat)),
            match outcome {
                RequestOutcome::Success { ttfb_ms, total_ms, status_code } => {
                    &&& final(self)@.ttfb == old(self)@.ttfb.push(ttfb_ms)
                    &&& final(self)@.total == old(self)@.total.push(total_ms)
                    &&& final(self)@.status_counts == old(self)@.status_counts.insert(
                        status_code,
                        if old(self)@.status_counts.contains_key(status_code) {
                            old(self)@.status_counts[status_code] + 1
                        } else {
                            1
                        },
                    )
                    &&& final(self)@.error_counts == old(self)@.error_counts
                    &&& final(self)@.error_total == old(self)@.error_total
                },
                RequestOutcome::Failure { description } => {
                    &&& final(self)@.ttfb == old(self)@.ttfb
                    &&& final(self)@.total == old(self)@.total
                    &&& final(self)@.status_counts == old(self)@.status_counts
                    &&& final(self)@.error_counts == old(self)@.error_counts.insert(
                        description@,
                        if old(self)@.error_counts.contains_key(description@) {
                            old(self)@.error_counts[description@] + 1
                        } else {
                            1
                        },
                    )
                    &&& final(self)@.error_total == old(self)@.error_total + 1
                },
            },
    {
        match outcome {
            RequestOutcome::Success { ttfb_ms, total_ms, status_code } => {
                self.add_point(ttfb_ms, total_ms, status_code, now_ms)
            },
            RequestOutcome::Failure { description } => self.add_error(description, now_ms),
        }
    }

    /// Requests per second of the finished run, over whole elapsed seconds.
    pub fn throughput(&self) -> (r: Option<u64>)
        ensures
            r == throughput_of(self@),
    {
        let elapsed = if self.finished_ms >= self.started_ms {
            self.finished_ms - self.started_ms
        } else {
            0
        };
        let secs = elapsed / 1000;
        if !self.is_done || secs == 0 {
            None
        } else {
            Some(self.received / secs)
        }
    }

    /// What a renderer draws of the run now. It reads the statistics and changes
    /// nothing.
    pub fn snapshot(&self) -> (r: Snapshot)
        requires
            self.wf(),
        ensures
            self.is_snapshot(r),
    {
        let mut ttfb: Vec<u64> = Vec::new();
        let mut total: Vec<u64> = Vec::new();
        let mut i: usize = 0;
        while i < self.ttfb_points.len()
            invariant
                self.ttfb_points@.len() == self.total_time_points@.len(),
                i <= self.ttfb_points@.len(),
                ttfb@ == self.ttfb_points@.subrange(0, i as int),
                total@ == self.total_time_points@.subrange(0, i as int),
            decreases self.ttfb_points@.len() - i,
        {
            ttfb.push(self.ttfb_points[i]);
            total.push(self.total_time_points[i]);
            i = i + 1;
        }
        let mut status_rows: Vec<(u16, u64)> = Vec::new();
        let mut j: usize = 0;
        while j < self.status_map.len()
            invariant
                j <= self.status_map@.len(),
                status_rows@ == self.status_map@.subrange(0, j as int),
            decreases self.status_map@.len() - j,
        {
            status_rows.push(self.status_map[j]);
            j = j + 1;
        }
        let mut error_rows: Vec<(String, u64)> = Vec::new();
        let mut k: usize = 0;
        while k < self.errors.len()
            invariant
                k <= self.errors@.len(),
                error_rows@ == self.errors@.subrange(0, k as int),
            decreases self.errors@.len() - k,
        {
            let row = (self.errors[k].0.clone(), self.errors[k].1);
            error_rows.push(row);
            k = k + 1;
        }
        assert(ttfb@ =~= self.ttfb_points@);
        assert(total@ =~= self.total_time_points@);
        assert(status_rows@ =~= self.status_map@);
        assert(error_rows@ =~= self.errors@);
        Snapshot {
            completed: self.received,
            done: self.is_done,
            throughput: self.throughput(),
            ttfb,
            total,
            status_rows,
            error_rows,
        }
    }

    /// Whether every planned request has been received.
    pub fn done(&self) -> (r: bool)
        requires
            self.wf(),
        ensures
            r == self@.done,
            r == (self@.received == self@.expected),
    {
        self.is_done
    }

    /// Number of outcomes received so far.
    pub fn received(&self) -> (r: u64)
        ensures
            r == self@.received,
    {
        self.received
    }
} // impl UI

/// Every recorded success finished no earlier than its first byte arrived.
pub proof fn lemma_samples_ordered(ui: &UI)
    requires
        ui.wf(),
    ensures
        ui@.ttfb.len() == ui@.total.len(),
        forall|i: int| 0 <= i < ui@.ttfb.len() ==> #[trigger] ui@.ttfb[i] <= ui@.total[i],
{
}

/// Each received outcome is either one timing sample or one counted error, and
/// the run is complete exactly when the received count reaches the planned one;
/// a complete run therefore holds exactly as many samples and errors as planned.
pub proof fn lemma_run_accounts_for_every_request(ui: &UI)
    requires
        ui.wf(),
    ensures
        ui@.ttfb.len() + ui@.error_total == ui@.received,
        ui@.received <= ui@.expected,
        ui@.done <==> ui@.received == ui@.expected,
        ui@.done ==> ui@.ttfb.len() + ui@.error_total == ui@.expected,
{
}

/// A run planned for no requests is complete with nothing received: no samples
/// and no errors.
pub proof fn lemma_empty_run_complete(ui: &UI)
    requires
        ui.wf(),
        ui@.expected == 0,
    ensures
        ui@.done,
        ui@.received == 0,
        ui@.ttfb.len() == 0,
        ui@.total.len() == 0,
        ui@.error_total == 0,
{
}

/// Responses counted by status code add up to the successes recorded.
pub proof fn lemma_status_counts_cover_successes(ui: &UI)
    requires
        ui.wf(),
    ensures
        total_of(ui.status_rows()) == ui@.ttfb.len(),
        count_map(ui.status_rows()) == ui@.status_counts,
{
}

/// Drawing is a function of the statistics alone: two snapshots of an unchanged
/// run have the same content.
pub proof fn lemma_snapshot_idempotent(ui: &UI, a: Snapshot, b: Snapshot)
    requires
        ui.is_snapshot(a),
        ui.is_snapshot(b),
    ensures
        same_content(a, b),
{
}

} // verus!
