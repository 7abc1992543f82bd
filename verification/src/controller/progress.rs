//! Backup progress: mapping work done onto a percent range, deciding which updates to
//! publish, and throttling byte-count reports.

use vstd::prelude::*;
use crate::crd::backup::{BackupPhase, ProteusBackupStatus};

verus! {

/// Progress never reaches 100% before the backup has finished.
pub const MAX_RUNNING_PERCENT: u8 = 99;

/// Bytes between two byte-count reports.
pub const REPORT_EVERY_BYTES: u64 = 1024 * 1024;

pub open spec fn min_i(a: int, b: int) -> int {
    if a <= b {
        a
    } else {
        b
    }
}

pub open spec fn max_i(a: int, b: int) -> int {
    if a >= b {
        a
    } else {
        b
    }
}

/// The percent for `done` of `total` units inside `[range_start, range_end]` (an end below
/// the start counts as the start): the start plus the proportional part of the span, rounded
/// down, capped at 99; just the start when `total` is 0.
pub open spec fn map_range_spec(range_start: u8, range_end: u8, done: u64, total: u64) -> int {
    let start = range_start as int;
    let end = max_i(range_end as int, start);
    if total == 0 {
        start
    } else {
        min_i(start + (min_i(done as int, total as int) * (end - start)) / (total as int), 99)
    }
}

/// Map a fraction within `[range_start, range_end]` to a percent.
pub fn map_range(range_start: u8, range_end: u8, done: u64, total: u64) -> (r: u8)
    ensures
        r == map_range_spec(range_start, range_end, done, total),
{
    let start: u32 = range_start as u32;
    let end: u32 = if range_end >= range_start {
        range_end as u32
    } else {
        range_start as u32
    };
    if total == 0 {
        return range_start;
    }
    let span: u32 = end - start;
    let d: u64 = if done < total {
        done
    } else {
        total
    };
    proof {
        lemma_fraction_le(d as int, total as int, span as int);
        assert(d as int * span as int <= u64::MAX as int * 255) by (nonlinear_arith)
            requires
                d <= u64::MAX,
                span <= 255,
        ;
    }
    let frac: u128 = (d as u128 * span as u128) / total as u128;
    let sum: u32 = start + frac as u32;
    if sum < 99 {
        sum as u8
    } else {
        99
    }
}

/// `d * span / total` stays within `[0, span]` when `0 <= d <= total`.
proof fn lemma_fraction_le(d: int, total: int, span: int)
    requires
        0 <= d <= total,
        total > 0,
        0 <= span,
    ensures
        0 <= (d * span) / total <= span,
{
    assert(d * span <= total * span) by (nonlinear_arith)
        requires
            0 <= d <= total,
            0 <= span,
    ;
    assert(0 <= d * span) by (nonlinear_arith)
        requires
            0 <= d,
            0 <= span,
    ;
    vstd::arithmetic::div_mod::lemma_div_is_ordered(d * span, total * span, total);
    vstd::arithmetic::div_mod::lemma_div_multiples_vanish(span, total);
    assert(total * span == span * total) by (nonlinear_arith);
    vstd::arithmetic::div_mod::lemma_div_pos_is_pos(d * span, total);
}

/// With work left to do, the percent is at most 99.
pub proof fn lemma_map_range_capped(range_start: u8, range_end: u8, done: u64, total: u64)
    requires
        total > 0,
    ensures
        map_range_spec(range_start, range_end, done, total) <= 99,
{
}

/// Doing more work never lowers the percent.
pub proof fn lemma_map_range_monotone(
    range_start: u8,
    range_end: u8,
    done1: u64,
    done2: u64,
    total: u64,
)
    requires
        done1 <= done2,
    ensures
        map_range_spec(range_start, range_end, done1, total) <= map_range_spec(
            range_start,
            range_end,
            done2,
            total,
        ),
{
    if total > 0 {
        let start = range_start as int;
        let span = max_i(range_end as int, start) - start;
        let d1 = min_i(done1 as int, total as int);
        let d2 = min_i(done2 as int, total as int);
        assert(d1 * span <= d2 * span) by (nonlinear_arith)
            requires
                d1 <= d2,
                0 <= span,
        ;
        vstd::arithmetic::div_mod::lemma_div_is_ordered(d1 * span, d2 * span, total as int);
    }
}

/// All the work done lands on the end of the range (capped at 99).
pub proof fn lemma_map_range_complete(range_start: u8, range_end: u8, done: u64, total: u64)
    requires
        total > 0,
        done >= total,
    ensures
        map_range_spec(range_start, range_end, done, total) == min_i(
            max_i(range_end as int, range_start as int),
            99,
        ),
{
    let start = range_start as int;
    let span = max_i(range_end as int, start) - start;
    assert(min_i(done as int, total as int) == total);
    vstd::arithmetic::div_mod::lemma_div_multiples_vanish(span, total as int);
    assert(total * span == span * total) by (nonlinear_arith);
}

/// Never below the start of the range, unless the start itself exceeds the cap.
pub proof fn lemma_map_range_at_least_start(range_start: u8, range_end: u8, done: u64, total: u64)
    ensures
        map_range_spec(range_start, range_end, done, total) >= min_i(range_start as int, 99),
{
    if total > 0 {
        let start = range_start as int;
        lemma_fraction_le(
            min_i(done as int, total as int),
            total as int,
            max_i(range_end as int, start) - start,
        );
    }
}

/// What to do with a progress update.
#[derive(Clone, Copy, Debug, PartialEq, Eq)]
pub enum ProgressDecision {
    /// The backup was deleted: stop with an error.
    Cancelled,
    /// Nothing new: publish nothing.
    Skip,
    /// Publish this percent with the update's message.
    Publish(u8),
}

/// What has been published for a running backup.
#[derive(Debug)]
pub struct ProgressState {
    last_percent: u8,
    last_message: String,
    cancelled: bool,
}

impl ProgressState {
    #[verifier::type_invariant]
    spec fn inv(self) -> bool {
        self.last_percent <= 99
    }

    pub closed spec fn last_percent_spec(self) -> u8 {
        self.last_percent
    }

    pub closed spec fn last_message_spec(self) -> Seq<char> {
        self.last_message@
    }

    pub closed spec fn cancelled_spec(self) -> bool {
        self.cancelled
    }

    /// Nothing published yet: 0%, no message.
    pub fn new() -> (r: Self)
        ensures
            r.last_percent_spec() == 0,
            r.last_message_spec() == Seq::<char>::empty(),
            !r.cancelled_spec(),
    {
        ProgressState { last_percent: 0, last_message: String::new(), cancelled: false }
    }

    pub fn is_cancelled(&self) -> (r: bool)
        ensures
            r == self.cancelled_spec(),
    {
        self.cancelled
    }

    /// The backup was found deleted: every later update is cancelled.
    pub fn mark_cancelled(&mut self)
        ensures
            final(self).cancelled_spec(),
            final(self).last_percent_spec() == old(self).last_percent_spec(),
            final(self).last_message_spec() == old(self).last_message_spec(),
    {
        proof {
            use_type_invariant(&*self);
        }
        self.cancelled = true;
    }

    /// Decide on an update to `percent` with `message`: cancelled once the backup is gone;
    /// otherwise the percent is capped at 99, and an update is published only when it neither
    /// goes backwards nor repeats the last percent with the same message.
    pub fn decide(&mut self, percent: u8, message: &str) -> (r: ProgressDecision)
        ensures
            ({
                let p: u8 = if percent < 99 {
                    percent
                } else {
                    99
                };
                let last = old(self).last_percent_spec();
                if old(self).cancelled_spec() {
                    r == ProgressDecision::Cancelled && *final(self) == *old(self)
                } else if p < last || (p == last && message@ == old(self).last_message_spec()) {
                    r == ProgressDecision::Skip && *final(self) == *old(self)
                } else {
                    &&& r == ProgressDecision::Publish(p)
                    &&& final(self).last_percent_spec() == p
                    &&& final(self).last_message_spec() == message@
                    &&& !final(self).cancelled_spec()
                }
            }),
            final(self).last_percent_spec() >= old(self).last_percent_spec(),
            final(self).last_percent_spec() <= 99,
            final(self).cancelled_spec() == old(self).cancelled_spec(),
    {
        proof {
            use_type_invariant(&*self);
        }
        if self.cancelled {
            return ProgressDecision::Cancelled;
        }
        let p: u8 = if percent < 99 {
            percent
        } else {
            99
        };
        if p < self.last_percent {
            return ProgressDecision::Skip;
        }
        if p == self.last_percent && crate::text::str_eq(message, self.last_message.as_str()) {
            return ProgressDecision::Skip;
        }
        self.last_percent = p;
        self.last_message = String::from_str(message);
        ProgressDecision::Publish(p)
    }
}

/// The status published for a running backup: Running, the message and percent, and the
/// results of earlier runs carried over.
pub fn running_status(carry: &ProteusBackupStatus, percent: u8, message: String) -> (r:
    ProteusBackupStatus)
    ensures
        r.phase == Some(BackupPhase::Running),
        r.message matches Some(m) && m@ == message@,
        r.progress_percent == Some(percent),
        r.last_snapshot_id == carry.last_snapshot_id,
        r.last_success_at == carry.last_success_at,
        r.last_failure_at == carry.last_failure_at,
        r.last_bytes == carry.last_bytes,
        r.retained_snapshots == carry.retained_snapshots,
        r.duration_seconds == carry.duration_seconds,
        r.throughput_bytes_per_sec == carry.throughput_bytes_per_sec,
{
    ProteusBackupStatus {
        phase: Some(BackupPhase::Running),
        message: Some(message),
        progress_percent: Some(percent),
        last_snapshot_id: crate::api::common::clone_opt_string(&carry.last_snapshot_id),
        last_success_at: crate::api::common::clone_opt_string(&carry.last_success_at),
        last_failure_at: crate::api::common::clone_opt_string(&carry.last_failure_at),
        last_bytes: carry.last_bytes,
        retained_snapshots: carry.retained_snapshots,
        duration_seconds: carry.duration_seconds,
        throughput_bytes_per_sec: carry.throughput_bytes_per_sec,
    }
}

/// Throttles byte-count reports while a volume streams in: a report after every mebibyte,
/// and a last one for whatever is left when the stream ends.
#[derive(Debug)]
pub struct ByteReportThrottle {
    last_done: u64,
    last_reported: u64,
}

impl ByteReportThrottle {
    pub closed spec fn last_done_spec(self) -> u64 {
        self.last_done
    }

    pub closed spec fn last_reported_spec(self) -> u64 {
        self.last_reported
    }

    pub fn new() -> (r: Self)
        ensures
            r.last_done_spec() == 0,
            r.last_reported_spec() == 0,
    {
        ByteReportThrottle { last_done: 0, last_reported: 0 }
    }

    /// `done` bytes have been ingested: report them when at least a mebibyte has come in
    /// since the last report.
    pub fn observe(&mut self, done: u64) -> (r: Option<u64>)
        ensures
            final(self).last_done_spec() == done,
            ({
                let gap: int = if done >= old(self).last_reported_spec() {
                    done - old(self).last_reported_spec()
                } else {
                    0
                };
                if gap >= REPORT_EVERY_BYTES {
                    r == Some(done) && final(self).last_reported_spec() == done
                } else {
                    r is None && final(self).last_reported_spec() == old(
                        self,
                    ).last_reported_spec()
                }
            }),
    {
        self.last_done = done;
        let gap = if done >= self.last_reported {
            done - self.last_reported
        } else {
            0
        };
        if gap >= REPORT_EVERY_BYTES {
            self.last_reported = done;
            Some(done)
        } else {
            None
        }
    }

    /// The stream ended: report the last count if it was not reported yet.
    pub fn finish(&self) -> (r: Option<u64>)
        ensures
            r == if self.last_done_spec() != self.last_reported_spec() {
                Some(self.last_done_spec())
            } else {
                None::<u64>
            },
    {
        if self.last_done != self.last_reported {
            Some(self.last_done)
        } else {
            None
        }
    }
}

} // verus!
