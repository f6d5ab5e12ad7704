//! Which message rate to report to which peer, and when.

use crate::timed_map::TimedMap;
use crate::xor_name::XorName;
use vstd::prelude::*;

verus! {

/// Shortest time between two reports to one peer, in milliseconds.
pub const MIN_REPORT_INTERVAL: u64 = 60_000;

/// Time after which a report to a peer is forgotten, in milliseconds.
pub const REPORT_TTL: u64 = 300_000;

/// The message rate at which the local estimate starts, in messages per
/// thousand seconds.
pub const INITIAL_MSGS_PER_S: u64 = 500_000;

/// The rate that every peer is granted whatever the load, in messages per
/// thousand seconds.
pub const DEFAULT_MSGS_PER_S_AND_PEER: u64 = 50_000;

/// What the controller remembers: for each peer the time and the rate of the
/// last report, the time of the last eviction pass, and the rate that every
/// peer is granted at least.
pub struct Reports {
    pub sent: Map<XorName, (u64, u64)>,
    pub last_eviction: u64,
    pub floor_rate: u64,
}

/// The rate to grant one peer: an equal part of what the node handles, and
/// not less than the floor.
pub open spec fn candidate_rate(floor_rate: u64, local_rate: u64, peers: nat) -> u64 {
    let part = local_rate as nat / (if peers == 0 {
        1
    } else {
        peers
    });
    if part < floor_rate {
        floor_rate
    } else {
        part as u64
    }
}

/// Whether `candidate` is worth a new report after `previous`: lower by more
/// than 5 %, or higher by more than 10 %.
pub open spec fn significant(candidate: u64, previous: u64) -> bool {
    candidate * 100 < previous * 95 || candidate * 100 > previous * 110
}

/// Whether a report to `caller` is due at `now`: none was made yet, or more
/// than the minimum interval has passed since the last.
pub open spec fn due(r: Reports, caller: XorName, now: u64) -> bool {
    !r.sent.contains_key(caller) || now - r.sent[caller].0 > MIN_REPORT_INTERVAL
}

/// The reports that an eviction pass at `now` keeps: those made at most
/// `REPORT_TTL` ago.
pub open spec fn retained(sent: Map<XorName, (u64, u64)>, now: u64) -> Map<XorName, (u64, u64)> {
    Map::new(
        |k: XorName| sent.contains_key(k) && now - sent[k].0 <= REPORT_TTL,
        |k: XorName| sent[k],
    )
}

/// Whether a call at which a report is due leads to a report of
/// `candidate`: the caller has no report yet, or the candidate differs
/// significantly from the rate that was last reported to it.
pub open spec fn worth_reporting(r: Reports, caller: XorName, candidate: u64) -> bool {
    !r.sent.contains_key(caller) || significant(candidate, r.sent[caller].1)
}

/// What a call from `caller` at `now` leads to, with the node handling
/// `local_rate` in all: the controller's new memory and the rate to report,
/// if any.
///
/// Nothing happens unless a report is due. If one is, the candidate rate is
/// reported unless an earlier report exists from which it does not differ
/// significantly. What is reported is recorded for the caller together with
/// `now`; after a call that reports nothing the caller's record is still
/// what was last sent. Then an eviction pass is made if the last one is more
/// than `REPORT_TTL` ago.
pub open spec fn report_step(r: Reports, caller: XorName, now: u64, local_rate: u64) -> (
    Reports,
    Option<u64>,
) {
    if !due(r, caller, now) {
        (r, None)
    } else {
        let candidate = candidate_rate(r.floor_rate, local_rate, r.sent.dom().len());
        let report = worth_reporting(r, caller, candidate);
        let recorded = if report {
            r.sent.insert(caller, (now, candidate))
        } else {
            r.sent
        };
        let evict = now - r.last_eviction > REPORT_TTL;
        let after = Reports {
            sent: if evict {
                retained(recorded, now)
            } else {
                recorded
            },
            last_eviction: if evict {
                now
            } else {
                r.last_eviction
            },
            floor_rate: r.floor_rate,
        };
        if report {
            (after, Some(candidate))
        } else {
            (after, None)
        }
    }
}

/// The record of a peer is what was last sent to it: a call that reports a
/// rate records that rate and the time of the call, and a call that reports
/// nothing leaves the caller's record as it was, unless the eviction pass
/// forgets it.
pub proof fn lemma_record_is_last_report(r: Reports, caller: XorName, now: u64, local_rate: u64)
    ensures
        match report_step(r, caller, now, local_rate).1 {
            Some(rate) => report_step(r, caller, now, local_rate).0.sent.contains_key(caller)
                && report_step(r, caller, now, local_rate).0.sent[caller] == (now, rate),
            None => report_step(r, caller, now, local_rate).0.sent.contains_key(caller)
                ==> r.sent.contains_key(caller) && report_step(
                r,
                caller,
                now,
                local_rate,
            ).0.sent[caller] == r.sent[caller],
        },
{
}

/// Of two calls from one peer at most `MIN_REPORT_INTERVAL` apart, at most
/// one leads to a report.
pub proof fn lemma_one_report_per_interval(
    r: Reports,
    caller: XorName,
    first: u64,
    first_rate: u64,
    second: u64,
    second_rate: u64,
)
    requires
        second - first <= MIN_REPORT_INTERVAL,
    ensures
        report_step(r, caller, first, first_rate).1.is_some() ==> report_step(
            report_step(r, caller, first, first_rate).0,
            caller,
            second,
            second_rate,
        ).1.is_none(),
{
}

/// A candidate within the band around the rate last reported to the caller
/// leads to no report.
pub proof fn lemma_small_change_is_silent(r: Reports, caller: XorName, now: u64, local_rate: u64)
    requires
        r.sent.contains_key(caller),
        !significant(
            candidate_rate(r.floor_rate, local_rate, r.sent.dom().len()),
            r.sent[caller].1,
        ),
    ensures
        report_step(r, caller, now, local_rate).1.is_none(),
{
}

/// Whether `candidate` differs significantly from `previous`.
pub fn is_significant(candidate: u64, previous: u64) -> (r: bool)
    ensures
        r == significant(candidate, previous),
{
    let c: u128 = candidate as u128 * 100;
    let low: u128 = previous as u128 * 95;
    let high: u128 = previous as u128 * 110;
    c < low || c > high
}

/// Decides which message rate to advertise to which peer, and when.
pub struct BackPressure {
    reports: TimedMap<u64>,
    last_eviction: u64,
    floor_rate: u64,
}

impl View for BackPressure {
    type V = Reports;

    closed spec fn view(&self) -> Reports {
        Reports {
            sent: self.reports@,
            last_eviction: self.last_eviction,
            floor_rate: self.floor_rate,
        }
    }
}

impl BackPressure {
    /// The invariant of the representation.
    pub closed spec fn wf(&self) -> bool {
        self.reports.wf()
    }

    /// A controller without reports, created at `now`, with the default
    /// floor.
    pub fn new(now: u64) -> (bp: BackPressure)
        ensures
            bp.wf(),
            bp@ == (Reports {
                sent: Map::empty(),
                last_eviction: now,
                floor_rate: DEFAULT_MSGS_PER_S_AND_PEER,
            }),
    {
        BackPressure {
            reports: TimedMap::new(),
            last_eviction: now,
            floor_rate: DEFAULT_MSGS_PER_S_AND_PEER,
        }
    }

    /// A controller without reports, created at `now`, with a floor of one's
    /// own.
    pub fn with_floor(now: u64, floor_rate: u64) -> (bp: BackPressure)
        ensures
            bp.wf(),
            bp@ == (Reports { sent: Map::empty(), last_eviction: now, floor_rate }),
    {
        BackPressure { reports: TimedMap::new(), last_eviction: now, floor_rate }
    }

    /// The rate to report to `caller`, who calls at `now` while the node
    /// handles `local_rate` in all; `None` if nothing is to be reported.
    pub fn tolerated_msgs_per_s(&mut self, caller: &XorName, now: u64, local_rate: u64) -> (r:
        Option<u64>)
        requires
            old(self).wf(),
        ensures
            final(self).wf(),
            (final(self)@, r) == report_step(old(self)@, *caller, now, local_rate),
    {
        if self.report_due(caller, now) {
            self.try_get_new_value(caller, now, local_rate)
        } else {
            None
        }
    }

    /// Whether a report to `caller` is due at `now`.
    pub fn report_due(&self, caller: &XorName, now: u64) -> (r: bool)
        requires
            self.wf(),
        ensures
            r == due(self@, *caller, now),
    {
        match self.reports.get(caller) {
            Some(e) => now > e.time && now - e.time > MIN_REPORT_INTERVAL,
            None => true,
        }
    }

    /// Decides, at a call at which a report is due, whether the candidate
    /// rate is reported, and records it if it is.
    pub fn try_get_new_value(&mut self, caller: &XorName, now: u64, local_rate: u64) -> (r: Option<
        u64,
    >)
        requires
            old(self).wf(),
            due(old(self)@, *caller, now),
        ensures
            final(self).wf(),
            (final(self)@, r) == report_step(old(self)@, *caller, now, local_rate),
            r == if worth_reporting(
                old(self)@,
                *caller,
                candidate_rate(old(self)@.floor_rate, local_rate, old(self)@.sent.dom().len()),
            ) {
                Some(candidate_rate(old(self)@.floor_rate, local_rate, old(self)@.sent.dom().len()))
            } else {
                None
            },
    {
        let peers = self.reports.len();
        let divisor: u64 = if peers == 0 {
            1
        } else {
            peers as u64
        };
        let part = local_rate / divisor;
        let candidate = if part < self.floor_rate {
            self.floor_rate
        } else {
            part
        };
        let report = match self.reports.get(caller) {
            Some(e) => is_significant(candidate, e.value),
            None => true,
        };
        if report {
            let _ = self.reports.insert(*caller, now, candidate);
        }
        if now > self.last_eviction && now - self.last_eviction > REPORT_TTL {
            self.evict_expired(now);
        }
        if report {
            Some(candidate)
        } else {
            None
        }
    }

    /// Forgets the reports made more than `REPORT_TTL` before `now`.
    fn evict_expired(&mut self, now: u64)
        requires
            old(self).wf(),
        ensures
            final(self).wf(),
            final(self)@ == (Reports {
                sent: retained(old(self)@.sent, now),
                last_eviction: now,
                floor_rate: old(self)@.floor_rate,
            }),
    {
        self.reports.remove_expired(now, REPORT_TTL + 1);
        self.last_eviction = now;
        assert(self@.sent =~= retained(old(self)@.sent, now));
    }
}

} // verus!
