//! The replay engine's decision core.
//!
//! The engine consumes stream outcomes one at a time and directs, for
//! each, what its caller must do: abort the run, or write one 24-byte
//! record to one device, possibly after opening it, possibly after a
//! pacing delay.  The caller performs the opens, writes, clock reads
//! and sleeps; every decision — fail-fast aborts, device-name
//! resolution, handle caching, timestamp zeroing, marker detection and
//! the pacing arithmetic — is made and verified here.

use vstd::prelude::*;
use crate::codes::{EV_SYN, SYN_REPORT};
use crate::error::Error;
use crate::event::{is_event_bytes, InputEvent};
use crate::parse::opt_view;
use crate::stream::Outcome;
use crate::text::bytes_eq;
use crate::time::{Dur, TimeVal};

verus! {

/// Whether an event is the synchronization marker that ends a batch:
/// the synchronization event type paired with the report code.
pub open spec fn spec_is_marker(ev: InputEvent) -> bool {
    ev.type_ == EV_SYN && ev.code == SYN_REPORT
}

/// Decides whether an event is a synchronization marker.
pub fn is_marker(ev: &InputEvent) -> (r: bool)
    ensures
        r == spec_is_marker(*ev),
{
    ev.type_ == EV_SYN && ev.code == SYN_REPORT
}

/// The event as the device receives it: the log timestamp replaced by
/// zero.  Pacing is reproduced by scheduling the write, never by the
/// record's contents.
pub open spec fn zeroed(ev: InputEvent) -> InputEvent {
    InputEvent { time: TimeVal { sec: 0, usec: 0 }, type_: ev.type_, code: ev.code, value: ev.value }
}

/// Why a run stops.  Every failure is fatal: there is no skipping, no
/// retry, no partial recovery.
#[derive(Debug, PartialEq, Eq)]
pub enum AbortCause {
    /// The stream surfaced a failure.
    Stream(Error),
    /// An event names no device and the caller supplied no default.
    NoDevice,
    /// A marker's timestamp cannot be represented as a duration.
    TimeRange,
}

/// How the caller must pace a directed write.
#[derive(Debug, Clone, Copy, PartialEq, Eq, Structural)]
pub enum Pace {
    /// Write at once: a non-marker event inside a batch.
    Immediate,
    /// The first marker: write at once and record the wall clock at
    /// this instant as the pacing baseline.
    Baseline,
    /// A later marker: wait until the given duration has elapsed on
    /// the wall clock since the baseline instant, then write.
    Wait(Dur),
}

/// One directed write: open the named device first if `open` is set,
/// then write the record `bytes` to the device at index `device` in
/// open order, paced by `pace`.
#[derive(Debug)]
pub struct Delivery {
    /// The name to open, when the event's device is not yet cached.
    pub open: Option<Vec<u8>>,
    /// The target device's index in open order.
    pub device: usize,
    /// The 24-byte record to write, its timestamp zeroed.
    pub bytes: Vec<u8>,
    /// When to write it.
    pub pace: Pace,
}

/// What the engine directs for one stream outcome.
#[derive(Debug)]
pub enum Step {
    /// Stop the whole run.
    Abort(AbortCause),
    /// Perform one write.
    Deliver(Delivery),
}

/// The engine's state: the caller's default device name, the device
/// names opened so far in open order — the keys of the handle cache,
/// which the caller's handles mirror index for index — and the log
/// time of the first marker once one has been seen.
pub struct Replayer {
    /// The name to use for events that carry none.
    pub default_device: Option<Vec<u8>>,
    /// The opened device names, in open order, each held exactly once.
    pub opened: Vec<Vec<u8>>,
    /// The first marker's original log time, the pacing zero-point.
    pub baseline: Option<Dur>,
}

impl Replayer {
    /// The state invariant: the cache records a name at most once,
    /// and the baseline, once set, is a well-formed duration.
    pub open spec fn wf(self) -> bool {
        &&& forall|i: int, j: int|
            0 <= i < j < self.opened.len() ==> #[trigger] self.opened[i]@ != #[trigger] self.opened[j]@
        &&& self.baseline is Some ==> self.baseline->0.wf()
    }

    /// Whether `name` is already cached.
    pub open spec fn has_name(self, name: Seq<u8>) -> bool {
        exists|i: int| 0 <= i < self.opened.len() && #[trigger] self.opened[i]@ == name
    }

    /// The device name a stream item resolves to: the event's own if
    /// present — even when empty — else the caller's default.
    pub open spec fn resolved(self, dev: Option<Seq<u8>>) -> Option<Seq<u8>> {
        match dev {
            Some(n) => Some(n),
            None => match self.default_device {
                Some(d) => Some(d@),
                None => None,
            },
        }
    }

    /// A fresh engine with an empty cache and no baseline.
    pub fn new(default_device: Option<Vec<u8>>) -> (r: Replayer)
        ensures
            r.wf(),
            r.default_device == default_device,
            r.opened@.len() == 0,
            r.baseline is None,
    {
        Replayer { default_device, opened: Vec::new(), baseline: None }
    }

    /// The cache never records a device name twice: two cached entries
    /// with the same name are the same entry.
    pub proof fn lemma_opened_unique(self, i: int, j: int)
        requires
            self.wf(),
            0 <= i < self.opened.len(),
            0 <= j < self.opened.len(),
            self.opened[i]@ == self.opened[j]@,
        ensures
            i == j,
    {
    }

    /// Decides what to do with one stream outcome.
    ///
    /// A failure outcome, an event with no resolvable device name, and
    /// a marker whose timestamp cannot become a duration each abort
    /// the run with the state unchanged.  Every other event is
    /// delivered: its record is the event with the timestamp zeroed;
    /// its device is the cached one of that name, or a newly opened
    /// one exactly when the name was never cached before — so each
    /// name is opened at most once per run; and it is paced only if it
    /// is a marker — the first marker fixes the baseline at its own
    /// log time, and each later one waits out the log time elapsed
    /// since that baseline, clamped at zero.
    pub fn step(&mut self, outcome: Outcome) -> (r: Step)
        requires
            old(self).wf(),
        ensures
            final(self).wf(),
            final(self).default_device == old(self).default_device,
            ({
                let pre = *old(self);
                let post = *final(self);
                match outcome {
                    Err(e) => post == pre && (r matches Step::Abort(AbortCause::Stream(e2))
                        && e2 == e),
                    Ok((dev, ev)) => match pre.resolved(opt_view(dev)) {
                        None => post == pre && r matches Step::Abort(AbortCause::NoDevice),
                        Some(name) => {
                            if spec_is_marker(ev) && !ev.time.convertible() {
                                post == pre && r matches Step::Abort(AbortCause::TimeRange)
                            } else {
                                r matches Step::Deliver(d) && {
                                    &&& is_event_bytes(zeroed(ev), d.bytes@)
                                    &&& if pre.has_name(name) {
                                        &&& d.open is None
                                        &&& d.device < pre.opened.len()
                                        &&& pre.opened[d.device as int]@ == name
                                        &&& post.opened == pre.opened
                                    } else {
                                        &&& d.open matches Some(v) && v@ == name
                                        &&& d.device == pre.opened.len()
                                        &&& post.opened@.len() == pre.opened@.len() + 1
                                        &&& post.opened[d.device as int]@ == name
                                        &&& forall|i: int|
                                            0 <= i < pre.opened.len()
                                                ==> #[trigger] post.opened[i] == pre.opened[i]
                                    }
                                    &&& if !spec_is_marker(ev) {
                                        d.pace == Pace::Immediate && post.baseline == pre.baseline
                                    } else if pre.baseline is None {
                                        &&& d.pace == Pace::Baseline
                                        &&& post.baseline matches Some(b) && b.wf()
                                            && b.total_nanos() == ev.time.as_nanos()
                                    } else {
                                        &&& post.baseline == pre.baseline
                                        &&& d.pace matches Pace::Wait(w) && w.wf()
                                            && w.total_nanos() == if ev.time.as_nanos()
                                            >= pre.baseline->0.total_nanos() {
                                            ev.time.as_nanos() - pre.baseline->0.total_nanos()
                                        } else {
                                            0
                                        }
                                    }
                                }
                            }
                        },
                    },
                }
            }),
    {
        let (dev, ev) = match outcome {
            Err(e) => {
                return Step::Abort(AbortCause::Stream(e));
            },
            Ok(p) => p,
        };
        let name: Vec<u8> = match dev {
            Some(n) => n,
            None => match &self.default_device {
                Some(d) => vstd::slice::slice_to_vec(d.as_slice()),
                None => {
                    return Step::Abort(AbortCause::NoDevice);
                },
            },
        };
        let marker = is_marker(&ev);
        let mut pace = Pace::Immediate;
        if marker {
            match ev.time.checked_duration() {
                None => {
                    return Step::Abort(AbortCause::TimeRange);
                },
                Some(t) => match self.baseline {
                    None => {
                        self.baseline = Some(t);
                        pace = Pace::Baseline;
                    },
                    Some(b) => {
                        pace = Pace::Wait(t.saturating_sub(b));
                    },
                },
            }
        }
        let zev = InputEvent {
            time: TimeVal { sec: 0, usec: 0 },
            type_: ev.type_,
            code: ev.code,
            value: ev.value,
        };
        let bytes = zev.to_ne_bytes();
        match find_name(&self.opened, name.as_slice()) {
            Some(idx) => Step::Deliver(Delivery { open: None, device: idx, bytes, pace }),
            None => {
                let device = self.opened.len();
                let cached = vstd::slice::slice_to_vec(name.as_slice());
                self.opened.push(cached);
                Step::Deliver(Delivery { open: Some(name), device, bytes, pace })
            },
        }
    }
}

/// Looks a device name up in the open-order cache record.
fn find_name(opened: &Vec<Vec<u8>>, name: &[u8]) -> (r: Option<usize>)
    ensures
        match r {
            Some(i) => i < opened@.len() && opened[i as int]@ == name@,
            None => forall|i: int| 0 <= i < opened@.len() ==> #[trigger] opened[i]@ != name@,
        },
{
    let count: usize = opened.len();
    let mut idx: usize = 0;
    while idx < count
        invariant
            0 <= idx <= count,
            count == opened@.len(),
            forall|i: int| 0 <= i < idx ==> #[trigger] opened[i]@ != name@,
        decreases count - idx,
    {
        if bytes_eq(opened[idx].as_slice(), name) {
            return Some(idx);
        }
        idx = idx + 1;
    }
    None
}

} // verus!
