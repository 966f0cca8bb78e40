//! Timelines: sequences of events at wall-clock times.
//!
//! A `Timeline` is built with a `TimelineBuilder`, which is anchored at the
//! time the timeline ends. Events are added either at an absolute start time
//! (`add`) or immediately before the earliest event known so far (`prepend`),
//! which lets a caller walk backward from a completion time through a list of
//! durations. An event may carry a finished timeline of its own, whose events
//! all happened at that point of the enclosing timeline. `finish` freezes the
//! events in wall-clock order and computes each one's offset from the start.

use vstd::prelude::*;
use crate::time::{Duration, Timestamp, TIME_LIMIT};

verus! {

/// An event of `duration` microseconds that starts at `start` is
/// non-negative and lies within the range of instants the library handles.
pub open spec fn span_ok(start: int, duration: int) -> bool {
    &&& -TIME_LIMIT <= start
    &&& 0 <= duration
    &&& start + duration <= TIME_LIMIT
}

/// A finished sequence of events, in wall-clock order.
#[derive(Debug)]
pub struct Timeline {
    pub(crate) tl_events: Vec<TimelineEvent>,
    /// The anchor the timeline was built from; meaningful even with no events.
    pub(crate) tl_end: Timestamp,
    /// Start of the earliest event, or `tl_end` when there is none.
    pub(crate) tl_start: Timestamp,
    /// One more than the largest height of a nested timeline (0 when none).
    pub(crate) tl_height: u64,
}

/// One event of a finished timeline.
#[derive(Debug)]
pub struct TimelineEvent {
    pub(crate) te_wall_start: Timestamp,
    pub(crate) te_relative_start: Duration,
    pub(crate) te_duration: Duration,
    pub(crate) te_label: String,
    pub(crate) te_timeline: Option<Box<Timeline>>,
}

/// An event of a timeline under construction: it has no relative start yet.
#[derive(Debug)]
pub struct TimelineBuilderEvent {
    pub(crate) tbe_wall_start: Timestamp,
    pub(crate) tbe_duration: Duration,
    pub(crate) tbe_label: String,
    pub(crate) tbe_timeline: Option<Box<Timeline>>,
}

/// Accumulates events for a timeline that ends at a known time.
#[derive(Debug)]
pub struct TimelineBuilder {
    pub(crate) tlb_events: Vec<TimelineBuilderEvent>,
    pub(crate) tlb_end: Timestamp,
    pub(crate) tlb_height: u64,
}

impl TimelineEvent {
    pub open(crate) spec fn start_at(&self) -> int {
        self.te_wall_start.micros as int
    }

    pub open(crate) spec fn relative_at(&self) -> int {
        self.te_relative_start.micros as int
    }

    pub open(crate) spec fn length(&self) -> int {
        self.te_duration.micros as int
    }

    pub open(crate) spec fn text(&self) -> Seq<char> {
        self.te_label@
    }

    pub open(crate) spec fn nested(&self) -> Option<Box<Timeline>> {
        self.te_timeline
    }
}

impl TimelineBuilderEvent {
    pub open(crate) spec fn start_at(&self) -> int {
        self.tbe_wall_start.micros as int
    }

    pub open(crate) spec fn length(&self) -> int {
        self.tbe_duration.micros as int
    }

    pub open(crate) spec fn text(&self) -> Seq<char> {
        self.tbe_label@
    }

    pub open(crate) spec fn nested(&self) -> Option<Box<Timeline>> {
        self.tbe_timeline
    }
}

impl Timeline {
    pub open(crate) spec fn events_seq(&self) -> Seq<TimelineEvent> {
        self.tl_events@
    }

    pub open(crate) spec fn start_at(&self) -> int {
        self.tl_start.micros as int
    }

    pub open(crate) spec fn end_at(&self) -> int {
        self.tl_end.micros as int
    }

    pub open(crate) spec fn height_at(&self) -> int {
        self.tl_height as int
    }

    /// The invariant of a finished timeline: events in wall-clock order, each
    /// in range, each offset measured from the timeline's own start, and each
    /// nested timeline well formed and lower than this one.
    pub open(crate) spec fn wf(&self) -> bool
        decreases self,
    {
        &&& self.tl_end.valid()
        &&& if self.tl_events@.len() == 0 {
            self.tl_start == self.tl_end
        } else {
            self.tl_start == self.tl_events@[0].te_wall_start
        }
        &&& forall|i: int, j: int|
            0 <= i <= j < self.tl_events@.len() ==> self.tl_events@[i].te_wall_start.micros
                <= self.tl_events@[j].te_wall_start.micros
        &&& forall|i: int|
            0 <= i < self.tl_events@.len() ==> {
                let e = #[trigger] self.tl_events@[i];
                &&& span_ok(e.te_wall_start.micros as int, e.te_duration.micros as int)
                &&& e.te_relative_start.micros == e.te_wall_start.micros - self.tl_start.micros
                &&& match e.te_timeline {
                    Some(s) => s.tl_height < self.tl_height && s.wf(),
                    None => true,
                }
            }
    }

    /// Total wall-clock time between the start and the end of the timeline.
    pub fn total_elapsed(&self) -> (r: Duration)
        requires
            self.wf(),
        ensures
            r.micros == self.end_at() - self.start_at(),
    {
        Duration { micros: self.tl_end.micros - self.tl_start.micros }
    }

    /// The events of the timeline, in wall-clock order.
    pub fn events(&self) -> (r: &Vec<TimelineEvent>)
        ensures
            r@ == self.events_seq(),
    {
        &self.tl_events
    }

    /// Nesting height: 0 for a timeline without nested timelines.
    pub fn height(&self) -> (r: u64)
        ensures
            r == self.height_at(),
    {
        self.tl_height
    }
}

impl TimelineEvent {
    /// Wall-clock time at which the event started.
    pub fn wall_start(&self) -> (r: Timestamp)
        ensures
            r.micros == self.start_at(),
    {
        self.te_wall_start
    }

    /// Duration of the event.
    pub fn duration(&self) -> (r: Duration)
        ensures
            r.micros == self.length(),
    {
        self.te_duration
    }

    /// Wall-clock time at which the event ended.
    pub fn wall_end(&self) -> (r: Timestamp)
        requires
            span_ok(self.start_at(), self.length()),
        ensures
            r.micros == self.start_at() + self.length(),
    {
        Timestamp { micros: self.te_wall_start.micros + self.te_duration.micros }
    }

    /// Time between the start of the enclosing timeline and this event.
    pub fn relative_start(&self) -> (r: Duration)
        ensures
            r.micros == self.relative_at(),
    {
        self.te_relative_start
    }

    /// Human-readable label of the event.
    pub fn label(&self) -> (r: String)
        ensures
            r@ == self.text(),
    {
        self.te_label.clone()
    }

    /// The timeline that this event summarizes, if any.
    pub fn subtimeline(&self) -> (r: Option<&Box<Timeline>>)
        ensures
            match self.nested() {
                Some(s) => r is Some && *r->Some_0 == s,
                None => r is None,
            },
    {
        match &self.te_timeline {
            Some(t) => Some(t),
            None => None,
        }
    }
}


/// Number of leading events of `s` that start strictly before `t`: the place
/// at which an event starting at `t` goes, before any event starting at the
/// same time.
pub open(crate) spec fn insert_index(s: Seq<TimelineBuilderEvent>, t: int) -> int
    decreases s.len(),
{
    if s.len() == 0 {
        0
    } else if s[0].tbe_wall_start.micros < t {
        1 + insert_index(s.drop_first(), t)
    } else {
        0
    }
}

/// The position of the first event that does not start before `t`.
proof fn lemma_insert_index(s: Seq<TimelineBuilderEvent>, t: int, k: int)
    requires
        0 <= k <= s.len(),
        forall|j: int| 0 <= j < k ==> #[trigger] s[j].tbe_wall_start.micros < t,
        k < s.len() ==> s[k].tbe_wall_start.micros >= t,
    ensures
        insert_index(s, t) == k,
    decreases k,
{
    if k > 0 {
        assert(s[0].tbe_wall_start.micros < t);
        let rest = s.drop_first();
        assert forall|j: int| 0 <= j < k - 1 implies #[trigger] rest[j].tbe_wall_start.micros < t by {
            assert(rest[j] == s[j + 1]);
        }
        lemma_insert_index(rest, t, k - 1);
    }
}

/// Height of a builder after it takes in an event that carries `sub`.
pub open(crate) spec fn height_after(height: int, sub: Option<Box<Timeline>>) -> int {
    match sub {
        Some(s) => if s.tl_height < height {
            height
        } else {
            s.tl_height + 1
        },
        None => height,
    }
}

/// `after` is `before` with one more event, put in at the first place whose event
/// does not start before `start`.
pub open(crate) spec fn added(
    before: TimelineBuilder,
    after: TimelineBuilder,
    label: Seq<char>,
    start: int,
    duration: int,
    sub: Option<Box<Timeline>>,
) -> bool {
    let k = insert_index(before.tlb_events@, start);
    let e = after.tlb_events@[k];
    &&& after.wf()
    &&& after.tlb_end == before.tlb_end
    &&& after.tlb_height == height_after(before.tlb_height as int, sub)
    &&& after.tlb_events@ == before.tlb_events@.insert(k, e)
    &&& e.tbe_wall_start.micros == start
    &&& e.tbe_duration.micros == duration
    &&& e.tbe_label@ == label
    &&& e.tbe_timeline == sub
}

/// `tl` is what `finish` makes of `b`: the same events in the same order,
/// each with its offset from the start of the timeline, which is the start of
/// the earliest event, or the end when there is none.
pub open(crate) spec fn finished(b: TimelineBuilder, tl: Timeline) -> bool {
    &&& tl.wf()
    &&& tl.tl_end == b.tlb_end
    &&& tl.tl_start.micros == b.anchor()
    &&& tl.tl_height == b.tlb_height
    &&& tl.tl_events@.len() == b.tlb_events@.len()
    &&& forall|i: int|
        0 <= i < tl.tl_events@.len() ==> {
            let e = #[trigger] tl.tl_events@[i];
            let p = b.tlb_events@[i];
            &&& e.te_wall_start == p.tbe_wall_start
            &&& e.te_duration == p.tbe_duration
            &&& e.te_label@ == p.tbe_label@
            &&& e.te_timeline == p.tbe_timeline
            &&& e.te_relative_start.micros == e.te_wall_start.micros - tl.tl_start.micros
        }
}

impl TimelineBuilder {
    pub open(crate) spec fn pending(&self) -> Seq<TimelineBuilderEvent> {
        self.tlb_events@
    }

    pub open(crate) spec fn end_at(&self) -> int {
        self.tlb_end.micros as int
    }

    pub open(crate) spec fn height_at(&self) -> int {
        self.tlb_height as int
    }

    /// The earliest time known so far: the start of the earliest event, or
    /// the end when there is none.
    pub open(crate) spec fn anchor(&self) -> int {
        if self.tlb_events@.len() == 0 {
            self.tlb_end.micros as int
        } else {
            self.tlb_events@[0].tbe_wall_start.micros as int
        }
    }

    /// The builder's invariant: events kept in wall-clock order, each in
    /// range, each nested timeline well formed and lower than the builder.
    pub open(crate) spec fn wf(&self) -> bool {
        &&& self.tlb_end.valid()
        &&& forall|i: int, j: int|
            0 <= i <= j < self.tlb_events@.len() ==> self.tlb_events@[i].tbe_wall_start.micros
                <= self.tlb_events@[j].tbe_wall_start.micros
        &&& forall|i: int|
            0 <= i < self.tlb_events@.len() ==> {
                let e = #[trigger] self.tlb_events@[i];
                &&& span_ok(e.tbe_wall_start.micros as int, e.tbe_duration.micros as int)
                &&& match e.tbe_timeline {
                    Some(s) => s.tl_height < self.tlb_height && s.wf(),
                    None => true,
                }
            }
    }

    /// Starts a timeline that ends at `end`, with no events.
    pub fn new_ending(end: Timestamp) -> (r: TimelineBuilder)
        requires
            end.valid(),
        ensures
            r.wf(),
            r.pending().len() == 0,
            r.end_at() == end.micros,
            r.height_at() == 0,
    {
        TimelineBuilder { tlb_events: Vec::new(), tlb_end: end, tlb_height: 0 }
    }

    /// Adds an event that starts at `start` and lasts `duration`, after the
    /// events that start earlier and before those that start at the same time
    /// or later. With `subtimeline`, the event summarizes that timeline.
    pub fn add(
        &mut self,
        label: &str,
        start: &Timestamp,
        duration: &Duration,
        subtimeline: Option<Box<Timeline>>,
    )
        requires
            old(self).wf(),
            span_ok(start.micros as int, duration.micros as int),
            match subtimeline {
                Some(s) => s.wf() && s.height_at() < u64::MAX,
                None => true,
            },
        ensures
            added(
                *old(self),
                *final(self),
                label@,
                start.micros as int,
                duration.micros as int,
                subtimeline,
            ),
    {
        let n = self.tlb_events.len();
        let mut k: usize = 0;
        while k < n && self.tlb_events[k].tbe_wall_start.micros < start.micros
            invariant
                k <= n,
                n == self.tlb_events@.len(),
                forall|j: int| 0 <= j < k ==> #[trigger] self.tlb_events@[j].tbe_wall_start.micros < start.micros,
            decreases n - k,
        {
            k = k + 1;
        }
        proof {
            lemma_insert_index(self.tlb_events@, start.micros as int, k as int);
        }
        let new_height = match &subtimeline {
            Some(s) => if s.tl_height < self.tlb_height {
                self.tlb_height
            } else {
                s.tl_height + 1
            },
            None => self.tlb_height,
        };
        let ev = TimelineBuilderEvent {
            tbe_wall_start: *start,
            tbe_duration: *duration,
            tbe_label: label.to_owned(),
            tbe_timeline: subtimeline,
        };
        let ghost before = self.tlb_events@;
        self.tlb_events.insert(k, ev);
        self.tlb_height = new_height;
        proof {
            let after = self.tlb_events@;
            assert forall|i: int, j: int| 0 <= i <= j < after.len() implies after[i].tbe_wall_start.micros
                <= after[j].tbe_wall_start.micros by {
                if i < k {
                    assert(after[i] == before[i]);
                    if j < k {
                        assert(after[j] == before[j]);
                    } else if j > k {
                        assert(after[j] == before[j - 1]);
                    }
                } else if i == k {
                    if j > k {
                        assert(after[j] == before[j - 1]);
                        assert(before[k as int].tbe_wall_start.micros >= start.micros);
                    }
                } else {
                    assert(after[i] == before[i - 1]);
                    assert(after[j] == before[j - 1]);
                }
            }
            assert forall|i: int| 0 <= i < after.len() implies {
                let e = #[trigger] after[i];
                &&& span_ok(e.tbe_wall_start.micros as int, e.tbe_duration.micros as int)
                &&& match e.tbe_timeline {
                    Some(s) => s.tl_height < self.tlb_height && s.wf(),
                    None => true,
                }
            } by {
                if i < k {
                    assert(after[i] == before[i]);
                } else if i > k {
                    assert(after[i] == before[i - 1]);
                }
            }
        }
    }

    /// Adds `timeline` as one event spanning it, from its start to its end.
    pub fn add_timeline(&mut self, label: &str, timeline: Box<Timeline>)
        requires
            old(self).wf(),
            timeline.wf(),
            timeline.height_at() < u64::MAX,
            timeline.start_at() <= timeline.end_at(),
        ensures
            added(
                *old(self),
                *final(self),
                label@,
                timeline.start_at(),
                timeline.end_at() - timeline.start_at(),
                Some(timeline),
            ),
    {
        let start = timeline.tl_start;
        let elapsed = timeline.total_elapsed();
        self.add(label, &start, &elapsed, Some(timeline));
    }

    /// Adds an event of length `duration` that ends where the earliest event
    /// known so far starts (or at the end, when there is none).
    pub fn prepend(&mut self, label: &str, duration: &Duration)
        requires
            old(self).wf(),
            0 <= duration.micros,
            -TIME_LIMIT <= old(self).anchor() - duration.micros,
        ensures
            insert_index(old(self).pending(), old(self).anchor() - duration.micros) == 0,
            added(
                *old(self),
                *final(self),
                label@,
                old(self).anchor() - duration.micros,
                duration.micros as int,
                None,
            ),
    {
        let end_wall_time = if self.tlb_events.len() == 0 {
            self.tlb_end
        } else {
            self.tlb_events[0].tbe_wall_start
        };
        let start = Timestamp { micros: end_wall_time.micros - duration.micros };
        proof {
            lemma_insert_index(self.tlb_events@, start.micros as int, 0);
        }
        self.add(label, &start, duration, None);
    }

    /// Freezes the events into a timeline, consuming the builder.
    pub fn finish(self) -> (r: Timeline)
        requires
            self.wf(),
        ensures
            finished(self, r),
    {
        let ghost b = self;
        let TimelineBuilder { tlb_events, tlb_end, tlb_height } = self;
        let mut pending = tlb_events;
        if pending.len() == 0 {
            return Timeline {
                tl_events: Vec::new(),
                tl_end: tlb_end,
                tl_start: tlb_end,
                tl_height: tlb_height,
            };
        }
        let basetime = pending[0].tbe_wall_start;
        let n = pending.len();
        let mut events: Vec<TimelineEvent> = Vec::new();
        let mut i: usize = 0;
        while i < n
            invariant
                b.wf(),
                i <= n,
                n == b.tlb_events@.len(),
                n > 0,
                basetime == b.tlb_events@[0].tbe_wall_start,
                pending@ == b.tlb_events@.subrange(i as int, n as int),
                events@.len() == i,
                forall|j: int|
                    0 <= j < i ==> {
                        let e = #[trigger] events@[j];
                        let p = b.tlb_events@[j];
                        &&& e.te_wall_start == p.tbe_wall_start
                        &&& e.te_duration == p.tbe_duration
                        &&& e.te_label@ == p.tbe_label@
                        &&& e.te_timeline == p.tbe_timeline
                        &&& e.te_relative_start.micros == e.te_wall_start.micros - basetime.micros
                    },
            decreases n - i,
        {
            let be = pending.remove(0);
            assert(be == b.tlb_events@[i as int]);
            assert(b.tlb_events@[0].tbe_wall_start.micros <= be.tbe_wall_start.micros);
            let rel = Duration { micros: be.tbe_wall_start.micros - basetime.micros };
            let TimelineBuilderEvent { tbe_wall_start, tbe_duration, tbe_label, tbe_timeline } = be;
            events.push(
                TimelineEvent {
                    te_wall_start: tbe_wall_start,
                    te_relative_start: rel,
                    te_duration: tbe_duration,
                    te_label: tbe_label,
                    te_timeline: tbe_timeline,
                },
            );
            proof {
                assert(pending@ =~= b.tlb_events@.subrange(i + 1, n as int));
            }
            i = i + 1;
        }
        let r = Timeline {
            tl_events: events,
            tl_end: tlb_end,
            tl_start: basetime,
            tl_height: tlb_height,
        };
        proof {
            assert(r.tl_events@[0].te_wall_start == basetime);
            assert forall|i: int, j: int| 0 <= i <= j < r.tl_events@.len() implies r.tl_events@[i].te_wall_start.micros
                <= r.tl_events@[j].te_wall_start.micros by {
                assert(r.tl_events@[i].te_wall_start == b.tlb_events@[i].tbe_wall_start);
                assert(r.tl_events@[j].te_wall_start == b.tlb_events@[j].tbe_wall_start);
            }
            assert forall|i: int| 0 <= i < r.tl_events@.len() implies {
                let e = #[trigger] r.tl_events@[i];
                &&& span_ok(e.te_wall_start.micros as int, e.te_duration.micros as int)
                &&& e.te_relative_start.micros == e.te_wall_start.micros - r.tl_start.micros
                &&& match e.te_timeline {
                    Some(s) => s.tl_height < r.tl_height && s.wf(),
                    None => true,
                }
            } by {
                let p = b.tlb_events@[i];
                assert(span_ok(p.tbe_wall_start.micros as int, p.tbe_duration.micros as int));
            }
        }
        r
    }
}

/// The place at which an event goes lies within the sequence.
pub proof fn lemma_insert_index_bounds(s: Seq<TimelineBuilderEvent>, t: int)
    ensures
        0 <= insert_index(s, t) <= s.len(),
    decreases s.len(),
{
    if s.len() > 0 {
        lemma_insert_index_bounds(s.drop_first(), t);
    }
}

/// In a finished timeline each event starts no later than the next one.
pub proof fn lemma_chronological(tl: &Timeline, i: int)
    requires
        tl.wf(),
        0 <= i,
        i + 1 < tl.events_seq().len(),
    ensures
        tl.events_seq()[i].start_at() <= tl.events_seq()[i + 1].start_at(),
{
}

/// In a finished timeline each event's relative start is its distance from
/// the start of the timeline, and the timeline starts with its earliest event,
/// or at its end when it has none.
pub proof fn lemma_relative_starts(tl: &Timeline)
    requires
        tl.wf(),
    ensures
        forall|i: int|
            0 <= i < tl.events_seq().len() ==> #[trigger] tl.events_seq()[i].relative_at()
                == tl.events_seq()[i].start_at() - tl.start_at(),
        tl.events_seq().len() > 0 ==> tl.start_at() == tl.events_seq()[0].start_at(),
        tl.events_seq().len() == 0 ==> tl.start_at() == tl.end_at(),
{
    assert forall|i: int| 0 <= i < tl.events_seq().len() implies #[trigger] tl.events_seq()[i].relative_at()
        == tl.events_seq()[i].start_at() - tl.start_at() by {
        let e = tl.tl_events@[i];
        assert(e.te_relative_start.micros == e.te_wall_start.micros - tl.tl_start.micros);
    }
}

/// A prepended event goes in front of all the others and ends where the
/// earliest event known before it started (or at the end, when there was
/// none), so that the new earliest time is earlier by its duration.
pub proof fn lemma_prepend_goes_first(
    before: TimelineBuilder,
    after: TimelineBuilder,
    label: Seq<char>,
    duration: int,
)
    requires
        before.wf(),
        0 <= duration,
        added(before, after, label, before.anchor() - duration, duration, None),
    ensures
        after.pending() == seq![after.pending()[0]] + before.pending(),
        after.pending()[0].start_at() + after.pending()[0].length() == before.anchor(),
        after.pending()[0].text() == label,
        after.anchor() == before.anchor() - duration,
{
    lemma_insert_index(before.tlb_events@, before.anchor() - duration, 0);
    assert(after.pending() =~= seq![after.pending()[0]] + before.pending());
}

/// A timeline attached with `add_timeline` comes back from `finish` unchanged,
/// as the subtimeline of an event that starts where it starts and lasts its
/// total elapsed time.
pub proof fn lemma_subtimeline_round_trip(
    b0: TimelineBuilder,
    b1: TimelineBuilder,
    label: Seq<char>,
    sub: Box<Timeline>,
    tl: Timeline,
)
    requires
        b0.wf(),
        sub.wf(),
        added(b0, b1, label, sub.start_at(), sub.end_at() - sub.start_at(), Some(sub)),
        finished(b1, tl),
    ensures
        ({
            let k = insert_index(b0.pending(), sub.start_at());
            &&& 0 <= k < tl.events_seq().len()
            &&& tl.events_seq()[k].start_at() == sub.start_at()
            &&& tl.events_seq()[k].length() == sub.end_at() - sub.start_at()
            &&& tl.events_seq()[k].text() == label
            &&& tl.events_seq()[k].nested() == Some(sub)
        }),
{
    lemma_insert_index_bounds(b0.pending(), sub.start_at());
    let k = insert_index(b0.pending(), sub.start_at());
    assert(b1.tlb_events@.len() == b0.tlb_events@.len() + 1);
    assert(tl.tl_events@[k].te_wall_start == b1.tlb_events@[k].tbe_wall_start);
}

/// Finishing a builder with no events gives a timeline with no events that
/// starts at its end, so that no time elapses in it.
pub proof fn lemma_empty_timeline(b: TimelineBuilder, tl: Timeline)
    requires
        b.wf(),
        b.pending().len() == 0,
        finished(b, tl),
    ensures
        tl.events_seq().len() == 0,
        tl.start_at() == tl.end_at(),
        tl.end_at() == b.end_at(),
        tl.end_at() - tl.start_at() == 0,
{
}

} // verus!
