//! Depth-aware rendering of a finished timeline into lines, with optional
//! suppression of short events.

use vstd::prelude::*;
use crate::time::{Duration, Timestamp, SPAN_LIMIT};
use crate::timeline::Timeline;

verus! {

/// One line of a rendered timeline. Offsets are measured from the start of
/// the outermost timeline; relative starts from the start of the timeline
/// that holds the event.
#[derive(Clone, Debug)]
pub enum RenderLine {
    /// An event without a subtimeline.
    Event {
        wall_start: Timestamp,
        offset: i128,
        relative: Duration,
        duration: Duration,
        label: String,
        depth: u64,
    },
    /// The start of an event that summarizes a subtimeline, whose lines follow.
    Open {
        wall_start: Timestamp,
        offset: i128,
        relative: Duration,
        duration: Duration,
        label: String,
        depth: u64,
    },
    /// The end of an event that summarizes a subtimeline.
    Close { wall_end: Timestamp, offset: i128, duration: Duration, depth: u64 },
}

/// What a `RenderLine` says, in mathematical terms.
pub enum LineView {
    Event { wall_start: int, offset: int, relative: int, duration: int, label: Seq<char>, depth: int },
    Open {
        wall_start: int,
        offset: int,
        relative: int,
        duration: int,
        label: Seq<char>,
        depth: int,
    },
    Close { wall_end: int, offset: int, duration: int, depth: int },
}

impl View for RenderLine {
    type V = LineView;

    open spec fn view(&self) -> LineView {
        match self {
            RenderLine::Event { wall_start, offset, relative, duration, label, depth } => LineView::Event {
                wall_start: wall_start.micros as int,
                offset: *offset as int,
                relative: relative.micros as int,
                duration: duration.micros as int,
                label: label@,
                depth: *depth as int,
            },
            RenderLine::Open { wall_start, offset, relative, duration, label, depth } => LineView::Open {
                wall_start: wall_start.micros as int,
                offset: *offset as int,
                relative: relative.micros as int,
                duration: duration.micros as int,
                label: label@,
                depth: *depth as int,
            },
            RenderLine::Close { wall_end, offset, duration, depth } => LineView::Close {
                wall_end: wall_end.micros as int,
                offset: *offset as int,
                duration: duration.micros as int,
                depth: *depth as int,
            },
        }
    }
}

pub open spec fn views(s: Seq<RenderLine>) -> Seq<LineView> {
    s.map_values(|l: RenderLine| l@)
}

/// An event of the given duration is left out under the filter `min`: it is
/// shorter than the minimum, and not an instantaneous milestone.
pub open spec fn suppressed(min: Option<Duration>, duration: int) -> bool {
    match min {
        Some(m) => duration != 0 && duration < m.micros,
        None => false,
    }
}

/// The lines for the first `n` events of `tl`, rendered at `depth` with
/// offsets from `base`, and the number of events left out on the way
/// (including those left out inside subtimelines).
pub open(crate) spec fn render_prefix(
    tl: Timeline,
    n: int,
    base: int,
    min: Option<Duration>,
    depth: int,
) -> (Seq<LineView>, nat)
    decreases tl, n,
{
    if n <= 0 || n > tl.tl_events@.len() {
        (Seq::empty(), 0)
    } else {
        let (lines, skipped) = render_prefix(tl, n - 1, base, min, depth);
        let e = tl.tl_events@[n - 1];
        let start = e.te_wall_start.micros as int;
        let rel = e.te_relative_start.micros as int;
        let dur = e.te_duration.micros as int;
        if suppressed(min, dur) {
            (lines, skipped + 1)
        } else {
            match e.te_timeline {
                None => (
                    lines.push(
                        LineView::Event {
                            wall_start: start,
                            offset: base + rel,
                            relative: rel,
                            duration: dur,
                            label: e.te_label@,
                            depth,
                        },
                    ),
                    skipped,
                ),
                Some(s) => {
                    let (inner, inner_skipped) = render_prefix(
                        *s,
                        s.tl_events@.len() as int,
                        base + rel,
                        min,
                        depth + 1,
                    );
                    (
                        lines.push(
                            LineView::Open {
                                wall_start: start,
                                offset: base + rel,
                                relative: rel,
                                duration: dur,
                                label: e.te_label@,
                                depth,
                            },
                        ) + inner.push(
                            LineView::Close {
                                wall_end: start + dur,
                                offset: base + rel + dur,
                                duration: dur,
                                depth,
                            },
                        ),
                        skipped + inner_skipped,
                    )
                },
            }
        }
    }
}

/// The lines of the whole timeline `tl` and the number of events left out.
pub open(crate) spec fn render_spec(tl: Timeline, base: int, min: Option<Duration>, depth: int) -> (
    Seq<LineView>,
    nat,
) {
    render_prefix(tl, tl.tl_events@.len() as int, base, min, depth)
}

/// A count that stops at the largest `u64`.
pub open spec fn capped(n: nat) -> int {
    if n < u64::MAX {
        n as int
    } else {
        u64::MAX as int
    }
}

/// Renders the events of `timeline` onto `out`, in stored order: a line for
/// each event, or for an event with a subtimeline an opening line, the
/// subtimeline's lines one level deeper with offsets from this event's own,
/// and a closing line at its end. Events that `min_duration` suppresses get
/// no line (nor do their subtimelines); the result counts them, here and in
/// the subtimelines reached, stopping at the largest `u64`.
pub fn render(
    timeline: &Timeline,
    base: i128,
    min_duration: Option<Duration>,
    depth: u64,
    out: &mut Vec<RenderLine>,
) -> (skipped: u64)
    requires
        timeline.wf(),
        depth + timeline.height_at() <= u64::MAX,
        -(depth * SPAN_LIMIT) <= base <= depth * SPAN_LIMIT,
    ensures
        views(final(out)@) == views(old(out)@) + render_spec(
            *timeline,
            base as int,
            min_duration,
            depth as int,
        ).0,
        skipped == capped(render_spec(*timeline, base as int, min_duration, depth as int).1),
    decreases timeline.height_at(),
{
    let ghost start = views(out@);
    let n = timeline.tl_events.len();
    let mut skipped: u64 = 0;
    let mut i: usize = 0;
    while i < n
        invariant
            timeline.wf(),
            depth + timeline.height_at() <= u64::MAX,
            -(depth * SPAN_LIMIT) <= base <= depth * SPAN_LIMIT,
            n == timeline.tl_events@.len(),
            i <= n,
            views(out@) == start + render_prefix(
                *timeline,
                i as int,
                base as int,
                min_duration,
                depth as int,
            ).0,
            skipped == capped(
                render_prefix(*timeline, i as int, base as int, min_duration, depth as int).1,
            ),
        decreases n - i,
    {
        let event = &timeline.tl_events[i];
        let ghost before = views(out@);
        assert(timeline.tl_events@[0].te_wall_start.micros <= event.te_wall_start.micros);
        let dur = event.te_duration;
        let is_suppressed = match min_duration {
            Some(m) => dur.micros != 0 && dur.micros < m.micros,
            None => false,
        };
        if is_suppressed {
            if skipped < u64::MAX {
                skipped = skipped + 1;
            }
        } else {
            let offset = base + event.te_relative_start.micros as i128;
            match &event.te_timeline {
                None => {
                    out.push(
                        RenderLine::Event {
                            wall_start: event.te_wall_start,
                            offset,
                            relative: event.te_relative_start,
                            duration: dur,
                            label: event.te_label.clone(),
                            depth,
                        },
                    );
                    proof {
                        assert(views(out@) =~= before.push(out@.last()@));
                    }
                },
                Some(sub) => {
                    out.push(
                        RenderLine::Open {
                            wall_start: event.te_wall_start,
                            offset,
                            relative: event.te_relative_start,
                            duration: dur,
                            label: event.te_label.clone(),
                            depth,
                        },
                    );
                    let ghost opened = views(out@);
                    proof {
                        assert(opened =~= before.push(out@.last()@));
                    }
                    let inner = render(sub, offset, min_duration, depth + 1, out);
                    let ghost filled = views(out@);
                    out.push(
                        RenderLine::Close {
                            wall_end: Timestamp { micros: event.te_wall_start.micros + dur.micros },
                            offset: offset + dur.micros as i128,
                            duration: dur,
                            depth,
                        },
                    );
                    proof {
                        assert(views(out@) =~= filled.push(out@.last()@));
                    }
                    if inner <= u64::MAX - skipped {
                        skipped = skipped + inner;
                    } else {
                        skipped = u64::MAX;
                    }
                },
            }
        }
        proof {
            let (l0, s0) = render_prefix(*timeline, i as int, base as int, min_duration, depth as int);
            let (l1, s1) = render_prefix(*timeline, i + 1, base as int, min_duration, depth as int);
            assert(views(out@) =~= start + l1);
        }
        i = i + 1;
    }
    skipped
}

/// Durations of the events that the lines show (one per event line and per
/// opening line), in order.
pub open spec fn shown_durations(lines: Seq<LineView>) -> Seq<int>
    decreases lines.len(),
{
    if lines.len() == 0 {
        Seq::empty()
    } else {
        let rest = shown_durations(lines.drop_last());
        match lines.last() {
            LineView::Event { duration, .. } => rest.push(duration),
            LineView::Open { duration, .. } => rest.push(duration),
            LineView::Close { .. } => rest,
        }
    }
}

/// Durations of the events that rendering reaches among the first `n` events
/// of `tl`, in order: each of those events, and inside the subtimeline of each
/// one that is not suppressed, the events reached there.
pub open(crate) spec fn reached_durations(tl: Timeline, n: int, min: Option<Duration>) -> Seq<int>
    decreases tl, n,
{
    if n <= 0 || n > tl.tl_events@.len() {
        Seq::empty()
    } else {
        let rest = reached_durations(tl, n - 1, min);
        let e = tl.tl_events@[n - 1];
        let dur = e.te_duration.micros as int;
        if suppressed(min, dur) {
            rest.push(dur)
        } else {
            match e.te_timeline {
                None => rest.push(dur),
                Some(s) => rest.push(dur) + reached_durations(*s, s.tl_events@.len() as int, min),
            }
        }
    }
}

/// The durations of `ds` that `min` does not suppress, in order.
pub open spec fn kept_durations(ds: Seq<int>, min: Option<Duration>) -> Seq<int>
    decreases ds.len(),
{
    if ds.len() == 0 {
        Seq::empty()
    } else {
        let rest = kept_durations(ds.drop_last(), min);
        if suppressed(min, ds.last()) {
            rest
        } else {
            rest.push(ds.last())
        }
    }
}

/// How many durations of `ds` `min` suppresses.
pub open spec fn suppressed_count(ds: Seq<int>, min: Option<Duration>) -> nat
    decreases ds.len(),
{
    if ds.len() == 0 {
        0
    } else {
        suppressed_count(ds.drop_last(), min) + if suppressed(min, ds.last()) {
            1nat
        } else {
            0nat
        }
    }
}

proof fn lemma_shown_concat(a: Seq<LineView>, b: Seq<LineView>)
    ensures
        shown_durations(a + b) == shown_durations(a) + shown_durations(b),
    decreases b.len(),
{
    if b.len() == 0 {
        assert(a + b =~= a);
        assert(shown_durations(a) + shown_durations(b) =~= shown_durations(a));
    } else {
        lemma_shown_concat(a, b.drop_last());
        assert((a + b).drop_last() =~= a + b.drop_last());
        assert((a + b).last() == b.last());
        let sa = shown_durations(a);
        let sb = shown_durations(b.drop_last());
        match b.last() {
            LineView::Close { .. } => {},
            LineView::Event { duration, .. } => {
                assert(sa + sb.push(duration) =~= (sa + sb).push(duration));
            },
            LineView::Open { duration, .. } => {
                assert(sa + sb.push(duration) =~= (sa + sb).push(duration));
            },
        }
    }
}

proof fn lemma_filter_concat(a: Seq<int>, b: Seq<int>, min: Option<Duration>)
    ensures
        kept_durations(a + b, min) == kept_durations(a, min) + kept_durations(b, min),
        suppressed_count(a + b, min) == suppressed_count(a, min) + suppressed_count(b, min),
    decreases b.len(),
{
    if b.len() == 0 {
        assert(a + b =~= a);
        assert(kept_durations(a, min) + kept_durations(b, min) =~= kept_durations(a, min));
    } else {
        lemma_filter_concat(a, b.drop_last(), min);
        assert((a + b).drop_last() =~= a + b.drop_last());
        assert((a + b).last() == b.last());
        let ka = kept_durations(a, min);
        let kb = kept_durations(b.drop_last(), min);
        assert(ka + kb.push(b.last()) =~= (ka + kb).push(b.last()));
    }
}

/// Rendering suppresses exactly the events that the filter names: the lines
/// show, in order, the reached events that are not suppressed (so every
/// instantaneous event is shown, whatever the filter), and the number of
/// events left out is the number of reached events that are suppressed.
pub proof fn lemma_suppression_exact(
    tl: Timeline,
    base: int,
    min: Option<Duration>,
    depth: int,
)
    ensures
        shown_durations(render_spec(tl, base, min, depth).0) == kept_durations(
            reached_durations(tl, tl.events_seq().len() as int, min),
            min,
        ),
        render_spec(tl, base, min, depth).1 == suppressed_count(
            reached_durations(tl, tl.events_seq().len() as int, min),
            min,
        ),
{
    lemma_suppression_prefix(tl, tl.tl_events@.len() as int, base, min, depth);
}

proof fn lemma_suppression_prefix(tl: Timeline, n: int, base: int, min: Option<Duration>, depth: int)
    ensures
        shown_durations(render_prefix(tl, n, base, min, depth).0) == kept_durations(
            reached_durations(tl, n, min),
            min,
        ),
        render_prefix(tl, n, base, min, depth).1 == suppressed_count(
            reached_durations(tl, n, min),
            min,
        ),
    decreases tl, n,
{
    if n <= 0 || n > tl.tl_events@.len() {
    } else {
        lemma_suppression_prefix(tl, n - 1, base, min, depth);
        let (lines, skipped) = render_prefix(tl, n - 1, base, min, depth);
        let rest = reached_durations(tl, n - 1, min);
        let e = tl.tl_events@[n - 1];
        let rel = e.te_relative_start.micros as int;
        let dur = e.te_duration.micros as int;
        assert(rest.push(dur).drop_last() =~= rest);
        if suppressed(min, dur) {
        } else {
            match e.te_timeline {
                None => {
                    let l = render_prefix(tl, n, base, min, depth).0;
                    assert(l.drop_last() =~= lines);
                },
                Some(s) => {
                    lemma_suppression_prefix(*s, s.tl_events@.len() as int, base + rel, min, depth + 1);
                    let (inner, _) = render_prefix(*s, s.tl_events@.len() as int, base + rel, min, depth + 1);
                    let sub_reached = reached_durations(*s, s.tl_events@.len() as int, min);
                    let open = LineView::Open {
                        wall_start: e.te_wall_start.micros as int,
                        offset: base + rel,
                        relative: rel,
                        duration: dur,
                        label: e.te_label@,
                        depth,
                    };
                    let close = LineView::Close {
                        wall_end: e.te_wall_start.micros + dur,
                        offset: base + rel + dur,
                        duration: dur,
                        depth,
                    };
                    lemma_shown_concat(lines.push(open), inner.push(close));
                    assert(lines.push(open).drop_last() =~= lines);
                    assert(inner.push(close).drop_last() =~= inner);
                    lemma_filter_concat(rest.push(dur), sub_reached, min);
                },
            }
        }
    }
}

} // verus!
