use manta_mreq::{render, Duration, RenderLine, Timeline, TimelineBuilder, Timestamp};

fn ts(micros: i64) -> Timestamp {
    Timestamp::from_micros(micros)
}

fn us(micros: i64) -> Duration {
    Duration::microseconds(micros)
}

/// Inner: "tiny" (500 us), "mark" (0 us), "long" (2000 us), ending at 10_000.
fn inner() -> Timeline {
    let mut b = TimelineBuilder::new_ending(ts(10_000));
    b.prepend("long", &us(2_000));
    b.prepend("mark", &us(0));
    b.prepend("tiny", &us(500));
    b.finish()
}

/// Outer: "start" at 1_000 (0 us), "short" at 2_000 (10 us), then the inner
/// timeline as "handlers" from 7_500 to 10_000.
fn outer() -> Timeline {
    let mut b = TimelineBuilder::new_ending(ts(10_000));
    b.add("start", &ts(1_000), &us(0), None);
    b.add("short", &ts(2_000), &us(10), None);
    b.add_timeline("handlers", Box::new(inner()));
    b.finish()
}

fn describe(l: &RenderLine) -> String {
    match l {
        RenderLine::Event { wall_start, offset, relative, duration, label, depth } => format!(
            "event {} {} {} {} {} {}",
            wall_start.micros, offset, relative.micros, duration.micros, label, depth
        ),
        RenderLine::Open { wall_start, offset, relative, duration, label, depth } => format!(
            "open {} {} {} {} {} {}",
            wall_start.micros, offset, relative.micros, duration.micros, label, depth
        ),
        RenderLine::Close { wall_end, offset, duration, depth } => {
            format!("close {} {} {} {}", wall_end.micros, offset, duration.micros, depth)
        }
    }
}

#[test]
fn render_without_filter_shows_everything_nested() {
    let tl = outer();
    let mut out = Vec::new();
    let skipped = render(&tl, 0, None, 0, &mut out);
    assert_eq!(skipped, 0);
    let lines: Vec<String> = out.iter().map(describe).collect();
    assert_eq!(
        lines,
        vec![
            "event 1000 0 0 0 start 0".to_string(),
            "event 2000 1000 1000 10 short 0".to_string(),
            "open 7500 6500 6500 2500 handlers 0".to_string(),
            "event 7500 6500 0 500 tiny 1".to_string(),
            "event 8000 7000 500 0 mark 1".to_string(),
            "event 8000 7000 500 2000 long 1".to_string(),
            "close 10000 9000 2500 0".to_string(),
        ]
    );
}

#[test]
fn render_filter_suppresses_short_events_and_counts_them() {
    let tl = outer();
    let mut out = Vec::new();
    let skipped = render(&tl, 0, Some(Duration::milliseconds(1)), 0, &mut out);
    // "short" (10 us) and "tiny" (500 us) are left out; the milestones stay.
    assert_eq!(skipped, 2);
    let lines: Vec<String> = out.iter().map(describe).collect();
    assert_eq!(
        lines,
        vec![
            "event 1000 0 0 0 start 0".to_string(),
            "open 7500 6500 6500 2500 handlers 0".to_string(),
            "event 8000 7000 500 0 mark 1".to_string(),
            "event 8000 7000 500 2000 long 1".to_string(),
            "close 10000 9000 2500 0".to_string(),
        ]
    );
}

#[test]
fn render_suppressed_subtimeline_counts_once() {
    let tl = outer();
    let mut out = Vec::new();
    let skipped = render(&tl, 0, Some(Duration::milliseconds(3)), 0, &mut out);
    // "short" and the whole "handlers" event (2500 us) are left out.
    assert_eq!(skipped, 2);
    assert_eq!(out.len(), 1);
}

#[test]
fn render_offsets_add_base_at_every_level() {
    let mut mid = TimelineBuilder::new_ending(ts(10_000));
    mid.add("pad", &ts(4_000), &us(0), None);
    mid.add_timeline("deep", Box::new(inner()));
    let mid = mid.finish();
    let mut top = TimelineBuilder::new_ending(ts(10_000));
    top.add("origin", &ts(0), &us(0), None);
    top.add_timeline("mid", Box::new(mid));
    let tl = top.finish();
    let mut out = Vec::new();
    let skipped = render(&tl, 0, None, 0, &mut out);
    assert_eq!(skipped, 0);
    let lines: Vec<String> = out.iter().map(describe).collect();
    assert_eq!(lines.len(), 9);
    assert_eq!(lines[1], "open 4000 4000 4000 6000 mid 0".to_string());
    assert_eq!(lines[3], "open 7500 7500 3500 2500 deep 1".to_string());
    assert_eq!(lines[4], "event 7500 7500 0 500 tiny 2".to_string());
    assert_eq!(lines[7], "close 10000 10000 2500 1".to_string());
    assert_eq!(lines[8], "close 10000 10000 6000 0".to_string());
}
