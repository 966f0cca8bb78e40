use manta_mreq::{Duration, Timeline, TimelineBuilder, Timestamp};

const T_END: i64 = 1_704_067_210_000_000; // 2024-01-01T00:00:10.000Z

fn ts(micros: i64) -> Timestamp {
    Timestamp::from_micros(micros)
}

fn ms(millis: i64) -> Duration {
    Duration::milliseconds(millis)
}

fn summary(tl: &Timeline) -> Vec<(String, i64, i64, i64)> {
    tl.events()
        .iter()
        .map(|e| (e.label(), e.wall_start().micros, e.duration().micros, e.relative_start().micros))
        .collect()
}

#[test]
fn end_to_end_prepend_scenario() {
    let mut b = TimelineBuilder::new_ending(ts(T_END));
    b.prepend("created record", &ms(0));
    b.prepend("handler B", &ms(2000));
    b.prepend("handler A", &ms(3000));
    b.prepend("began processing", &ms(0));
    let tl = b.finish();
    let five = 1_704_067_205_000_000;
    let eight = 1_704_067_208_000_000;
    assert_eq!(
        summary(&tl),
        vec![
            ("began processing".to_string(), five, 0, 0),
            ("handler A".to_string(), five, 3_000_000, 0),
            ("handler B".to_string(), eight, 2_000_000, 3_000_000),
            ("created record".to_string(), T_END, 0, 5_000_000),
        ]
    );
    assert_eq!(tl.total_elapsed().num_milliseconds(), 5000);
}

#[test]
fn prepend_walks_backward_from_anchor() {
    let mut b = TimelineBuilder::new_ending(ts(T_END));
    b.prepend("a", &ms(5000));
    b.prepend("b", &ms(3000));
    let tl = b.finish();
    assert_eq!(
        summary(&tl),
        vec![
            ("b".to_string(), T_END - 8_000_000, 3_000_000, 0),
            ("a".to_string(), T_END - 5_000_000, 5_000_000, 3_000_000),
        ]
    );
}

#[test]
fn empty_timeline_starts_at_end() {
    let tl = TimelineBuilder::new_ending(ts(T_END)).finish();
    assert_eq!(tl.events().len(), 0);
    assert_eq!(tl.total_elapsed().micros, 0);
    assert_eq!(tl.height(), 0);
}

#[test]
fn add_keeps_chronological_order_and_relative_starts() {
    let mut b = TimelineBuilder::new_ending(ts(100_000));
    b.add("late", &ts(50_000), &Duration::microseconds(10), None);
    b.add("early", &ts(10_000), &Duration::microseconds(5), None);
    b.add("middle", &ts(30_000), &Duration::microseconds(0), None);
    let tl = b.finish();
    assert_eq!(
        summary(&tl),
        vec![
            ("early".to_string(), 10_000, 5, 0),
            ("middle".to_string(), 30_000, 0, 20_000),
            ("late".to_string(), 50_000, 10, 40_000),
        ]
    );
    let evs = tl.events();
    for i in 0..evs.len() - 1 {
        assert!(evs[i].wall_start().micros <= evs[i + 1].wall_start().micros);
    }
    assert_eq!(tl.total_elapsed().micros, 90_000);
}

#[test]
fn equal_start_goes_before_earlier_additions() {
    let mut b = TimelineBuilder::new_ending(ts(1_000));
    b.add("first added", &ts(500), &Duration::microseconds(0), None);
    b.add("second added", &ts(500), &Duration::microseconds(0), None);
    let tl = b.finish();
    let labels: Vec<String> = tl.events().iter().map(|e| e.label()).collect();
    assert_eq!(labels, vec!["second added".to_string(), "first added".to_string()]);
}

#[test]
fn subtimeline_round_trip() {
    let mut inner = TimelineBuilder::new_ending(ts(9_000));
    inner.prepend("x", &Duration::microseconds(1_000));
    inner.prepend("y", &Duration::microseconds(2_000));
    let inner = inner.finish();
    let inner_summary = summary(&inner);
    assert_eq!(inner.total_elapsed().micros, 3_000);

    let mut outer = TimelineBuilder::new_ending(ts(10_000));
    outer.add("before", &ts(1_000), &Duration::microseconds(0), None);
    outer.add_timeline("nested", Box::new(inner));
    let tl = outer.finish();
    assert_eq!(tl.height(), 1);
    let evs = tl.events();
    assert_eq!(evs.len(), 2);
    let e = &evs[1];
    assert_eq!(e.label(), "nested");
    assert_eq!(e.wall_start().micros, 6_000);
    assert_eq!(e.duration().micros, 3_000);
    assert_eq!(e.relative_start().micros, 5_000);
    assert_eq!(e.wall_end().micros, 9_000);
    let sub = e.subtimeline().expect("subtimeline");
    assert_eq!(summary(sub), inner_summary);
    assert!(evs[0].subtimeline().is_none());
}

#[test]
fn duration_milliseconds_round_toward_zero() {
    assert_eq!(Duration::microseconds(1_999).num_milliseconds(), 1);
    assert_eq!(Duration::microseconds(-1_999).num_milliseconds(), -1);
    assert_eq!(Duration::milliseconds(-3).micros, -3_000);
    assert!(Duration::microseconds(0).is_zero());
    assert!(!Duration::microseconds(1).is_zero());
}
