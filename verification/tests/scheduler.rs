use arcaders::clock::{FrameClock, Tick, FRAME_INTERVAL_MS};

#[test]
fn early_tick_waits_and_advances_nothing() {
    let mut clock = FrameClock::new(1000);
    let t = clock.tick(1010);
    assert_eq!(t, Tick::Wait { ms: 6 });
    // The "last tick" reference did not move: a frame at 1016 still
    // measures its elapsed time from 1000.
    let t2 = clock.tick(1016);
    assert_eq!(
        t2,
        Tick::Run { elapsed_ms: 16, fps_report: None }
    );
}

#[test]
fn tick_at_exactly_the_interval_runs() {
    let mut clock = FrameClock::new(0);
    let t = clock.tick(FRAME_INTERVAL_MS);
    assert_eq!(
        t,
        Tick::Run { elapsed_ms: FRAME_INTERVAL_MS, fps_report: None }
    );
}

#[test]
fn elapsed_is_measured_from_the_previous_frame() {
    let mut clock = FrameClock::new(0);
    assert!(matches!(clock.tick(20), Tick::Run { elapsed_ms: 20, .. }));
    assert!(matches!(clock.tick(57), Tick::Run { elapsed_ms: 37, .. }));
    assert!(matches!(clock.tick(60), Tick::Wait { ms: 13 }));
    assert!(matches!(clock.tick(90), Tick::Run { elapsed_ms: 33, .. }));
}

#[test]
fn report_counts_the_frames_of_the_last_second() {
    let mut clock = FrameClock::new(0);
    let mut now = 0u64;
    for _ in 0..10 {
        now += 50;
        assert!(matches!(clock.tick(now), Tick::Run { fps_report: None, .. }));
    }
    // now == 500; the eleventh frame crosses the 1001 ms mark.
    let t = clock.tick(1001);
    assert!(matches!(t, Tick::Run { fps_report: Some(11), .. }));
}

#[test]
fn counter_restarts_after_a_report() {
    let mut clock = FrameClock::new(0);
    assert!(matches!(clock.tick(600), Tick::Run { fps_report: None, .. }));
    assert!(matches!(clock.tick(1200), Tick::Run { fps_report: Some(2), .. }));
    // The window restarts at 1200.
    assert!(matches!(clock.tick(1800), Tick::Run { fps_report: None, .. }));
    assert!(matches!(clock.tick(2300), Tick::Run { fps_report: Some(2), .. }));
}
