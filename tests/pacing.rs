use poprustica::{FrameScheduler, GameLoop, LoopActions, LoopEvent, SurfaceConfig, NANOS_PER_SEC};

fn config(width: u32, height: u32) -> SurfaceConfig {
    SurfaceConfig { format: 0, present_mode: 0, alpha_mode: 0, width, height, frame_latency: 2 }
}

#[test]
fn interval_for_rate_divides_a_second() {
    assert_eq!(FrameScheduler::interval_for_rate(60), Some(16_666_666));
    assert_eq!(FrameScheduler::interval_for_rate(1), Some(NANOS_PER_SEC));
    assert_eq!(FrameScheduler::interval_for_rate(0), None);
    assert_eq!(FrameScheduler::interval_for_rate(2_000_000_000), None);
}

#[test]
fn cadence_counts_whole_intervals_under_dense_stimuli() {
    let mut s = FrameScheduler::new(10, 1000, 0);
    let mut redraws = 0;
    let mut previous = s.last_render_at;
    let mut now = 5;
    while now <= 103 {
        let d = s.on_stimulus(now);
        if d.redraw {
            redraws += 1;
            assert_eq!(s.last_render_at, previous + 10);
            previous = s.last_render_at;
        } else {
            assert_eq!(s.last_render_at, previous);
        }
        now += 7;
    }
    // The last stimulus came at 103: ten whole intervals after the start.
    assert_eq!(redraws, 10);
    assert_eq!(s.last_render_at, 100);
}

#[test]
fn cadence_advances_by_interval_not_to_now() {
    let mut s = FrameScheduler::new(10, 10, 0);
    let d = s.on_stimulus(13);
    assert!(d.redraw && d.tick);
    assert_eq!(s.last_render_at, 10);
    assert_eq!(s.last_tick_at, 10);
    assert_eq!(d.deadline, 20);
    let d = s.on_stimulus(19);
    assert!(!d.redraw);
    assert_eq!(d.deadline, 20);
    let d = s.on_stimulus(20);
    assert!(d.redraw);
    assert_eq!(s.last_render_at, 20);
}

#[test]
fn sparse_stimuli_fire_once_each() {
    // One stimulus after ten intervals signals one redraw, not ten.
    let mut s = FrameScheduler::new(10, 10, 0);
    let d = s.on_stimulus(100);
    assert!(d.redraw);
    assert_eq!(s.last_render_at, 10);
    assert_eq!(d.deadline, 20);
}

#[test]
fn cadences_are_independent() {
    let mut s = FrameScheduler::new(10, 25, 0);
    let d = s.on_stimulus(10);
    assert!(d.redraw && !d.tick);
    assert_eq!(d.deadline, 20);
    let d = s.on_stimulus(25);
    assert!(d.redraw && d.tick);
    assert_eq!(s.last_render_at, 20);
    assert_eq!(s.last_tick_at, 25);
    assert_eq!(d.deadline, 30);
    assert_eq!(s.next_deadline(), 30);
}

#[test]
fn deadline_never_moves_back_and_stays_ahead() {
    let mut s = FrameScheduler::new(16, 50, 1000);
    let mut last_deadline = s.next_deadline();
    let mut now = 1000;
    while now < 2000 {
        let d = s.on_stimulus(now);
        assert!(d.deadline >= last_deadline);
        assert!(d.deadline > now);
        last_deadline = d.deadline;
        now += 9;
    }
}

#[test]
fn game_loop_new_checks_rates() {
    assert!(GameLoop::new(0, 20, 0, config(800, 600)).is_none());
    assert!(GameLoop::new(60, 0, 0, config(800, 600)).is_none());
    assert!(GameLoop::new(60, 20, u64::MAX, config(800, 600)).is_none());
    let l = GameLoop::new(60, 20, 5, config(800, 600)).unwrap();
    assert_eq!(l.scheduler.render_interval, 16_666_666);
    assert_eq!(l.scheduler.tick_interval, 50_000_000);
    assert_eq!(l.scheduler.last_render_at, 5);
    assert!(!l.exited);
}

#[test]
fn game_loop_requests_redraw_when_due_and_renders_on_delivery() {
    let mut l = GameLoop::new(100, 10, 0, config(800, 600)).unwrap();
    let a = l.run(LoopEvent::Wake, 5_000_000);
    assert!(!a.request_redraw && !a.render);
    assert_eq!(a.wait_until, 10_000_000);
    let a = l.run(LoopEvent::Wake, 10_000_000);
    assert!(a.request_redraw && !a.tick && !a.render);
    assert_eq!(a.wait_until, 20_000_000);
    let a = l.run(LoopEvent::RedrawRequested, 10_500_000);
    assert!(a.render && !a.request_redraw);
    assert_eq!(a.reconfigure, None);
}

#[test]
fn game_loop_reconfigures_on_resize() {
    let mut l = GameLoop::new(60, 20, 0, config(800, 600)).unwrap();
    let a = l.run(LoopEvent::Resized { width: 1024, height: 768 }, 1);
    assert_eq!(a.reconfigure, Some(config(1024, 768)));
    assert_eq!(l.surface.active_size(), (1024, 768));
    let a = l.run(LoopEvent::RedrawRequested, 2);
    assert!(a.render);
}

#[test]
fn game_loop_ends_on_close() {
    let mut l = GameLoop::new(60, 20, 0, config(800, 600)).unwrap();
    let a = l.run(LoopEvent::CloseRequested, 1);
    assert!(a.exit);
    assert!(l.exited);
    let a = l.run(LoopEvent::RedrawRequested, 100_000_000);
    assert_eq!(
        a,
        LoopActions {
            request_redraw: false,
            tick: false,
            reconfigure: None,
            render: false,
            exit: true,
            wait_until: 16_666_666,
        }
    );
}

#[test]
fn game_loop_ignores_other_events_but_paces() {
    let mut l = GameLoop::new(10, 10, 0, config(800, 600)).unwrap();
    let a = l.run(LoopEvent::Other, 100_000_000);
    assert!(a.request_redraw && a.tick && !a.render && !a.exit);
    assert_eq!(a.reconfigure, None);
}

#[test]
fn host_waking_at_deadlines_keeps_exact_cadence() {
    let mut s = FrameScheduler::new(16, 40, 0);
    let mut now = 0;
    let mut last_stimulus = 0;
    let mut redraws = 0;
    for _ in 0..100 {
        last_stimulus = now;
        let d = s.on_stimulus(now);
        if d.redraw {
            redraws += 1;
        }
        now = d.deadline;
    }
    assert_eq!(redraws, last_stimulus / 16);
    assert_eq!(s.last_render_at, redraws * 16);
}

#[test]
fn host_waking_late_by_less_than_an_interval_keeps_exact_cadence() {
    let mut s = FrameScheduler::new(16, 40, 0);
    let mut now = 0;
    let mut last_stimulus = 0;
    let mut redraws = 0;
    for step in 0..200 {
        last_stimulus = now;
        let d = s.on_stimulus(now);
        if d.redraw {
            redraws += 1;
        }
        now = d.deadline + (step * 7) % 16;
    }
    assert_eq!(redraws, last_stimulus / 16);
    assert_eq!(s.last_render_at, redraws * 16);
}
