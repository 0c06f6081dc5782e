use bubbletea_widgets::stopwatch::{new, new_with_interval, Msg, ResetMsg, StartStopMsg, TickMsg};
use bubbletea_widgets::time::Duration;

#[test]
fn stopwatch_test_new_defaults() {
    let sw = new();
    assert_eq!(sw.elapsed(), Duration::zero());
    assert!(!sw.running());
    assert!(sw.id() > 0);
    assert_eq!(sw.interval, Duration::from_secs(1));
}

#[test]
fn test_start_stop_toggle_reset_cmds() {
    let sw = new();
    std::mem::drop(sw.start());
    std::mem::drop(sw.stop());
    std::mem::drop(sw.toggle());
    std::mem::drop(sw.reset());
}

#[test]
fn test_update_flow() {
    let mut sw = new_with_interval(Duration::from_millis(10));

    let start = StartStopMsg::new(sw.id(), true);
    let next = sw.update(Msg::StartStop(start));
    assert!(next.is_some());
    assert!(sw.running());

    let before = sw.elapsed();
    let tick = TickMsg::new(sw.id(), sw.tag());
    let _ = sw.update(Msg::Tick(tick));
    assert!(sw.elapsed().as_nanos() > before.as_nanos());

    let _ = sw.update(Msg::Reset(ResetMsg { id: sw.id() }));
    assert_eq!(sw.elapsed(), Duration::zero());
}

#[test]
fn stopwatch_tick_adds_one_interval() {
    let mut sw = new_with_interval(Duration::from_millis(10));
    let _ = sw.update(Msg::StartStop(StartStopMsg::new(sw.id(), true)));
    let _ = sw.update(Msg::Tick(TickMsg::new(sw.id(), sw.tag())));
    let _ = sw.update(Msg::Tick(TickMsg::new(sw.id(), sw.tag())));
    assert_eq!(sw.elapsed(), Duration::from_millis(20));
}

#[test]
fn stopwatch_ignores_other_ids_and_stale_tags() {
    let mut sw = new_with_interval(Duration::from_millis(10));
    let _ = sw.update(Msg::StartStop(StartStopMsg::new(sw.id(), true)));
    let _ = sw.update(Msg::Tick(TickMsg::new(sw.id(), sw.tag())));
    let stale = TickMsg::new(sw.id(), sw.tag());
    let _ = sw.update(Msg::Tick(stale));
    assert!(sw.update(Msg::Tick(stale)).is_none());
    assert!(sw.update(Msg::Tick(TickMsg::new(sw.id() + 1, sw.tag()))).is_none());
    assert_eq!(sw.elapsed(), Duration::from_millis(20));
}

#[test]
fn stopwatch_stopped_does_not_count() {
    let mut sw = new_with_interval(Duration::from_millis(10));
    assert!(sw.update(Msg::Tick(TickMsg::new(sw.id(), sw.tag()))).is_none());
    assert_eq!(sw.elapsed(), Duration::zero());
}

#[test]
fn stopwatch_stopping_schedules_nothing() {
    let mut sw = new_with_interval(Duration::from_millis(10));
    assert!(sw.update(Msg::StartStop(StartStopMsg::new(sw.id(), true))).is_some());
    let _ = sw.update(Msg::Tick(TickMsg::new(sw.id(), sw.tag())));
    let elapsed = sw.elapsed();
    assert!(sw.update(Msg::StartStop(StartStopMsg::new(sw.id(), false))).is_none());
    assert!(!sw.running());
    assert_eq!(sw.elapsed(), elapsed);
}

#[test]
fn stopwatch_reset_message_built_by_new() {
    let mut sw = new_with_interval(Duration::from_millis(10));
    let _ = sw.update(Msg::StartStop(StartStopMsg::new(sw.id(), true)));
    let _ = sw.update(Msg::Tick(TickMsg::new(sw.id(), sw.tag())));
    assert!(sw.update(Msg::Reset(ResetMsg::new(sw.id() + 1))).is_none());
    assert!(sw.elapsed().as_nanos() > 0);
    assert!(sw.update(Msg::Reset(ResetMsg::new(sw.id()))).is_none());
    assert_eq!(sw.elapsed(), Duration::zero());
    assert!(sw.running());
}
