use flowtime::{CommandMsg, Delta, Resume, Time, Timer, TimerMode, TimerMsg};

fn hms(hour: u16, minutes: u16, second: u16) -> Time {
    Time { second, minutes, hour }
}

fn working(restart: bool, reset_save: bool, elapsed: u32) -> Timer {
    let mut t = Timer::new(restart, reset_save);
    t.update(TimerMsg::ToggleFlowTime);
    for _ in 0..elapsed {
        t.tick();
    }
    t
}

#[test]
fn start_from_stop_gives_zeroed_work_stage() {
    let mut t = Timer::new(false, false);
    t.time = hms(0, 0, 0);
    let e = t.update(TimerMsg::ToggleFlowTime);
    assert_eq!(t.mode, TimerMode::Clock);
    assert_eq!(t.time, hms(0, 0, 0));
    assert!(t.active);
    assert!(e.schedule_tick);
    assert_eq!(e.commit, None);
}

#[test]
fn pause_and_resume_keep_elapsed() {
    let mut t = working(false, false, 42);
    assert_eq!(t.time, hms(0, 0, 42));
    let e = t.update(TimerMsg::ToggleFlowTime);
    assert_eq!(t.mode, TimerMode::Pause(Resume::Clock));
    assert!(!e.schedule_tick);
    let e = t.tick();
    assert!(e.schedule_tick);
    assert_eq!(t.time, hms(0, 0, 42));
    t.update(TimerMsg::ToggleFlowTime);
    assert_eq!(t.mode, TimerMode::Clock);
    assert_eq!(t.time, hms(0, 0, 42));
}

#[test]
fn pause_and_resume_a_break() {
    let mut t = working(false, false, 50);
    t.update(TimerMsg::ToggleBreak);
    t.update(TimerMsg::ToggleFlowTime);
    assert_eq!(t.mode, TimerMode::Pause(Resume::CountDown));
    t.tick();
    assert_eq!(t.time, hms(0, 0, 10));
    t.update(TimerMsg::ToggleFlowTime);
    assert_eq!(t.mode, TimerMode::CountDown);
}

#[test]
fn break_is_a_fifth_of_work() {
    let mut t = working(false, false, 307);
    assert_eq!(t.time, hms(0, 5, 7));
    let e = t.update(TimerMsg::ToggleBreak);
    assert_eq!(t.mode, TimerMode::CountDown);
    assert_eq!(t.time, hms(0, 1, 1));
    assert_eq!(t.formatted_string(), "00:01:01");
    assert_eq!(e.commit, Some(Delta { break_seconds: 0, work_seconds: 307 }));
    assert!(!e.schedule_tick);
}

#[test]
fn break_from_stop_arms_the_ticks() {
    let mut t = Timer::new(false, false);
    let e = t.update(TimerMsg::ToggleBreak);
    assert_eq!(t.mode, TimerMode::CountDown);
    assert!(e.schedule_tick);
    assert!(t.active);
    assert_eq!(e.commit, Some(Delta { break_seconds: 0, work_seconds: 0 }));
}

#[test]
fn break_during_break_is_ignored() {
    let mut t = working(false, false, 20);
    t.update(TimerMsg::ToggleBreak);
    let e = t.update(TimerMsg::ToggleBreak);
    assert_eq!(t.mode, TimerMode::CountDown);
    assert_eq!(t.time, hms(0, 0, 4));
    assert_eq!(e.commit, None);
}

fn break_of_one_second(restart: bool) -> Timer {
    let mut t = working(restart, false, 5);
    t.update(TimerMsg::ToggleBreak);
    assert_eq!(t.time, hms(0, 0, 1));
    t
}

#[test]
fn break_end_with_restart() {
    let mut t = break_of_one_second(true);
    let e = t.tick();
    assert_eq!(t.time, hms(0, 0, 0));
    assert_eq!(t.mode, TimerMode::CountDown);
    assert!(!e.notify);
    assert_eq!(e.commit, None);
    let e = t.tick();
    assert!(e.notify);
    assert_eq!(e.commit, Some(Delta { break_seconds: 1, work_seconds: 0 }));
    assert_eq!(t.mode, TimerMode::Clock);
    assert_eq!(t.time, hms(0, 0, 0));
    assert!(e.schedule_tick);
    let e = t.tick();
    assert!(!e.notify);
    assert_eq!(t.time, hms(0, 0, 1));
}

#[test]
fn break_end_without_restart_stops_ticking() {
    let mut t = break_of_one_second(false);
    t.tick();
    let e = t.update_cmd(CommandMsg::Tick);
    assert!(e.notify);
    assert_eq!(e.commit, Some(Delta { break_seconds: 1, work_seconds: 0 }));
    assert_eq!(t.mode, TimerMode::Stop);
    assert!(!e.schedule_tick);
    assert!(!t.active);
    let e = t.tick();
    assert!(!e.notify && !e.schedule_tick && e.commit.is_none());
    let e = t.update(TimerMsg::ToggleFlowTime);
    assert!(e.schedule_tick);
}

#[test]
fn set_restart_is_live() {
    let mut t = break_of_one_second(false);
    t.update(TimerMsg::SetRestart(true));
    assert!(t.restart);
    t.tick();
    t.tick();
    assert_eq!(t.mode, TimerMode::Clock);
}

#[test]
fn reset_work_records_when_asked() {
    let mut t = working(false, true, 90);
    let e = t.update(TimerMsg::ResetSession);
    assert_eq!(e.commit, Some(Delta { break_seconds: 0, work_seconds: 90 }));
    assert_eq!(t.mode, TimerMode::Clock);
    assert_eq!(t.time, hms(0, 0, 0));
    let mut t = working(false, false, 90);
    let e = t.update(TimerMsg::ResetSession);
    assert_eq!(e.commit, None);
    assert_eq!(t.time, hms(0, 0, 0));
}

#[test]
fn reset_break_records_the_part_taken() {
    let mut t = working(false, true, 100);
    t.update(TimerMsg::ToggleBreak);
    for _ in 0..7 {
        t.tick();
    }
    assert_eq!(t.time, hms(0, 0, 13));
    let e = t.update(TimerMsg::ResetSession);
    assert_eq!(e.commit, Some(Delta { break_seconds: 7, work_seconds: 0 }));
    assert_eq!(t.mode, TimerMode::Clock);
    assert_eq!(t.time, hms(0, 0, 0));
}

#[test]
fn reset_save_can_be_switched() {
    let mut t = working(false, false, 30);
    t.update(TimerMsg::SetResetSave(true));
    let e = t.update(TimerMsg::ResetSession);
    assert_eq!(e.commit, Some(Delta { break_seconds: 0, work_seconds: 30 }));
}

#[test]
fn empty_command_changes_nothing() {
    let mut t = working(false, false, 3);
    let e = t.update_cmd(CommandMsg::Empty);
    assert_eq!(t.time, hms(0, 0, 3));
    assert!(!e.schedule_tick && !e.notify && e.commit.is_none());
}

#[test]
fn work_ticks_keep_the_stream() {
    let mut t = working(false, false, 0);
    let e = t.update_cmd(CommandMsg::Tick);
    assert!(e.schedule_tick);
    assert_eq!(t.formatted_string(), "00:00:01");
}

#[test]
fn break_end_commit_raises_only_that_month() {
    let mut t = working(false, false, 300);
    t.update(TimerMsg::ToggleBreak);
    assert_eq!(t.break_length, 60);
    for _ in 0..60 {
        assert!(!t.tick().notify);
    }
    let e = t.tick();
    assert!(e.notify);
    let delta = e.commit.unwrap();
    let mut s = flowtime::Stats {
        month_break_work: vec![
            flowtime::MonthStat { month: 2, break_seconds: 5, work_seconds: 40 },
            flowtime::MonthStat { month: 3, break_seconds: 1, work_seconds: 2 },
        ],
    };
    flowtime::update_statistics(&mut s, 2, delta.break_seconds, delta.work_seconds);
    assert_eq!(s.month_break_work[0], flowtime::MonthStat { month: 2, break_seconds: 65, work_seconds: 40 });
    assert_eq!(s.month_break_work[1], flowtime::MonthStat { month: 3, break_seconds: 1, work_seconds: 2 });
    assert!(!t.tick().notify);
}
