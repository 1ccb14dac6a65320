use vstd::prelude::*;
use crate::format::clock_text;
use crate::stats::{has_month, ledger_wf, merged, valid_month, MonthStat};
use crate::time::{Time, TimeError};

verus! {

/// What a paused session goes back to.
#[derive(Clone, Copy, Debug, PartialEq, Eq, Structural)]
pub enum Resume {
    /// The work stage, counting up.
    Clock,
    /// The break stage, counting down.
    CountDown,
}

/// The stage of a session.
#[derive(Clone, Copy, Debug, PartialEq, Eq, Structural)]
pub enum TimerMode {
    /// Working: the clock counts up from zero.
    Clock,
    /// On break: the clock counts down to zero.
    CountDown,
    /// Idle, before a session and after one ends.
    Stop,
    /// Suspended; resuming goes back to the stage held inside.
    Pause(Resume),
}

/// An input from the user.
#[derive(Clone, Copy, Debug, PartialEq, Eq, Structural)]
pub enum TimerMsg {
    /// Start a session, or pause and resume the running stage.
    ToggleFlowTime,
    /// End the work stage and begin a break of a fifth of its length.
    ToggleBreak,
    /// Restart the work stage from zero.
    ResetSession,
    /// Whether a session starts again by itself when a break ends.
    SetRestart(bool),
    /// Whether a reset records the time spent so far.
    SetResetSave(bool),
}

/// An event of the tick source.
#[derive(Clone, Copy, Debug, PartialEq, Eq, Structural)]
pub enum CommandMsg {
    /// One second has passed.
    Tick,
    /// A side task finished; nothing to do.
    Empty,
}

/// Seconds to add to the statistics of the current month.
#[derive(Clone, Copy, Debug, PartialEq, Eq, Structural)]
pub struct Delta {
    pub break_seconds: u32,
    pub work_seconds: u32,
}

/// What the host has to do after the engine took a message or a tick.
#[derive(Clone, Copy, Debug, PartialEq, Eq, Structural)]
pub struct Effects {
    /// Add these seconds to the statistics.
    pub commit: Option<Delta>,
    /// Deliver one more tick a second from now.
    pub schedule_tick: bool,
    /// Play the sound that marks the end of a break.
    pub notify: bool,
}

pub open spec fn no_effects() -> Effects {
    Effects { commit: None, schedule_tick: false, notify: false }
}

/// The timer session: its stage, its clock and its live settings.
#[derive(Clone, Copy, Debug)]
pub struct Timer {
    pub mode: TimerMode,
    pub time: Time,
    /// A tick stream is running for this session.
    pub active: bool,
    /// Restart the work stage by itself when a break ends.
    pub restart: bool,
    /// Record the time spent so far when the session is reset.
    pub reset_save: bool,
    /// The length in seconds of the break that is running or paused.
    pub break_length: u32,
}

impl Effects {
    fn none() -> (r: Effects)
        ensures
            r == no_effects(),
    {
        Effects { commit: None, schedule_tick: false, notify: false }
    }
}

impl Timer {
    /// The clock is in range, a tick stream runs exactly while a session
    /// is under way, and a break never holds more than its length.
    pub open spec fn wf(&self) -> bool {
        &&& self.time.wf()
        &&& self.active == (self.mode != TimerMode::Stop)
        &&& (self.mode == TimerMode::CountDown || self.mode == TimerMode::Pause(Resume::CountDown))
            ==> self.time.total() <= self.break_length
    }

    /// The session after the user's message `msg`.
    pub open spec fn msg_next(self, msg: TimerMsg) -> Timer {
        match msg {
            TimerMsg::ToggleFlowTime => match self.mode {
                TimerMode::Stop => Timer { mode: TimerMode::Clock, time: Time::zero(), active: true, ..self },
                TimerMode::Clock => Timer { mode: TimerMode::Pause(Resume::Clock), ..self },
                TimerMode::CountDown => Timer { mode: TimerMode::Pause(Resume::CountDown), ..self },
                TimerMode::Pause(Resume::Clock) => Timer { mode: TimerMode::Clock, ..self },
                TimerMode::Pause(Resume::CountDown) => Timer { mode: TimerMode::CountDown, ..self },
            },
            TimerMsg::ToggleBreak => match self.mode {
                TimerMode::CountDown => self,
                _ => Timer {
                    mode: TimerMode::CountDown,
                    time: Time::from_total(self.time.total() / 5),
                    active: true,
                    break_length: (self.time.total() / 5) as u32,
                    ..self
                },
            },
            TimerMsg::ResetSession => match self.mode {
                TimerMode::Clock | TimerMode::CountDown => Timer {
                    mode: TimerMode::Clock,
                    time: Time::zero(),
                    break_length: 0,
                    ..self
                },
                _ => Timer { time: Time::zero(), break_length: 0, ..self },
            },
            TimerMsg::SetRestart(b) => Timer { restart: b, ..self },
            TimerMsg::SetResetSave(b) => Timer { reset_save: b, ..self },
        }
    }

    /// What the host does after the user's message `msg`.
    pub open spec fn msg_effects(self, msg: TimerMsg) -> Effects {
        match msg {
            TimerMsg::ToggleFlowTime => match self.mode {
                TimerMode::Stop => Effects { schedule_tick: !self.active, ..no_effects() },
                _ => no_effects(),
            },
            TimerMsg::ToggleBreak => match self.mode {
                TimerMode::CountDown => no_effects(),
                _ => Effects {
                    commit: Some(Delta { break_seconds: 0, work_seconds: self.time.total() as u32 }),
                    schedule_tick: !self.active,
                    notify: false,
                },
            },
            TimerMsg::ResetSession => match self.mode {
                TimerMode::Clock => Effects {
                    commit: if self.reset_save {
                        Some(Delta { break_seconds: 0, work_seconds: self.time.total() as u32 })
                    } else {
                        None
                    },
                    ..no_effects()
                },
                TimerMode::CountDown => Effects {
                    commit: if self.reset_save {
                        Some(
                            Delta {
                                break_seconds: (self.break_length - self.time.total()) as u32,
                                work_seconds: 0,
                            },
                        )
                    } else {
                        None
                    },
                    ..no_effects()
                },
                _ => no_effects(),
            },
            _ => no_effects(),
        }
    }

    /// The session after one tick.
    pub open spec fn tick_next(self) -> Timer {
        match self.mode {
            TimerMode::Clock => Timer { time: self.time.incremented(), ..self },
            TimerMode::CountDown => if self.time.total() == 0 {
                if self.restart {
                    Timer { mode: TimerMode::Clock, time: Time::zero(), break_length: 0, ..self }
                } else {
                    Timer { mode: TimerMode::Stop, active: false, break_length: 0, ..self }
                }
            } else {
                Timer { time: self.time.decremented(), ..self }
            },
            _ => self,
        }
    }

    /// What the host does after one tick: a break that reached zero is
    /// recorded and announced, and the next tick follows unless the session ended.
    pub open spec fn tick_effects(self) -> Effects {
        let next = self.tick_next();
        if self.mode == TimerMode::CountDown && self.time.total() == 0 {
            Effects {
                commit: Some(Delta { break_seconds: self.break_length, work_seconds: 0 }),
                schedule_tick: next.mode != TimerMode::Stop,
                notify: true,
            }
        } else {
            Effects { schedule_tick: next.mode != TimerMode::Stop, ..no_effects() }
        }
    }

    /// An idle session with a zero clock and the given settings.
    pub fn new(restart: bool, reset_save: bool) -> (r: Timer)
        ensures
            r.wf(),
            r.mode == TimerMode::Stop,
            r.time == Time::zero(),
            !r.active,
            r.restart == restart,
            r.reset_save == reset_save,
            r.break_length == 0,
    {
        Timer {
            mode: TimerMode::Stop,
            time: Time::new(),
            active: false,
            restart,
            reset_save,
            break_length: 0,
        }
    }

    /// The clock as `HH:MM:SS`.
    pub fn formatted_string(&self) -> (r: String)
        ensures
            r@ == clock_text(self.time.hour as nat, self.time.minutes as nat, self.time.second as nat),
    {
        self.time.formatted_string()
    }

    /// Applies one message of the user and says what the host must do.
    pub fn update(&mut self, msg: TimerMsg) -> (r: Effects)
        requires
            old(self).wf(),
        ensures
            final(self).wf(),
            *final(self) == old(self).msg_next(msg),
            r == old(self).msg_effects(msg),
    {
        match msg {
            TimerMsg::ToggleFlowTime => match self.mode {
                TimerMode::Stop => {
                    self.mode = TimerMode::Clock;
                    self.time.reset_time();
                    let schedule_tick = !self.active;
                    self.active = true;
                    Effects { commit: None, schedule_tick, notify: false }
                },
                TimerMode::Clock => {
                    self.mode = TimerMode::Pause(Resume::Clock);
                    Effects::none()
                },
                TimerMode::CountDown => {
                    self.mode = TimerMode::Pause(Resume::CountDown);
                    Effects::none()
                },
                TimerMode::Pause(Resume::Clock) => {
                    self.mode = TimerMode::Clock;
                    Effects::none()
                },
                TimerMode::Pause(Resume::CountDown) => {
                    self.mode = TimerMode::CountDown;
                    Effects::none()
                },
            },
            TimerMsg::ToggleBreak => match self.mode {
                TimerMode::CountDown => Effects::none(),
                _ => {
                    let worked = self.time.get_second();
                    self.mode = TimerMode::CountDown;
                    self.time.set_time_by_second(worked / 5);
                    self.break_length = worked / 5;
                    let schedule_tick = !self.active;
                    self.active = true;
                    proof {
                        assert(Time::from_total((worked / 5) as int) == Time::from_total(
                            old(self).time.total() / 5,
                        ));
                    }
                    Effects {
                        commit: Some(Delta { break_seconds: 0, work_seconds: worked }),
                        schedule_tick,
                        notify: false,
                    }
                },
            },
            TimerMsg::ResetSession => {
                let commit = match self.mode {
                    TimerMode::Clock => {
                        if self.reset_save {
                            Some(Delta { break_seconds: 0, work_seconds: self.time.get_second() })
                        } else {
                            None
                        }
                    },
                    TimerMode::CountDown => {
                        self.mode = TimerMode::Clock;
                        if self.reset_save {
                            Some(
                                Delta {
                                    break_seconds: self.break_length - self.time.get_second(),
                                    work_seconds: 0,
                                },
                            )
                        } else {
                            None
                        }
                    },
                    _ => None,
                };
                self.time.reset_time();
                self.break_length = 0;
                Effects { commit, schedule_tick: false, notify: false }
            },
            TimerMsg::SetRestart(b) => {
                self.restart = b;
                Effects::none()
            },
            TimerMsg::SetResetSave(b) => {
                self.reset_save = b;
                Effects::none()
            },
        }
    }

    /// Advances the session by one second: work counts up, a break counts
    /// down, and a break at zero ends.
    pub fn tick(&mut self) -> (r: Effects)
        requires
            old(self).wf(),
        ensures
            final(self).wf(),
            *final(self) == old(self).tick_next(),
            r == old(self).tick_effects(),
    {
        match self.mode {
            TimerMode::Clock => {
                self.time.increment_second();
                Effects { commit: None, schedule_tick: true, notify: false }
            },
            TimerMode::CountDown => {
                if self.time.is_zero() {
                    let finished = Delta { break_seconds: self.break_length, work_seconds: 0 };
                    self.break_length = 0;
                    if self.restart {
                        self.mode = TimerMode::Clock;
                        self.time.reset_time();
                    } else {
                        self.mode = TimerMode::Stop;
                        self.active = false;
                    }
                    Effects { commit: Some(finished), schedule_tick: self.restart, notify: true }
                } else {
                    // The clock is above zero here, so this cannot underflow.
                    let _ = self.time.decrement_second();
                    Effects { commit: None, schedule_tick: true, notify: false }
                }
            },
            TimerMode::Stop => Effects::none(),
            TimerMode::Pause(_) => Effects { commit: None, schedule_tick: true, notify: false },
        }
    }

    /// Handles an event of the tick source.
    pub fn update_cmd(&mut self, message: CommandMsg) -> (r: Effects)
        requires
            old(self).wf(),
        ensures
            final(self).wf(),
            message == CommandMsg::Tick ==> *final(self) == old(self).tick_next() && r
                == old(self).tick_effects(),
            message == CommandMsg::Empty ==> *final(self) == *old(self) && r == no_effects(),
    {
        match message {
            CommandMsg::Tick => self.tick(),
            CommandMsg::Empty => Effects::none(),
        }
    }
}

/// Starting a session from idle gives the work stage with a zero clock.
pub proof fn lemma_start_from_stop(t: Timer)
    requires
        t.wf(),
        t.mode == TimerMode::Stop,
    ensures
        t.msg_next(TimerMsg::ToggleFlowTime).mode == TimerMode::Clock,
        t.msg_next(TimerMsg::ToggleFlowTime).time == Time::zero(),
{
}

/// Pausing the work stage and resuming it leaves the clock where it was.
pub proof fn lemma_pause_resume(t: Timer)
    requires
        t.wf(),
        t.mode == TimerMode::Clock,
    ensures
        t.msg_next(TimerMsg::ToggleFlowTime).msg_next(TimerMsg::ToggleFlowTime).mode
            == TimerMode::Clock,
        t.msg_next(TimerMsg::ToggleFlowTime).msg_next(TimerMsg::ToggleFlowTime).time == t.time,
{
}

/// Once a tick leaves the session idle, no further tick is asked for and the
/// tick stream is marked as stopped; an idle session asks for none either.
pub proof fn lemma_no_tick_after_stop(t: Timer)
    requires
        t.wf(),
    ensures
        t.tick_next().mode == TimerMode::Stop ==> !t.tick_effects().schedule_tick
            && !t.tick_next().active,
        t.mode == TimerMode::Stop ==> t.tick_next() == t && t.tick_effects() == no_effects(),
{
}

/// The tick at which a break stands at zero ends it: the sound is asked for
/// once, the next stage follows the restart setting, and exactly one commit
/// is emitted, of the break's full length. Merged into a ledger, it raises
/// the break seconds of that month by the length (stopping at `u32::MAX`),
/// or creates the month with them, and leaves work seconds and every other
/// month as they were.
pub proof fn lemma_break_end(t: Timer, s: Seq<MonthStat>, m: u32)
    requires
        t.wf(),
        t.mode == TimerMode::CountDown,
        t.time.total() == 0,
        ledger_wf(s),
        valid_month(m),
    ensures
        t.tick_effects().notify,
        t.tick_effects().commit == Some(Delta { break_seconds: t.break_length, work_seconds: 0 }),
        t.tick_next().mode == (if t.restart { TimerMode::Clock } else { TimerMode::Stop }),
        t.tick_next().restart ==> t.tick_next().time == Time::zero(),
        t.tick_next().tick_effects().notify == false,
        forall|i: int|
            0 <= i < s.len() ==> {
                let r = #[trigger] merged(s, m, t.break_length, 0)[i];
                if s[i].month == m {
                    &&& r.month == m
                    &&& r.break_seconds == s[i].break_seconds.saturating_add(t.break_length)
                    &&& r.work_seconds == s[i].work_seconds
                } else {
                    r == s[i]
                }
            },
        !has_month(s, m) ==> merged(s, m, t.break_length, 0) == s.push(
            MonthStat { month: m, break_seconds: t.break_length, work_seconds: 0 },
        ),
{
}

} // verus!
