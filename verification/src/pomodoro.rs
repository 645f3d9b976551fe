//! The pomodoro timer: a small state machine over work and break phases
//! driven by one-second ticks, with toggle, stop and skip controls, and a
//! rendered state record for the widget.

use vstd::prelude::*;

use crate::timefmt::{format_time, spec_format_time};

verus! {

/// Default work phase length in seconds (25 minutes).
pub const DEFAULT_WORK_DURATION: u32 = 1500;

/// Default short break length in seconds (5 minutes).
pub const DEFAULT_SHORT_BREAK: u32 = 300;

/// Default long break length in seconds (15 minutes).
pub const DEFAULT_LONG_BREAK: u32 = 900;

/// Default number of sessions before a long break.
pub const DEFAULT_LONG_BREAK_INTERVAL: u32 = 4;

/// Timing configuration, all durations in seconds.
#[derive(Clone, Copy, PartialEq, Eq, Structural, Debug)]
pub struct PomodoroConfig {
    /// Work phase length.
    pub work_duration: u32,
    /// Short break length.
    pub short_break: u32,
    /// Long break length.
    pub long_break: u32,
    /// Sessions before a long break; must be positive.
    pub long_break_interval: u32,
}

impl Default for PomodoroConfig {
    /// The stock configuration: 25 minute work, 5 and 15 minute breaks, a
    /// long break every fourth session.
    fn default() -> (r: Self)
        ensures
            r.work_duration == DEFAULT_WORK_DURATION,
            r.short_break == DEFAULT_SHORT_BREAK,
            r.long_break == DEFAULT_LONG_BREAK,
            r.long_break_interval == DEFAULT_LONG_BREAK_INTERVAL,
    {
        PomodoroConfig {
            work_duration: DEFAULT_WORK_DURATION,
            short_break: DEFAULT_SHORT_BREAK,
            long_break: DEFAULT_LONG_BREAK,
            long_break_interval: DEFAULT_LONG_BREAK_INTERVAL,
        }
    }
}

/// What the timer is doing.
#[derive(Clone, Copy, PartialEq, Eq, Structural, Debug)]
pub enum TimerStatus {
    /// Not counting; a fresh phase is loaded.
    Idle,
    /// Counting suspended mid-phase.
    Paused,
    /// Counting down.
    Running,
}

/// The status word shown to the widget.
pub open spec fn spec_status_str(s: TimerStatus) -> Seq<char> {
    match s {
        TimerStatus::Idle => "idle"@,
        TimerStatus::Paused => "paused"@,
        TimerStatus::Running => "running"@,
    }
}

/// The rendered timer state the widget consumes.
pub struct PomodoroState {
    /// Status word: `idle`, `paused` or `running`.
    pub status: String,
    /// Seconds left in the current phase.
    pub time_left: u32,
    /// `M:SS` rendering of the time left.
    pub time_display: String,
    /// Completed (or started) work sessions.
    pub sessions: u32,
    /// Whether the current phase is a break.
    pub is_break: bool,
    /// How much of the current phase has elapsed, 0 to 100.
    pub percent: u32,
    /// Phase icon.
    pub icon: String,
}

/// Elapsed share of the current phase in percent.
pub open spec fn spec_phase_percent(duration: int, time_left: int) -> int {
    if duration > 0 {
        (if duration >= time_left {
            duration - time_left
        } else {
            0
        }) * 100 / duration
    } else {
        0
    }
}

/// The pomodoro timer state machine.
pub struct PomodoroTimer {
    /// Resolved timing configuration; never changes after creation.
    pub config: PomodoroConfig,
    /// What the timer is doing.
    pub status: TimerStatus,
    /// Seconds left in the current phase.
    pub time_left: u32,
    /// Work sessions counted so far.
    pub sessions: u32,
    /// Whether the current phase is a break.
    pub is_break: bool,
    /// Whether ticks count down.
    pub running: bool,
    /// Total length of the current phase, for the percent display.
    pub duration: u32,
}

impl PomodoroTimer {
    /// The configured long-break cadence is usable.
    pub open spec fn wf(&self) -> bool {
        self.config.long_break_interval > 0
    }

    /// A fresh, idle timer loaded with one work phase.
    pub fn new(config: PomodoroConfig) -> (r: PomodoroTimer)
        requires
            config.long_break_interval > 0,
        ensures
            r.wf(),
            r.config == config,
            r.status == TimerStatus::Idle,
            r.time_left == config.work_duration,
            r.sessions == 0,
            !r.is_break,
            !r.running,
            r.duration == config.work_duration,
    {
        PomodoroTimer {
            status: TimerStatus::Idle,
            time_left: config.work_duration,
            sessions: 0,
            is_break: false,
            running: false,
            duration: config.work_duration,
            config,
        }
    }

    /// Render the current state for the widget.
    pub fn get_state(&self) -> (r: PomodoroState)
        ensures
            r.status@ == spec_status_str(self.status),
            r.time_left == self.time_left,
            r.time_display@ == spec_format_time(self.time_left as int),
            r.sessions == self.sessions,
            r.is_break == self.is_break,
            r.percent as int == spec_phase_percent(self.duration as int, self.time_left as int),
            self.is_break ==> r.icon@ == "\u{4f11}\u{61a9}"@,
            !self.is_break ==> r.icon@ == "\u{4f5c}\u{696d}"@,
    {
        let time_display = format_time(self.time_left as u64);
        let percent: u32 = if self.duration > 0 {
            let gone: u32 = if self.duration >= self.time_left {
                self.duration - self.time_left
            } else {
                0
            };
            let wide: u64 = (gone as u64) * 100 / (self.duration as u64);
            proof {
                assert((gone as u64) * 100 == (gone as int) * 100);
                assert((gone as int) * 100 / (self.duration as int) <= 100) by (
                nonlinear_arith)
                    requires
                        self.duration > 0 && 0 <= gone <= self.duration,
                ;
            }
            wide as u32
        } else {
            0
        };
        let status: String = match self.status {
            TimerStatus::Idle => "idle".to_owned(),
            TimerStatus::Paused => "paused".to_owned(),
            TimerStatus::Running => "running".to_owned(),
        };
        let icon: String = if self.is_break {
            "\u{4f11}\u{61a9}".to_owned()
        } else {
            "\u{4f5c}\u{696d}".to_owned()
        };
        PomodoroState {
            status,
            time_left: self.time_left,
            time_display,
            sessions: self.sessions,
            is_break: self.is_break,
            percent,
            icon,
        }
    }

    /// Pause a running timer; resume a paused one; from idle, start
    /// running, loading the next phase first if the current one is used up
    /// (a finished work phase counts a new session; a break's length obeys
    /// the long-break cadence).
    pub fn toggle(&mut self)
        requires
            old(self).wf(),
        ensures
            final(self).wf(),
            final(self).config == old(self).config,
            old(self).running ==> *final(self) == (PomodoroTimer {
                status: TimerStatus::Paused,
                running: false,
                ..*old(self)
            }),
            !old(self).running && old(self).status == TimerStatus::Paused ==> *final(self)
                == (PomodoroTimer { status: TimerStatus::Running, running: true, ..*old(self) }),
            !old(self).running && old(self).status != TimerStatus::Paused ==> {
                &&& final(self).status == TimerStatus::Running
                &&& final(self).running
                &&& final(self).is_break == old(self).is_break
                &&& (old(self).time_left != 0 ==> final(self).time_left == old(self).time_left
                    && final(self).duration == old(self).duration && final(self).sessions == old(
                    self,
                ).sessions)
                &&& (old(self).time_left == 0 && old(self).is_break ==> {
                    &&& final(self).sessions == old(self).sessions
                    &&& final(self).duration == (if old(self).sessions % old(
                        self,
                    ).config.long_break_interval == 0 && old(self).sessions > 0 {
                        old(self).config.long_break
                    } else {
                        old(self).config.short_break
                    })
                    &&& final(self).time_left == final(self).duration
                })
                &&& (old(self).time_left == 0 && !old(self).is_break ==> {
                    &&& final(self).sessions == (if old(self).sessions < u32::MAX {
                        old(self).sessions + 1
                    } else {
                        u32::MAX as int
                    })
                    &&& final(self).duration == old(self).config.work_duration
                    &&& final(self).time_left == final(self).duration
                })
            },
    {
        if self.running {
            self.status = TimerStatus::Paused;
            self.running = false;
        } else if self.status == TimerStatus::Paused {
            self.status = TimerStatus::Running;
            self.running = true;
        } else {
            self.status = TimerStatus::Running;
            self.running = true;
            if self.time_left == 0 {
                if self.is_break {
                    self.duration = if self.sessions % self.config.long_break_interval == 0
                        && self.sessions > 0 {
                        self.config.long_break
                    } else {
                        self.config.short_break
                    };
                } else {
                    self.duration = self.config.work_duration;
                    self.sessions = self.sessions.saturating_add(1);
                }
                self.time_left = self.duration;
            }
        }
    }

    /// Reset to a fresh idle work phase and forget the session count.
    pub fn stop(&mut self)
        requires
            old(self).wf(),
        ensures
            final(self).wf(),
            *final(self) == (PomodoroTimer {
                status: TimerStatus::Idle,
                running: false,
                time_left: old(self).config.work_duration,
                duration: old(self).config.work_duration,
                sessions: 0,
                is_break: false,
                config: old(self).config,
            }),
    {
        self.status = TimerStatus::Idle;
        self.running = false;
        self.time_left = self.config.work_duration;
        self.duration = self.config.work_duration;
        self.sessions = 0;
        self.is_break = false;
    }

    /// Abandon the current phase and load the next one, idle: a skipped
    /// break leads to a work phase; a skipped work phase counts its session
    /// and leads to a break of the cadence-appropriate length.
    pub fn skip(&mut self)
        requires
            old(self).wf(),
        ensures
            final(self).wf(),
            final(self).config == old(self).config,
            final(self).status == TimerStatus::Idle,
            !final(self).running,
            old(self).is_break ==> {
                &&& !final(self).is_break
                &&& final(self).sessions == old(self).sessions
                &&& final(self).duration == old(self).config.work_duration
                &&& final(self).time_left == old(self).config.work_duration
            },
            !old(self).is_break ==> {
                &&& final(self).is_break
                &&& final(self).sessions == (if old(self).sessions < u32::MAX {
                    old(self).sessions + 1
                } else {
                    u32::MAX as int
                })
                &&& final(self).duration == (if final(self).sessions % old(
                    self,
                ).config.long_break_interval == 0 {
                    old(self).config.long_break
                } else {
                    old(self).config.short_break
                })
                &&& final(self).time_left == final(self).duration
            },
    {
        self.running = false;
        self.status = TimerStatus::Idle;
        if self.is_break {
            self.is_break = false;
            self.time_left = self.config.work_duration;
            self.duration = self.config.work_duration;
        } else {
            self.is_break = true;
            self.sessions = self.sessions.saturating_add(1);
            self.duration = if self.sessions % self.config.long_break_interval == 0 {
                self.config.long_break
            } else {
                self.config.short_break
            };
            self.time_left = self.duration;
        }
    }

    /// One second elapses. Nothing happens unless the timer is running
    /// with time on the clock. A tick that exhausts the phase ends it —
    /// idle, with the follow-on phase loaded — and returns true; every
    /// other tick returns false.
    pub fn tick(&mut self) -> (finished: bool)
        requires
            old(self).wf(),
        ensures
            final(self).wf(),
            final(self).config == old(self).config,
            (!old(self).running || old(self).time_left == 0) ==> (*final(self) == *old(self)
                && !finished),
            old(self).running && old(self).time_left > 1 ==> (*final(self) == (PomodoroTimer {
                time_left: (old(self).time_left - 1) as u32,
                ..*old(self)
            }) && !finished),
            old(self).running && old(self).time_left == 1 ==> {
                &&& finished
                &&& final(self).status == TimerStatus::Idle
                &&& !final(self).running
                &&& final(self).sessions == old(self).sessions
                &&& (old(self).is_break ==> {
                    &&& !final(self).is_break
                    &&& final(self).duration == old(self).config.work_duration
                    &&& final(self).time_left == old(self).config.work_duration
                })
                &&& (!old(self).is_break ==> {
                    &&& final(self).is_break
                    &&& final(self).duration == (if old(self).sessions % old(
                        self,
                    ).config.long_break_interval == 0 {
                        old(self).config.long_break
                    } else {
                        old(self).config.short_break
                    })
                    &&& final(self).time_left == final(self).duration
                })
            },
    {
        if !self.running || self.time_left == 0 {
            return false;
        }
        self.time_left = self.time_left - 1;
        if self.time_left == 0 {
            self.running = false;
            self.status = TimerStatus::Idle;
            if self.is_break {
                self.is_break = false;
                self.time_left = self.config.work_duration;
                self.duration = self.config.work_duration;
            } else {
                self.is_break = true;
                if self.sessions % self.config.long_break_interval == 0 {
                    self.time_left = self.config.long_break;
                    self.duration = self.config.long_break;
                } else {
                    self.time_left = self.config.short_break;
                    self.duration = self.config.short_break;
                }
            }
            return true;
        }
        false
    }
}

} // verus!
