//! The schedule of automatic saves.
//!
//! The timer itself belongs to the program around the library. What is
//! decided here: whether a call to arm is accepted, whether the timer that
//! runs has to be stopped first, and what the timer does when it wakes.
use vstd::prelude::*;

verus! {

/// The schedule: off, or a save every `interval` seconds of which at most
/// `max_count` are kept.
#[derive(Debug, Clone, Copy, PartialEq, Eq, Structural)]
pub enum AutoSaveSession {
    Disabled,
    Armed { interval: u64, max_count: usize },
}

/// What a call to arm leads to.
#[derive(Debug, Clone, Copy, PartialEq, Eq, Structural)]
pub enum Arming {
    /// The call is void: the schedule stays as it was, a timer keeps running.
    Rejected,
    /// Automatic saving is off now. `join_previous` says whether a timer
    /// was running: it is stopped and waited for.
    Stopped { join_previous: bool },
    /// A new timer is to be started, after the one that was running, if
    /// any, was stopped and waited for.
    Started { join_previous: bool, interval: u64, max_count: usize },
}

/// What the timer does when its wait is over.
#[derive(Debug, Clone, Copy, PartialEq, Eq, Structural)]
pub enum Wake {
    /// The timer was cancelled: it ends without saving.
    Exit,
    /// The interval has passed: one automatic save, of which at most
    /// `max_count` are kept.
    Tick { max_count: usize },
}

impl AutoSaveSession {
    /// An armed schedule has an interval and room for at least one save.
    pub open spec fn wf(self) -> bool {
        self matches AutoSaveSession::Armed { interval, max_count } ==> interval > 0 && max_count
            > 0
    }

    /// What arming leads to, and the schedule after it.
    pub open spec fn armed(self, interval: u64, max_count: usize) -> (AutoSaveSession, Arming) {
        let join_previous = self is Armed;
        if max_count == 0 {
            (self, Arming::Rejected)
        } else if interval == 0 {
            (AutoSaveSession::Disabled, Arming::Stopped { join_previous })
        } else {
            (
                AutoSaveSession::Armed { interval, max_count },
                Arming::Started { join_previous, interval, max_count },
            )
        }
    }

    /// What the timer does when it wakes with the flag as `still_enabled`.
    pub open spec fn woken(self, still_enabled: bool) -> Wake {
        match self {
            AutoSaveSession::Armed { interval, max_count } => if still_enabled {
                Wake::Tick { max_count }
            } else {
                Wake::Exit
            },
            AutoSaveSession::Disabled => Wake::Exit,
        }
    }

    /// The schedule of a program that has just started: off.
    pub fn new() -> (session: Self)
        ensures
            session == AutoSaveSession::Disabled,
    {
        AutoSaveSession::Disabled
    }

    /// Arms the schedule for a save every `interval` seconds, keeping at
    /// most `max_count`. A `max_count` of 0 is rejected and changes
    /// nothing; an `interval` of 0 switches automatic saving off.
    pub fn arm(&mut self, interval: u64, max_count: usize) -> (arming: Arming)
        ensures
            (*final(self), arming) == old(self).armed(interval, max_count),
            final(self).wf() || arming == Arming::Rejected,
    {
        if max_count == 0 {
            return Arming::Rejected;
        }
        let join_previous = match self {
            AutoSaveSession::Armed { .. } => true,
            AutoSaveSession::Disabled => false,
        };
        if interval == 0 {
            *self = AutoSaveSession::Disabled;
            Arming::Stopped { join_previous }
        } else {
            *self = AutoSaveSession::Armed { interval, max_count };
            Arming::Started { join_previous, interval, max_count }
        }
    }

    /// Decides what the timer does when its wait is over. `still_enabled`
    /// is the flag that cancelling clears.
    pub fn wake(&self, still_enabled: bool) -> (wake: Wake)
        ensures
            wake == self.woken(still_enabled),
    {
        match self {
            AutoSaveSession::Armed { interval, max_count } => {
                if still_enabled {
                    Wake::Tick { max_count: *max_count }
                } else {
                    Wake::Exit
                }
            },
            AutoSaveSession::Disabled => Wake::Exit,
        }
    }

    /// A round that failed ends the timer: the schedule is off, and the
    /// round is not tried again. A round that went well leaves the schedule
    /// as it is. The result says whether the timer waits once more.
    pub fn after_tick(&mut self, succeeded: bool) -> (goes_on: bool)
        ensures
            goes_on == (succeeded && *old(self) is Armed),
            *final(self) == if succeeded {
                *old(self)
            } else {
                AutoSaveSession::Disabled
            },
    {
        if !succeeded {
            *self = AutoSaveSession::Disabled;
            return false;
        }
        match self {
            AutoSaveSession::Armed { .. } => true,
            AutoSaveSession::Disabled => false,
        }
    }
}

/// The seconds in `minutes` minutes; `None` where they do not fit.
pub fn minutes_to_seconds(minutes: u64) -> (seconds: Option<u64>)
    ensures
        seconds == if minutes * 60 <= u64::MAX {
            Some((minutes * 60) as u64)
        } else {
            None
        },
{
    minutes.checked_mul(60)
}

/// Arming with `max_count` of at least one and an interval leads to rounds
/// that keep `max_count`: the schedule hands on what it was armed with.
pub proof fn law_armed_keeps_count(session: AutoSaveSession, interval: u64, max_count: usize)
    requires
        interval > 0,
        max_count > 0,
    ensures
        session.armed(interval, max_count).0.woken(true) == (Wake::Tick { max_count }),
        session.armed(interval, max_count).0.woken(false) == Wake::Exit,
        session.armed(interval, max_count).0.wf(),
{
}

} // verus!
