//! Session timing state machine.
//!
//! One manager owns one [`FocusState`] and one [`FocusSettings`] record and
//! governs the lifecycle of a single timed session (focus / short break /
//! long break), including pause/resume and completion accounting.
//!
//! The machine never decrements `remaining_seconds` itself: an external
//! caller drives it down and then calls `stop`, which credits a completed
//! session only when a focus session reached zero. The state and settings
//! fields are public so that such a caller can inject the countdown
//! directly; every transition here is specified against whatever values it
//! finds.

use vstd::prelude::*;

use crate::errors::CommandError;
use crate::text::str_eq;

verus! {

/// Session durations (minutes) and behaviour flags.
#[derive(Clone, Copy, Debug, PartialEq, Eq, Structural)]
pub struct FocusSettings {
    /// Focus session length, in minutes.
    pub work_duration: u32,
    /// Short break length, in minutes.
    pub short_break: u32,
    /// Long break length, in minutes.
    pub long_break: u32,
    /// Focus sessions to complete before a long break.
    pub sessions_before_long_break: u32,
    pub auto_start_breaks: bool,
    pub auto_start_focus: bool,
    pub notifications_enabled: bool,
    pub sound_enabled: bool,
}

impl FocusSettings {
    /// The default settings: 25/5/15 minute durations, a long break every
    /// 4 sessions, nothing auto-started, notifications and sound on.
    pub open spec fn spec_default() -> FocusSettings {
        FocusSettings {
            work_duration: 25,
            short_break: 5,
            long_break: 15,
            sessions_before_long_break: 4,
            auto_start_breaks: false,
            auto_start_focus: false,
            notifications_enabled: true,
            sound_enabled: true,
        }
    }
}

impl Default for FocusSettings {
    fn default() -> (r: Self)
        ensures
            r == FocusSettings::spec_default(),
    {
        FocusSettings {
            work_duration: 25,
            short_break: 5,
            long_break: 15,
            sessions_before_long_break: 4,
            auto_start_breaks: false,
            auto_start_focus: false,
            notifications_enabled: true,
            sound_enabled: true,
        }
    }
}

/// The type of a timed session.
#[derive(Clone, Copy, Debug, PartialEq, Eq, Structural)]
pub enum SessionType {
    Focus,
    ShortBreak,
    LongBreak,
}

/// Snapshot of the session state machine.
#[derive(Clone, Copy, Debug, PartialEq, Eq, Structural)]
pub struct FocusState {
    /// A session has been started and not yet stopped.
    pub is_active: bool,
    /// The active session is paused (meaningful only while active).
    pub is_paused: bool,
    /// Type of the current (or last started) session.
    pub session_type: SessionType,
    /// Seconds left; driven down by an external caller, not by this machine.
    pub remaining_seconds: u32,
    /// Seconds the session started with.
    pub total_seconds: u32,
    /// Completed focus sessions; never decreases.
    pub completed_sessions: u32,
}

impl FocusState {
    /// The idle state: inactive, zero clocks, counter at `completed`.
    pub open spec fn spec_idle(completed: u32) -> FocusState {
        FocusState {
            is_active: false,
            is_paused: false,
            session_type: SessionType::Focus,
            remaining_seconds: 0,
            total_seconds: 0,
            completed_sessions: completed,
        }
    }
}

impl Default for FocusState {
    fn default() -> (r: Self)
        ensures
            r == FocusState::spec_idle(0),
    {
        FocusState {
            is_active: false,
            is_paused: false,
            session_type: SessionType::Focus,
            remaining_seconds: 0,
            total_seconds: 0,
            completed_sessions: 0,
        }
    }
}

/// Duration in minutes that the settings give for a session type.
pub open spec fn spec_duration_minutes(settings: FocusSettings, t: SessionType) -> u32 {
    match t {
        SessionType::Focus => settings.work_duration,
        SessionType::ShortBreak => settings.short_break,
        SessionType::LongBreak => settings.long_break,
    }
}

/// `minutes * 60`, saturating at `u32::MAX` so that no settings value,
/// however large, can make `start` misbehave.
pub open spec fn spec_minutes_to_seconds(minutes: u32) -> u32 {
    if minutes * 60 > u32::MAX {
        u32::MAX
    } else {
        (minutes * 60) as u32
    }
}

/// The session type named by a command string, if any.
pub open spec fn spec_parse_session_type(s: Seq<char>) -> Option<SessionType> {
    if s == "focus"@ {
        Some(SessionType::Focus)
    } else if s == "short_break"@ {
        Some(SessionType::ShortBreak)
    } else if s == "long_break"@ {
        Some(SessionType::LongBreak)
    } else {
        None
    }
}

/// The state after starting a session of type `t`: active, unpaused, both
/// clocks at the settings duration, the completion counter carried over.
pub open spec fn spec_start(state: FocusState, settings: FocusSettings, t: SessionType) -> FocusState {
    FocusState {
        is_active: true,
        is_paused: false,
        session_type: t,
        remaining_seconds: spec_minutes_to_seconds(spec_duration_minutes(settings, t)),
        total_seconds: spec_minutes_to_seconds(spec_duration_minutes(settings, t)),
        completed_sessions: state.completed_sessions,
    }
}

/// The state after a pause/resume toggle.
pub open spec fn spec_pause(state: FocusState) -> FocusState {
    FocusState { is_paused: !state.is_paused, ..state }
}

/// Whether `stop` credits a completed session: only a focus session whose
/// remaining time was driven all the way down counts.
pub open spec fn spec_stop_credits(state: FocusState) -> bool {
    state.session_type == SessionType::Focus && state.remaining_seconds == 0
}

/// The state after `stop`: the idle state, with the completion counter
/// incremented (saturating) exactly when the stopped session counts.
pub open spec fn spec_stop(state: FocusState) -> FocusState {
    if spec_stop_credits(state) {
        FocusState::spec_idle(if state.completed_sessions == u32::MAX {
            u32::MAX
        } else {
            (state.completed_sessions + 1) as u32
        })
    } else {
        FocusState::spec_idle(state.completed_sessions)
    }
}

/// The session state machine: one state record, one settings record.
///
/// Fields are public: callers receive snapshots, and the external countdown
/// is injected by writing `state.remaining_seconds` directly.
#[derive(Clone, Copy, Debug, PartialEq, Eq, Structural)]
pub struct FocusManager {
    pub state: FocusState,
    pub settings: FocusSettings,
}

impl Default for FocusManager {
    fn default() -> (r: Self)
        ensures
            r.state == FocusState::spec_idle(0),
            r.settings == FocusSettings::spec_default(),
    {
        FocusManager { state: FocusState::default(), settings: FocusSettings::default() }
    }
}

impl FocusManager {
    /// Start a session of the named type (`"focus"`, `"short_break"` or
    /// `"long_break"`): both clocks are set from the settings, the machine
    /// becomes active and unpaused, and the new snapshot is returned. Any
    /// other name leaves the state untouched and reports an invalid
    /// argument.
    pub fn start_focus_session(&mut self, session_type: &str) -> (r: Result<
        FocusState,
        CommandError,
    >)
        ensures
            final(self).settings == old(self).settings,
            match spec_parse_session_type(session_type@) {
                Some(t) => {
                    &&& final(self).state == spec_start(old(self).state, old(self).settings, t)
                    &&& r == Ok::<FocusState, CommandError>(final(self).state)
                },
                None => {
                    &&& final(self).state == old(self).state
                    &&& r == Err::<FocusState, CommandError>(CommandError::InvalidSessionType)
                },
            },
    {
        proof {
            reveal_strlit("focus");
            reveal_strlit("short_break");
            reveal_strlit("long_break");
        }
        let session_enum = if str_eq(session_type, "focus") {
            SessionType::Focus
        } else if str_eq(session_type, "short_break") {
            SessionType::ShortBreak
        } else if str_eq(session_type, "long_break") {
            SessionType::LongBreak
        } else {
            return Err(CommandError::InvalidSessionType);
        };

        let duration = match session_enum {
            SessionType::Focus => self.settings.work_duration,
            SessionType::ShortBreak => self.settings.short_break,
            SessionType::LongBreak => self.settings.long_break,
        };
        let seconds = if duration > u32::MAX / 60 {
            u32::MAX
        } else {
            duration * 60
        };

        self.state.is_active = true;
        self.state.is_paused = false;
        self.state.session_type = session_enum;
        self.state.remaining_seconds = seconds;
        self.state.total_seconds = seconds;

        Ok(self.state)
    }

    /// Toggle pause/resume on the active session and return the new
    /// snapshot; with no active session, report a state error and leave
    /// everything untouched.
    pub fn pause_focus_session(&mut self) -> (r: Result<FocusState, CommandError>)
        ensures
            final(self).settings == old(self).settings,
            old(self).state.is_active ==> {
                &&& final(self).state == spec_pause(old(self).state)
                &&& r == Ok::<FocusState, CommandError>(final(self).state)
            },
            !old(self).state.is_active ==> {
                &&& final(self).state == old(self).state
                &&& r == Err::<FocusState, CommandError>(CommandError::NoActiveSession)
            },
    {
        if !self.state.is_active {
            return Err(CommandError::NoActiveSession);
        }
        self.state.is_paused = !self.state.is_paused;
        Ok(self.state)
    }

    /// Stop the session: credit a completed session exactly when a focus
    /// session had been driven down to zero remaining seconds, then reset to
    /// the idle state (counter carried over) and return the post-reset
    /// snapshot. Never fails.
    pub fn stop_focus_session(&mut self) -> (r: Result<FocusState, CommandError>)
        ensures
            final(self).settings == old(self).settings,
            final(self).state == spec_stop(old(self).state),
            r == Ok::<FocusState, CommandError>(final(self).state),
    {
        let completed = if matches!(self.state.session_type, SessionType::Focus)
            && self.state.remaining_seconds == 0 {
            if self.state.completed_sessions == u32::MAX {
                u32::MAX
            } else {
                self.state.completed_sessions + 1
            }
        } else {
            self.state.completed_sessions
        };
        self.state = FocusState::default();
        self.state.completed_sessions = completed;
        Ok(self.state)
    }

    /// Return the current snapshot. Never fails, never mutates.
    pub fn get_focus_state(&self) -> (r: Result<FocusState, CommandError>)
        ensures
            r == Ok::<FocusState, CommandError>(self.state),
    {
        Ok(self.state)
    }

    /// Replace the settings wholesale and echo them back. Never fails.
    pub fn update_focus_settings(&mut self, settings: FocusSettings) -> (r: Result<
        FocusSettings,
        CommandError,
    >)
        ensures
            final(self).settings == settings,
            final(self).state == old(self).state,
            r == Ok::<FocusSettings, CommandError>(settings),
    {
        self.settings = settings;
        Ok(settings)
    }

    /// Return the current settings. Never fails, never mutates.
    pub fn get_focus_settings(&self) -> (r: Result<FocusSettings, CommandError>)
        ensures
            r == Ok::<FocusSettings, CommandError>(self.settings),
    {
        Ok(self.settings)
    }
}

/// Toggling pause twice returns the machine to exactly the state it was in:
/// over any even number of calls, `is_paused` keeps its original value.
pub proof fn lemma_pause_twice_identity(state: FocusState)
    ensures
        spec_pause(spec_pause(state)) == state,
{
}

/// The completion counter never decreases across any transition of the
/// machine: not on `start`, not on `pause`, not on `stop`.
pub proof fn lemma_completed_sessions_monotonic(
    state: FocusState,
    settings: FocusSettings,
    t: SessionType,
)
    ensures
        spec_start(state, settings, t).completed_sessions >= state.completed_sessions,
        spec_pause(state).completed_sessions >= state.completed_sessions,
        spec_stop(state).completed_sessions >= state.completed_sessions,
{
}

/// A freshly started session holds its full clock — `remaining_seconds`
/// equals `total_seconds` — the idle state after `stop` keeps both at
/// zero, and a pause touches neither, so every transition of the machine
/// itself preserves `remaining_seconds <= total_seconds`.
pub proof fn lemma_remaining_within_total(
    state: FocusState,
    settings: FocusSettings,
    t: SessionType,
)
    ensures
        spec_start(state, settings, t).remaining_seconds == spec_start(
            state,
            settings,
            t,
        ).total_seconds,
        spec_stop(state).remaining_seconds == 0 && spec_stop(state).total_seconds == 0,
        state.remaining_seconds <= state.total_seconds ==> spec_pause(state).remaining_seconds
            <= spec_pause(state).total_seconds,
{
}

/// `stop` credits exactly one completed session when a focus session was
/// driven down to zero remaining seconds (saturating at the counter's
/// maximum), leaves the counter unchanged in every other case, and either
/// way resets every other field to the default idle state.
pub proof fn lemma_stop_completion_accounting(state: FocusState)
    ensures
        spec_stop_credits(state) && state.completed_sessions < u32::MAX ==> spec_stop(state)
            == FocusState::spec_idle((state.completed_sessions + 1) as u32),
        spec_stop_credits(state) && state.completed_sessions == u32::MAX ==> spec_stop(state)
            == FocusState::spec_idle(u32::MAX),
        !spec_stop_credits(state) ==> spec_stop(state) == FocusState::spec_idle(
            state.completed_sessions,
        ),
{
}

} // verus!
