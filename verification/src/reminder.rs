//! The kinds of reminder and the request to show one.

use vstd::prelude::*;

verus! {

/// A category of periodic reminder. Each kind has its own interval and
/// duration in the settings and its own scheduler.
#[derive(Clone, Copy, Debug, PartialEq, Eq, Hash, Structural)]
pub enum ReminderType {
    Blink,
    Posture,
}

/// "Show a reminder of this kind now, for this many seconds." Produced by a
/// scheduler when its interval has elapsed and consumed once by whatever
/// displays reminders.
#[derive(Clone, Copy, Debug, PartialEq, Eq, Structural)]
pub struct ReminderTrigger {
    pub kind: ReminderType,
    pub duration_seconds: u64,
}

/// What a reminder window is opened with: the kind to show and, where the
/// scheduler fixed it, the seconds to stay open. Without a fixed duration the
/// window stays open for the duration that the settings hold for its kind
/// when it opens.
#[derive(Clone, Copy, Debug, PartialEq, Eq)]
pub struct ReminderWindowProps {
    pub kind: ReminderType,
    pub duration: Option<u64>,
}

impl ReminderTrigger {
    /// The window to open for this trigger: of its kind, for its duration.
    pub fn window_props(&self) -> (props: ReminderWindowProps)
        ensures
            props.kind == self.kind,
            props.duration == Some(self.duration_seconds),
    {
        ReminderWindowProps { kind: self.kind, duration: Some(self.duration_seconds) }
    }
}

} // verus!
