//! The settings store: the current interval and duration of every reminder
//! kind, and the announcement of each edit on the change bus.

use vstd::prelude::*;
use crate::change_bus::ChangeBus;
use crate::reminder::{ReminderType, ReminderWindowProps};
use tokio::sync::broadcast::Receiver;

verus! {

/// A full copy of the settings: for each reminder kind, the seconds between
/// two reminders and the seconds a reminder stays visible. Snapshots are
/// plain values, compared field by field.
#[derive(Clone, Copy, Debug, PartialEq, Eq, Structural)]
pub struct BlinkSettings {
    pub blink_interval: u64,
    pub blink_duration: u64,
    pub posture_interval: u64,
    pub posture_duration: u64,
}

impl BlinkSettings {
    /// The settings a store starts with: blink every 30 s for 3 s, posture
    /// every 60 s for 5 s.
    pub open spec fn defaults() -> BlinkSettings {
        BlinkSettings {
            blink_interval: 30,
            blink_duration: 3,
            posture_interval: 60,
            posture_duration: 5,
        }
    }

    /// The interval configured for `kind`.
    pub open spec fn interval_of(self, kind: ReminderType) -> u64 {
        match kind {
            ReminderType::Blink => self.blink_interval,
            ReminderType::Posture => self.posture_interval,
        }
    }

    /// The duration configured for `kind`.
    pub open spec fn duration_of(self, kind: ReminderType) -> u64 {
        match kind {
            ReminderType::Blink => self.blink_duration,
            ReminderType::Posture => self.posture_duration,
        }
    }

    /// These settings with the interval of `kind` replaced by `value`.
    pub open spec fn with_interval(self, kind: ReminderType, value: u64) -> BlinkSettings {
        match kind {
            ReminderType::Blink => BlinkSettings { blink_interval: value, ..self },
            ReminderType::Posture => BlinkSettings { posture_interval: value, ..self },
        }
    }

    /// These settings with the duration of `kind` replaced by `value`.
    pub open spec fn with_duration(self, kind: ReminderType, value: u64) -> BlinkSettings {
        match kind {
            ReminderType::Blink => BlinkSettings { blink_duration: value, ..self },
            ReminderType::Posture => BlinkSettings { posture_duration: value, ..self },
        }
    }

    /// Reads the interval configured for `kind`.
    pub fn interval(&self, kind: ReminderType) -> (seconds: u64)
        ensures
            seconds == self.interval_of(kind),
    {
        match kind {
            ReminderType::Blink => self.blink_interval,
            ReminderType::Posture => self.posture_interval,
        }
    }

    /// Reads the duration configured for `kind`.
    pub fn duration(&self, kind: ReminderType) -> (seconds: u64)
        ensures
            seconds == self.duration_of(kind),
    {
        match kind {
            ReminderType::Blink => self.blink_duration,
            ReminderType::Posture => self.posture_duration,
        }
    }
}

impl Default for BlinkSettings {
    fn default() -> (settings: BlinkSettings)
        ensures
            settings == BlinkSettings::defaults(),
    {
        BlinkSettings {
            blink_interval: 30,
            blink_duration: 3,
            posture_interval: 60,
            posture_duration: 5,
        }
    }
}

/// One edit of the settings: a new interval or a new duration, in seconds,
/// for one kind.
#[derive(Clone, Copy, Debug, PartialEq, Eq, Structural)]
pub enum SettingsEdit {
    Interval(ReminderType, u64),
    Duration(ReminderType, u64),
}

impl BlinkSettings {
    /// These settings after `edit`: the one field it names holds the new
    /// value, and every other field is unchanged.
    pub open spec fn edited(self, edit: SettingsEdit) -> BlinkSettings {
        match edit {
            SettingsEdit::Interval(kind, value) => self.with_interval(kind, value),
            SettingsEdit::Duration(kind, value) => self.with_duration(kind, value),
        }
    }

    /// Makes one edit on these settings.
    pub fn apply(&mut self, edit: SettingsEdit)
        ensures
            *final(self) == old(self).edited(edit),
    {
        match edit {
            SettingsEdit::Interval(ReminderType::Blink, value) => {
                self.blink_interval = value;
            },
            SettingsEdit::Interval(ReminderType::Posture, value) => {
                self.posture_interval = value;
            },
            SettingsEdit::Duration(ReminderType::Blink, value) => {
                self.blink_duration = value;
            },
            SettingsEdit::Duration(ReminderType::Posture, value) => {
                self.posture_duration = value;
            },
        }
    }
}

/// What a settings store is, to its callers: the settings now in force, and
/// every snapshot it has published since it was made, oldest first.
pub struct StoreState {
    pub settings: BlinkSettings,
    pub published: Seq<BlinkSettings>,
}

impl StoreState {
    /// A store as it is made: the default settings, nothing published.
    pub open spec fn initial() -> StoreState {
        StoreState { settings: BlinkSettings::defaults(), published: Seq::empty() }
    }

    /// The store after `edit`: the settings are edited, and exactly one
    /// snapshot, a copy of the settings after the edit, is published. This is
    /// so whether or not the edit changed anything.
    pub open spec fn edited(self, edit: SettingsEdit) -> StoreState {
        StoreState {
            settings: self.settings.edited(edit),
            published: self.published.push(self.settings.edited(edit)),
        }
    }

    /// The store after a run of edits, made in order.
    pub open spec fn edited_all(self, edits: Seq<SettingsEdit>) -> StoreState
        decreases edits.len(),
    {
        if edits.len() == 0 {
            self
        } else {
            self.edited_all(edits.drop_last()).edited(edits.last())
        }
    }
}

impl SettingsEdit {
    /// The value that this edit gives the interval of `kind`, if it sets that
    /// field.
    pub open spec fn sets_interval(self, kind: ReminderType) -> Option<u64> {
        match self {
            SettingsEdit::Interval(k, value) => if k == kind {
                Some(value)
            } else {
                None
            },
            SettingsEdit::Duration(_, _) => None,
        }
    }

    /// The value that this edit gives the duration of `kind`, if it sets that
    /// field.
    pub open spec fn sets_duration(self, kind: ReminderType) -> Option<u64> {
        match self {
            SettingsEdit::Interval(_, _) => None,
            SettingsEdit::Duration(k, value) => if k == kind {
                Some(value)
            } else {
                None
            },
        }
    }
}

/// The value that the last edit of the interval of `kind` among `edits` set,
/// if any of them set that field.
pub open spec fn last_interval_set(edits: Seq<SettingsEdit>, kind: ReminderType) -> Option<u64>
    decreases edits.len(),
{
    if edits.len() == 0 {
        None
    } else if edits.last().sets_interval(kind) is Some {
        edits.last().sets_interval(kind)
    } else {
        last_interval_set(edits.drop_last(), kind)
    }
}

/// The value that the last edit of the duration of `kind` among `edits` set,
/// if any of them set that field.
pub open spec fn last_duration_set(edits: Seq<SettingsEdit>, kind: ReminderType) -> Option<u64>
    decreases edits.len(),
{
    if edits.len() == 0 {
        None
    } else if edits.last().sets_duration(kind) is Some {
        edits.last().sets_duration(kind)
    } else {
        last_duration_set(edits.drop_last(), kind)
    }
}

/// The single source of truth for the settings. Every setter replaces one
/// field and publishes a snapshot of all settings on the store's change bus.
///
/// No value is rejected: an interval of zero makes the scheduler of that kind
/// fire on every poll, and a duration of zero asks for a reminder that is
/// taken down at once.
pub struct SettingsStore {
    settings: BlinkSettings,
    bus: ChangeBus,
}

impl View for SettingsStore {
    type V = StoreState;

    closed spec fn view(&self) -> StoreState {
        StoreState { settings: self.settings, published: self.bus.published() }
    }
}

impl SettingsStore {
    /// A store with the default settings, which has published nothing yet.
    pub fn new() -> (store: SettingsStore)
        ensures
            store@ == StoreState::initial(),
    {
        SettingsStore { settings: BlinkSettings::default(), bus: ChangeBus::new() }
    }

    /// A copy of all settings as they are now.
    pub fn snapshot(&self) -> (snapshot: BlinkSettings)
        ensures
            snapshot == self@.settings,
    {
        self.settings
    }

    /// The interval and the duration of `kind`, both read from the same state
    /// of the store.
    pub fn get(&self, kind: ReminderType) -> (pair: (u64, u64))
        ensures
            pair.0 == self@.settings.interval_of(kind),
            pair.1 == self@.settings.duration_of(kind),
    {
        (self.settings.interval(kind), self.settings.duration(kind))
    }

    /// Makes one edit: replaces the field it names, whatever the new value,
    /// and publishes one snapshot of the settings after it. Returns how many
    /// subscriptions the snapshot was handed to.
    pub fn apply(&mut self, edit: SettingsEdit) -> (subscribers: usize)
        ensures
            final(self)@ == old(self)@.edited(edit),
    {
        self.settings.apply(edit);
        self.bus.publish(self.settings)
    }

    /// Replaces the interval of `kind` and publishes the new settings. Returns
    /// how many subscriptions the snapshot was handed to.
    pub fn set_interval(&mut self, kind: ReminderType, value: u64) -> (subscribers: usize)
        ensures
            final(self)@ == old(self)@.edited(SettingsEdit::Interval(kind, value)),
    {
        self.apply(SettingsEdit::Interval(kind, value))
    }

    /// Replaces the duration of `kind` and publishes the new settings. Returns
    /// how many subscriptions the snapshot was handed to.
    pub fn set_duration(&mut self, kind: ReminderType, value: u64) -> (subscribers: usize)
        ensures
            final(self)@ == old(self)@.edited(SettingsEdit::Duration(kind, value)),
    {
        self.apply(SettingsEdit::Duration(kind, value))
    }

    /// A new subscription to this store's change bus. It yields the snapshots
    /// of the edits made after this call.
    pub fn subscribe(&self) -> (rx: Receiver<BlinkSettings>) {
        self.bus.subscribe()
    }

    /// The seconds that a reminder window opened with `props` stays open: the
    /// duration fixed in `props`, or else the duration now configured for its
    /// kind.
    pub fn window_seconds(&self, props: &ReminderWindowProps) -> (seconds: u64)
        ensures
            seconds == match props.duration {
                Some(fixed) => fixed,
                None => self@.settings.duration_of(props.kind),
            },
    {
        match props.duration {
            Some(fixed) => fixed,
            None => self.settings.duration(props.kind),
        }
    }
}

/// Get the current blink interval.
pub fn get_blink_interval(store: &SettingsStore) -> (seconds: u64)
    ensures
        seconds == store@.settings.blink_interval,
{
    store.settings.blink_interval
}

/// Get the current posture interval.
pub fn get_posture_interval(store: &SettingsStore) -> (seconds: u64)
    ensures
        seconds == store@.settings.posture_interval,
{
    store.settings.posture_interval
}

/// Set the blink interval and broadcast the change.
pub fn set_blink_interval(store: &mut SettingsStore, val: u64)
    ensures
        final(store)@ == old(store)@.edited(SettingsEdit::Interval(ReminderType::Blink, val)),
{
    store.set_interval(ReminderType::Blink, val);
}

/// Set the posture interval and broadcast the change.
pub fn set_posture_interval(store: &mut SettingsStore, val: u64)
    ensures
        final(store)@ == old(store)@.edited(SettingsEdit::Interval(ReminderType::Posture, val)),
{
    store.set_interval(ReminderType::Posture, val);
}

/// Get the current blink duration.
pub fn get_blink_duration(store: &SettingsStore) -> (seconds: u64)
    ensures
        seconds == store@.settings.blink_duration,
{
    store.settings.blink_duration
}

/// Get the current posture duration.
pub fn get_posture_duration(store: &SettingsStore) -> (seconds: u64)
    ensures
        seconds == store@.settings.posture_duration,
{
    store.settings.posture_duration
}

/// Set the blink duration and broadcast the change.
pub fn set_blink_duration(store: &mut SettingsStore, val: u64)
    ensures
        final(store)@ == old(store)@.edited(SettingsEdit::Duration(ReminderType::Blink, val)),
{
    store.set_duration(ReminderType::Blink, val);
}

/// Set the posture duration and broadcast the change.
pub fn set_posture_duration(store: &mut SettingsStore, val: u64)
    ensures
        final(store)@ == old(store)@.edited(SettingsEdit::Duration(ReminderType::Posture, val)),
{
    store.set_duration(ReminderType::Posture, val);
}

/// Listen for settings changes: a new subscription to the store's change bus.
pub fn settings_receiver(store: &SettingsStore) -> (rx: Receiver<BlinkSettings>) {
    store.subscribe()
}

} // verus!
