//! The reminder scheduler: one polling state machine per reminder kind. On
//! every poll it first takes in the settings snapshots that have arrived on
//! its subscription, then fires if its interval has elapsed.

use vstd::prelude::*;
use crate::change_bus::{poll, Polled};
use crate::reminder::{ReminderTrigger, ReminderType};
use crate::shared_state::{BlinkSettings, SettingsStore};
use tokio::sync::broadcast::Receiver;

verus! {

/// The wait between two polls of a scheduler, in milliseconds.
pub const POLL_PERIOD_MS: u64 = 100;

/// The most reads of its subscription that a scheduler makes in one poll.
/// What is still waiting after that is taken in on the next poll.
pub const DRAIN_LIMIT: usize = 64;

/// The state of the scheduler of one reminder kind: the interval and duration
/// it currently goes by, in seconds, and the time of its last trigger, in
/// milliseconds on the caller's monotonic clock.
#[derive(Clone, Copy, Debug, PartialEq, Eq, Structural)]
pub struct ReminderScheduler {
    pub kind: ReminderType,
    pub interval: u64,
    pub duration: u64,
    pub last_trigger: u64,
}

/// What one drain of a subscription came across.
#[derive(Clone, Copy, Debug, PartialEq, Eq, Structural)]
pub struct DrainReport {
    /// How many snapshots were read.
    pub received: usize,
    /// How many snapshots were lost because the subscriber had fallen behind.
    pub missed: u64,
    /// Whether the bus turned out to be gone.
    pub closed: bool,
    /// Whether the drain read until nothing was waiting.
    pub caught_up: bool,
}

/// What one poll of a scheduler did.
#[derive(Clone, Copy, Debug, PartialEq, Eq, Structural)]
pub struct Tick {
    /// The reminder to show, if the scheduler fired.
    pub fired: Option<ReminderTrigger>,
    /// What the drain before the fire check came across.
    pub drained: DrainReport,
}

impl DrainReport {
    /// The report of a drain that has read nothing yet.
    pub open spec fn start() -> DrainReport {
        DrainReport { received: 0, missed: 0, closed: false, caught_up: false }
    }

    /// This report after one more read that found `polled`. Both counts stop
    /// at the largest value of their type.
    pub open spec fn noted(self, polled: Polled) -> DrainReport {
        match polled {
            Polled::Snapshot(_) => DrainReport {
                received: if self.received < usize::MAX {
                    (self.received + 1) as usize
                } else {
                    self.received
                },
                ..self
            },
            Polled::Lagged(n) => DrainReport {
                missed: if self.missed + n <= u64::MAX {
                    (self.missed + n) as u64
                } else {
                    u64::MAX
                },
                ..self
            },
            Polled::Empty => DrainReport { caught_up: true, ..self },
            Polled::Closed => DrainReport { closed: true, caught_up: true, ..self },
        }
    }

    /// Whether a drain goes on reading after it found `polled`: it stops once
    /// nothing is waiting.
    pub open spec fn goes_on(polled: Polled) -> bool {
        !(polled is Empty || polled is Closed)
    }

    /// The report of a drain whose reads found `outcomes`, in that order.
    pub open spec fn after(outcomes: Seq<Polled>) -> DrainReport
        decreases outcomes.len(),
    {
        if outcomes.len() == 0 {
            DrainReport::start()
        } else {
            DrainReport::after(outcomes.drop_last()).noted(outcomes.last())
        }
    }

    /// A report of nothing read.
    pub fn new() -> (report: DrainReport)
        ensures
            report == DrainReport::start(),
    {
        DrainReport { received: 0, missed: 0, closed: false, caught_up: false }
    }

    /// Records what one read found, and says whether to read again.
    pub fn note(&mut self, polled: &Polled) -> (more: bool)
        ensures
            *final(self) == old(self).noted(*polled),
            more == DrainReport::goes_on(*polled),
    {
        match polled {
            Polled::Snapshot(_) => {
                if self.received < usize::MAX {
                    self.received = self.received + 1;
                }
                true
            },
            Polled::Lagged(n) => {
                self.missed = self.missed.saturating_add(*n);
                true
            },
            Polled::Empty => {
                self.caught_up = true;
                false
            },
            Polled::Closed => {
                self.closed = true;
                self.caught_up = true;
                false
            },
        }
    }
}

/// The snapshots among what a run of reads found, in the order read.
pub open spec fn snapshots_in(outcomes: Seq<Polled>) -> Seq<BlinkSettings>
    decreases outcomes.len(),
{
    if outcomes.len() == 0 {
        Seq::empty()
    } else {
        match outcomes.last() {
            Polled::Snapshot(snapshot) => snapshots_in(outcomes.drop_last()).push(snapshot),
            _ => snapshots_in(outcomes.drop_last()),
        }
    }
}

/// Whether `outcomes` is what the reads of one whole drain can find: at least
/// one read and at most `DRAIN_LIMIT`, each but the last finding a snapshot or
/// a notice of lost ones, and the last finding that nothing is waiting unless
/// the limit cut the drain short.
pub open spec fn is_drain(outcomes: Seq<Polled>) -> bool {
    &&& 1 <= outcomes.len() <= DRAIN_LIMIT
    &&& forall|i: int| 0 <= i < outcomes.len() - 1 ==> DrainReport::goes_on(#[trigger] outcomes[i])
    &&& outcomes.len() < DRAIN_LIMIT ==> !DrainReport::goes_on(outcomes.last())
}

impl ReminderScheduler {
    /// The scheduler of `kind` as it starts at time `now`: it goes by the
    /// interval and duration that `settings` holds for its kind, and counts
    /// its first interval from `now`.
    pub open spec fn started(kind: ReminderType, settings: BlinkSettings, now: u64) -> ReminderScheduler {
        ReminderScheduler {
            kind,
            interval: settings.interval_of(kind),
            duration: settings.duration_of(kind),
            last_trigger: now,
        }
    }

    /// Whether this scheduler goes by the interval and duration that
    /// `settings` holds for its kind.
    pub open spec fn follows(self, settings: BlinkSettings) -> bool {
        &&& self.interval == settings.interval_of(self.kind)
        &&& self.duration == settings.duration_of(self.kind)
    }

    /// This scheduler going by another interval and duration. Its kind and
    /// its last trigger are unchanged.
    pub open spec fn retuned(self, interval: u64, duration: u64) -> ReminderScheduler {
        ReminderScheduler { interval, duration, ..self }
    }

    /// This scheduler after it took in `snapshot`: it goes by the two fields
    /// of its own kind and ignores the rest.
    pub open spec fn applied(self, snapshot: BlinkSettings) -> ReminderScheduler {
        self.retuned(snapshot.interval_of(self.kind), snapshot.duration_of(self.kind))
    }

    /// This scheduler after it took in `snapshots`, oldest first: the last one
    /// wins, and with none the scheduler is unchanged.
    pub open spec fn absorbed(self, snapshots: Seq<BlinkSettings>) -> ReminderScheduler {
        if snapshots.len() == 0 {
            self
        } else {
            self.applied(snapshots.last())
        }
    }

    /// The whole seconds between the last trigger and `now`; zero if the
    /// clock reads earlier than the last trigger.
    pub open spec fn elapsed_seconds(self, now: u64) -> int {
        if now >= self.last_trigger {
            (now - self.last_trigger) / 1000
        } else {
            0
        }
    }

    /// Whether a reminder is due at `now`: at least `interval` whole seconds
    /// have passed since the last trigger.
    pub open spec fn due(self, now: u64) -> bool {
        self.elapsed_seconds(now) >= self.interval
    }

    /// The reminder that the fire check at `now` asks for, if one is due. It
    /// carries the duration that the scheduler goes by at that moment.
    pub open spec fn firing(self, now: u64) -> Option<ReminderTrigger> {
        if self.due(now) {
            Some(ReminderTrigger { kind: self.kind, duration_seconds: self.duration })
        } else {
            None
        }
    }

    /// This scheduler after the fire check at `now`: if a reminder is due the
    /// next interval counts from `now`, else nothing changes.
    pub open spec fn checked(self, now: u64) -> ReminderScheduler {
        if self.due(now) {
            ReminderScheduler { last_trigger: now, ..self }
        } else {
            self
        }
    }

    /// This scheduler after one poll at `now` in which `snapshots` arrived:
    /// first the snapshots are taken in, then the fire check is made with the
    /// interval that holds after them.
    pub open spec fn polled(self, snapshots: Seq<BlinkSettings>, now: u64) -> ReminderScheduler {
        self.absorbed(snapshots).checked(now)
    }

    /// Whether a drain whose reads found `outcomes` brings this scheduler to
    /// `after` and gives `report`: the scheduler has taken in the snapshots
    /// among the outcomes, oldest first, and the report has noted every
    /// outcome.
    pub open spec fn drains_to(
        self,
        outcomes: Seq<Polled>,
        after: ReminderScheduler,
        report: DrainReport,
    ) -> bool {
        &&& is_drain(outcomes)
        &&& after == self.absorbed(snapshots_in(outcomes))
        &&& report == DrainReport::after(outcomes)
    }

    /// Whether a poll at `now` whose reads found `outcomes` brings this
    /// scheduler to `after` and gives `tick`: first the drain, then the fire
    /// check on what the drain left.
    pub open spec fn ticks_to(
        self,
        outcomes: Seq<Polled>,
        now: u64,
        after: ReminderScheduler,
        tick: Tick,
    ) -> bool {
        &&& is_drain(outcomes)
        &&& after == self.polled(snapshots_in(outcomes), now)
        &&& tick.fired == self.absorbed(snapshots_in(outcomes)).firing(now)
        &&& tick.drained == DrainReport::after(outcomes)
    }

    /// Starts the scheduler of `kind` at time `now` from the given settings.
    pub fn new(kind: ReminderType, settings: &BlinkSettings, now: u64) -> (scheduler: ReminderScheduler)
        ensures
            scheduler == ReminderScheduler::started(kind, *settings, now),
    {
        ReminderScheduler {
            kind,
            interval: settings.interval(kind),
            duration: settings.duration(kind),
            last_trigger: now,
        }
    }

    /// Starts the scheduler of `kind` at time `now` on `store`: it goes by the
    /// store's settings of this moment and holds a subscription for every
    /// edit made from now on.
    pub fn start(store: &SettingsStore, kind: ReminderType, now: u64) -> (started: (
        ReminderScheduler,
        Receiver<BlinkSettings>,
    ))
        ensures
            started.0 == ReminderScheduler::started(kind, store@.settings, now),
    {
        let rx = store.subscribe();
        let settings = store.snapshot();
        (ReminderScheduler::new(kind, &settings, now), rx)
    }

    /// Takes in one snapshot.
    pub fn apply(&mut self, snapshot: &BlinkSettings)
        ensures
            *final(self) == old(self).applied(*snapshot),
    {
        self.interval = snapshot.interval(self.kind);
        self.duration = snapshot.duration(self.kind);
    }

    /// The fire check at time `now`, in milliseconds on the clock that the
    /// scheduler was started on: if at least `interval` whole seconds have
    /// passed since the last trigger, asks for a reminder of the current
    /// duration and counts the next interval from `now`.
    pub fn fire_check(&mut self, now: u64) -> (fired: Option<ReminderTrigger>)
        ensures
            fired == old(self).firing(now),
            *final(self) == old(self).checked(now),
    {
        let elapsed: u64 = if now >= self.last_trigger {
            (now - self.last_trigger) / 1000
        } else {
            0
        };
        if elapsed >= self.interval {
            self.last_trigger = now;
            Some(ReminderTrigger { kind: self.kind, duration_seconds: self.duration })
        } else {
            None
        }
    }

    /// Takes in what is waiting on the subscription: reads until nothing is
    /// waiting, or `DRAIN_LIMIT` times, and goes by the last snapshot read. A
    /// notice of lost snapshots does not end the drain: the reads after it
    /// bring the snapshots that the channel still holds, the newest last.
    ///
    /// What the reads find is up to the channel. Whatever they find, the
    /// scheduler ends as it is after taking in the snapshots among them, and
    /// the report notes every outcome. So only the interval and the duration
    /// can change, and only if a snapshot was read.
    pub fn drain(&mut self, rx: &mut Receiver<BlinkSettings>) -> (report: DrainReport)
        ensures
            exists|outcomes: Seq<Polled>| #[trigger]
                old(self).drains_to(outcomes, *final(self), report),
            *final(self) == old(self).retuned(final(self).interval, final(self).duration),
            report.received == 0 ==> *final(self) == *old(self),
            report.received <= DRAIN_LIMIT,
            report.closed ==> report.caught_up,
    {
        let ghost before = *self;
        let ghost mut seen: Seq<Polled> = Seq::empty();
        let mut report = DrainReport::new();
        let mut budget: usize = DRAIN_LIMIT;
        let mut more = true;
        while more && budget > 0
            invariant
                seen.len() + budget == DRAIN_LIMIT,
                forall|i: int| 0 <= i < seen.len() - 1 ==> DrainReport::goes_on(#[trigger] seen[i]),
                seen.len() > 0 ==> more == DrainReport::goes_on(seen.last()),
                seen.len() == 0 ==> more,
                *self == before.absorbed(snapshots_in(seen)),
                report == DrainReport::after(seen),
                *self == before.retuned(self.interval, self.duration),
                report.received == 0 ==> *self == before,
                report.received <= seen.len(),
                report.closed ==> report.caught_up,
            decreases budget,
        {
            budget = budget - 1;
            let polled = poll(rx);
            proof {
                assert(seen.push(polled).drop_last() =~= seen);
                seen = seen.push(polled);
            }
            more = report.note(&polled);
            if let Polled::Snapshot(snapshot) = polled {
                self.apply(&snapshot);
            }
        }
        assert(before.drains_to(seen, *self, report));
        report
    }

    /// One poll at time `now`, in milliseconds on the clock that the
    /// scheduler was started on: takes in what is waiting on the
    /// subscription, then makes the fire check.
    ///
    /// Whatever arrived, the fire check is made with the interval in force
    /// after the drain, a trigger carries the duration in force after the
    /// drain, and the last trigger moves to `now` exactly when the scheduler
    /// fires.
    pub fn tick(&mut self, rx: &mut Receiver<BlinkSettings>, now: u64) -> (tick: Tick)
        ensures
            exists|outcomes: Seq<Polled>| #[trigger]
                old(self).ticks_to(outcomes, now, *final(self), tick),
            tick.fired == old(self).retuned(final(self).interval, final(self).duration).firing(now),
            *final(self) == old(self).retuned(final(self).interval, final(self).duration).checked(
                now,
            ),
            tick.drained.received == 0 ==> *final(self) == old(self).checked(now),
            tick.drained.received <= DRAIN_LIMIT,
            tick.drained.closed ==> tick.drained.caught_up,
    {
        let ghost before = *self;
        let drained = self.drain(rx);
        let ghost between = *self;
        let fired = self.fire_check(now);
        let tick = Tick { fired, drained };
        proof {
            let outcomes = choose|outcomes: Seq<Polled>| #[trigger]
                before.drains_to(outcomes, between, drained);
            assert(before.ticks_to(outcomes, now, *self, tick));
        }
        tick
    }
}

} // verus!
