//! What holds across the store, the bus and the schedulers, for every run of
//! edits and every interleaving of polls.

use vstd::prelude::*;
use crate::reminder::{ReminderTrigger, ReminderType};
use crate::scheduler::ReminderScheduler;
use crate::shared_state::{
    last_duration_set, last_interval_set, BlinkSettings, SettingsEdit, StoreState,
};

verus! {

/// Every edit publishes exactly one snapshot. After a run of edits the store
/// has published one snapshot more per edit, what it had published before is
/// untouched, and the snapshot of each edit is a copy of the settings right
/// after that edit.
pub proof fn lemma_one_snapshot_per_edit(store: StoreState, edits: Seq<SettingsEdit>)
    ensures
        store.edited_all(edits).published.len() == store.published.len() + edits.len(),
        store.edited_all(edits).published.take(store.published.len() as int) == store.published,
        forall|k: int|
            store.published.len() <= k < store.published.len() + edits.len() ==> #[trigger] store.edited_all(
                edits,
            ).published[k] == store.edited_all(
                edits.take(k - store.published.len() + 1),
            ).settings,
    decreases edits.len(),
{
    let n = store.published.len() as int;
    let after = store.edited_all(edits);
    if edits.len() == 0 {
        assert(after.published.take(n) =~= store.published);
    } else {
        let front = edits.drop_last();
        lemma_one_snapshot_per_edit(store, front);
        let before = store.edited_all(front);
        assert(after.published.take(n) =~= before.published.take(n));
        assert forall|k: int| n <= k < n + edits.len() implies #[trigger] after.published[k]
            == store.edited_all(edits.take(k - n + 1)).settings by {
            if k < n + front.len() {
                assert(edits.take(k - n + 1) =~= front.take(k - n + 1));
                assert(after.published[k] == before.published[k]);
            } else {
                assert(edits.take(k - n + 1) =~= edits);
            }
        }
    }
}

/// The last snapshot a store has published is a copy of its settings: this
/// holds of a new store and of a store after any run of edits.
pub proof fn lemma_latest_snapshot_is_current(edits: Seq<SettingsEdit>)
    ensures
        edits.len() == 0 ==> StoreState::initial().edited_all(edits) == StoreState::initial(),
        edits.len() > 0 ==> StoreState::initial().edited_all(edits).published.last()
            == StoreState::initial().edited_all(edits).settings,
{
}

/// After a run of edits each field holds the value of the last edit that set
/// it, or its earlier value if no edit set it.
pub proof fn lemma_last_edit_wins(store: StoreState, edits: Seq<SettingsEdit>, kind: ReminderType)
    ensures
        store.edited_all(edits).settings.interval_of(kind) == match last_interval_set(edits, kind) {
            Some(value) => value,
            None => store.settings.interval_of(kind),
        },
        store.edited_all(edits).settings.duration_of(kind) == match last_duration_set(edits, kind) {
            Some(value) => value,
            None => store.settings.duration_of(kind),
        },
    decreases edits.len(),
{
    if edits.len() > 0 {
        lemma_last_edit_wins(store, edits.drop_last(), kind);
    }
}

/// Taking in snapshots over several polls comes to the same as taking them in
/// at once: within a drain and across drains, the last snapshot wins.
pub proof fn lemma_absorbed_in_parts(
    scheduler: ReminderScheduler,
    first: Seq<BlinkSettings>,
    second: Seq<BlinkSettings>,
)
    ensures
        scheduler.absorbed(first).absorbed(second) == scheduler.absorbed(first + second),
{
    if second.len() == 0 {
        assert(first + second =~= first);
    } else {
        assert((first + second).last() == second.last());
    }
}

/// The snapshots that a run of edits brings to a subscriber of `store`, in
/// order, when the oldest `lost` of them were overwritten before it read them.
pub open spec fn arriving(store: StoreState, edits: Seq<SettingsEdit>, lost: nat) -> Seq<
    BlinkSettings,
> {
    store.edited_all(edits).published.skip((store.published.len() + lost) as int)
}

/// Convergence. Take a scheduler that goes by the store's settings, as it
/// does when it starts, and let any run of edits be made. Once the scheduler
/// has taken in the snapshots of those edits it goes by the store's settings
/// again, so by the last value set for each of its two fields. This holds
/// also when the scheduler had fallen behind and the oldest `lost` of the
/// snapshots never reached it, as long as the newest one did.
pub proof fn lemma_scheduler_converges(
    store: StoreState,
    edits: Seq<SettingsEdit>,
    scheduler: ReminderScheduler,
    lost: nat,
    now: u64,
)
    requires
        scheduler.follows(store.settings),
        lost == 0 || lost < edits.len(),
    ensures
        scheduler.absorbed(arriving(store, edits, lost)).follows(store.edited_all(edits).settings),
        scheduler.polled(arriving(store, edits, lost), now).follows(store.edited_all(edits).settings),
        scheduler.polled(arriving(store, edits, lost), now).interval == match last_interval_set(edits, scheduler.kind) {
            Some(value) => value,
            None => scheduler.interval,
        },
        scheduler.polled(arriving(store, edits, lost), now).duration == match last_duration_set(edits, scheduler.kind) {
            Some(value) => value,
            None => scheduler.duration,
        },
{
    let after = store.edited_all(edits);
    let arrived = arriving(store, edits, lost);
    lemma_one_snapshot_per_edit(store, edits);
    lemma_last_edit_wins(store, edits, scheduler.kind);
    if edits.len() > 0 {
        assert(arrived.len() == edits.len() - lost);
        assert(arrived.last() == after.published.last());
        assert(edits.take(edits.len() as int) =~= edits);
        assert(after.published[store.published.len() + edits.len() - 1] == after.settings);
    }
}

/// One poll of the scheduler of one kind: the snapshots that arrived on its
/// subscription since its last poll, and the time of the poll.
pub struct PollEvent {
    pub kind: ReminderType,
    pub arrived: Seq<BlinkSettings>,
    pub now: u64,
}

/// The schedulers of the two kinds, side by side.
pub struct SchedulerPair {
    pub blink: ReminderScheduler,
    pub posture: ReminderScheduler,
}

impl SchedulerPair {
    /// The pair after one poll, made by the scheduler that the event names.
    pub open spec fn polled(self, event: PollEvent) -> SchedulerPair {
        match event.kind {
            ReminderType::Blink => SchedulerPair {
                blink: self.blink.polled(event.arrived, event.now),
                ..self
            },
            ReminderType::Posture => SchedulerPair {
                posture: self.posture.polled(event.arrived, event.now),
                ..self
            },
        }
    }

    /// The pair after a run of polls, in whatever order the two schedulers
    /// made them.
    pub open spec fn run(self, events: Seq<PollEvent>) -> SchedulerPair
        decreases events.len(),
    {
        if events.len() == 0 {
            self
        } else {
            self.run(events.drop_last()).polled(events.last())
        }
    }
}

/// One scheduler after the polls among `events` that are made in the place
/// of `kind`, as if the others had never happened.
pub open spec fn run_alone(
    scheduler: ReminderScheduler,
    kind: ReminderType,
    events: Seq<PollEvent>,
) -> ReminderScheduler
    decreases events.len(),
{
    if events.len() == 0 {
        scheduler
    } else if events.last().kind == kind {
        run_alone(scheduler, kind, events.drop_last()).polled(events.last().arrived, events.last().now)
    } else {
        run_alone(scheduler, kind, events.drop_last())
    }
}

/// Independence of the two schedulers. A poll of one, whether it fires or
/// not, leaves the other as it was; so after any interleaving of their polls
/// each scheduler is where its own polls alone would have brought it.
pub proof fn lemma_schedulers_are_independent(pair: SchedulerPair, events: Seq<PollEvent>)
    ensures
        pair.run(events).blink == run_alone(pair.blink, ReminderType::Blink, events),
        pair.run(events).posture == run_alone(pair.posture, ReminderType::Posture, events),
        forall|event: PollEvent|
            event.kind == ReminderType::Blink ==> (#[trigger] pair.polled(event)).posture
                == pair.posture,
        forall|event: PollEvent|
            event.kind == ReminderType::Posture ==> (#[trigger] pair.polled(event)).blink
                == pair.blink,
    decreases events.len(),
{
    if events.len() > 0 {
        lemma_schedulers_are_independent(pair, events.drop_last());
    }
}

/// A scheduler sees of a snapshot only the two fields of its own kind. An
/// edit of another kind's field does reach it, as every snapshot does, and
/// changes nothing: not what it goes by, not whether it fires, not the
/// reminder it asks for.
pub proof fn lemma_edit_of_other_kind_is_invisible(
    scheduler: ReminderScheduler,
    settings: BlinkSettings,
    edit: SettingsEdit,
    now: u64,
)
    requires
        edit.sets_interval(scheduler.kind) is None,
        edit.sets_duration(scheduler.kind) is None,
    ensures
        scheduler.applied(settings.edited(edit)) == scheduler.applied(settings),
        scheduler.applied(settings.edited(edit)).firing(now) == scheduler.applied(settings).firing(
            now,
        ),
        scheduler.follows(settings) ==> scheduler.polled(seq![settings.edited(edit)], now)
            == scheduler.checked(now),
{
    assert(seq![settings.edited(edit)].last() == settings.edited(edit));
}

/// When a reminder is due, in milliseconds: the fire check at `now` succeeds
/// exactly when `now` is at least `interval` seconds past the last trigger.
/// With an interval of zero that is at every poll, even one whose clock reads
/// earlier than the last trigger.
pub proof fn lemma_due_when_interval_elapsed(scheduler: ReminderScheduler, now: u64)
    ensures
        scheduler.due(now) <==> (scheduler.interval == 0 || now >= scheduler.last_trigger + 1000
            * scheduler.interval),
{
    if now >= scheduler.last_trigger {
        let gap = now - scheduler.last_trigger;
        let interval = scheduler.interval as int;
        assert(gap / 1000 >= interval <==> gap >= 1000 * interval) by (nonlinear_arith)
            requires
                gap >= 0,
        ;
    }
}

/// A scheduler that no snapshot reaches, after polls at the given times.
pub open spec fn polled_at(scheduler: ReminderScheduler, times: Seq<u64>) -> ReminderScheduler
    decreases times.len(),
{
    if times.len() == 0 {
        scheduler
    } else {
        polled_at(scheduler, times.drop_last()).polled(Seq::empty(), times.last())
    }
}

/// Fire timing. With no edit on the way, a scheduler does nothing on the
/// polls that come before its interval has elapsed, and fires on the first
/// poll at or after that moment, with the duration it goes by. If that poll
/// comes at most one poll period after an earlier poll or after the last
/// trigger, the reminder is less than one poll period late. The next interval
/// counts from the time of that poll.
pub proof fn lemma_fires_on_first_poll_after_interval(
    scheduler: ReminderScheduler,
    early: Seq<u64>,
    at: u64,
    period: u64,
)
    requires
        forall|i: int| 0 <= i < early.len() ==> !scheduler.due(#[trigger] early[i]),
        scheduler.due(at),
    ensures
        polled_at(scheduler, early) == scheduler,
        polled_at(scheduler, early.push(at)) == (ReminderScheduler { last_trigger: at, ..scheduler }),
        scheduler.firing(at) == Some(
            ReminderTrigger { kind: scheduler.kind, duration_seconds: scheduler.duration },
        ),
        scheduler.interval > 0 ==> at >= scheduler.last_trigger + 1000 * scheduler.interval,
        scheduler.interval > 0 && early.len() > 0 && early.last() <= at <= early.last() + period
            && scheduler.last_trigger <= early.last() ==> at < scheduler.last_trigger + 1000
            * scheduler.interval + period,
    decreases early.len(),
{
    lemma_due_when_interval_elapsed(scheduler, at);
    assert(Seq::<BlinkSettings>::empty().len() == 0);
    if early.len() > 0 {
        let front = early.drop_last();
        assert forall|i: int| 0 <= i < front.len() implies !scheduler.due(#[trigger] front[i]) by {
            assert(front[i] == early[i]);
        }
        lemma_fires_on_first_poll_after_interval(scheduler, front, at, period);
        assert(!scheduler.due(early[early.len() - 1]));
        lemma_due_when_interval_elapsed(scheduler, early.last());
        assert(early.push(at).drop_last() =~= early);
    } else {
        assert(early.push(at).drop_last() =~= early);
        assert(polled_at(scheduler, early.push(at).drop_last()) == scheduler);
    }
}

} // verus!
