use blinkion::change_bus::{Polled, CHANNEL_CAPACITY};
use blinkion::reminder::{ReminderTrigger, ReminderType};
use blinkion::scheduler::{DrainReport, ReminderScheduler, Tick, DRAIN_LIMIT, POLL_PERIOD_MS};
use blinkion::shared_state::{
    set_blink_duration, set_blink_interval, set_posture_duration, set_posture_interval,
    settings_receiver, BlinkSettings, SettingsStore,
};

fn snapshot(bi: u64, bd: u64, pi: u64, pd: u64) -> BlinkSettings {
    BlinkSettings {
        blink_interval: bi,
        blink_duration: bd,
        posture_interval: pi,
        posture_duration: pd,
    }
}

fn quiet() -> DrainReport {
    DrainReport { received: 0, missed: 0, closed: false, caught_up: true }
}

/// Polls every poll period from `from` (exclusive) to `to` (inclusive) and
/// returns the times at which the scheduler fired, with the durations asked.
fn run(
    scheduler: &mut ReminderScheduler,
    rx: &mut tokio::sync::broadcast::Receiver<BlinkSettings>,
    from: u64,
    to: u64,
) -> Vec<(u64, u64)> {
    let mut fires = Vec::new();
    let mut now = from + POLL_PERIOD_MS;
    while now <= to {
        if let Some(trigger) = scheduler.tick(rx, now).fired {
            assert_eq!(trigger.kind, scheduler.kind);
            fires.push((now, trigger.duration_seconds));
        }
        now += POLL_PERIOD_MS;
    }
    fires
}

#[test]
fn constants_are_as_documented() {
    assert_eq!(POLL_PERIOD_MS, 100);
    assert_eq!(CHANNEL_CAPACITY, 16);
    assert_eq!(DRAIN_LIMIT, 64);
}

#[test]
fn scheduler_starts_from_the_settings_of_its_kind() {
    let settings = snapshot(1, 2, 3, 4);
    assert_eq!(
        ReminderScheduler::new(ReminderType::Blink, &settings, 77),
        ReminderScheduler { kind: ReminderType::Blink, interval: 1, duration: 2, last_trigger: 77 }
    );
    assert_eq!(
        ReminderScheduler::new(ReminderType::Posture, &settings, 78),
        ReminderScheduler { kind: ReminderType::Posture, interval: 3, duration: 4, last_trigger: 78 }
    );
}

#[test]
fn start_reads_the_store_and_subscribes() {
    let mut store = SettingsStore::new();
    set_posture_interval(&mut store, 45);
    let (mut scheduler, mut rx) = ReminderScheduler::start(&store, ReminderType::Posture, 500);
    assert_eq!(
        scheduler,
        ReminderScheduler { kind: ReminderType::Posture, interval: 45, duration: 5, last_trigger: 500 }
    );
    set_posture_duration(&mut store, 6);
    let report = scheduler.drain(&mut rx);
    assert_eq!(report, DrainReport { received: 1, missed: 0, closed: false, caught_up: true });
    assert_eq!(scheduler.duration, 6);
    assert_eq!(scheduler.interval, 45);
    assert_eq!(scheduler.last_trigger, 500);
}

#[test]
fn apply_takes_only_the_fields_of_its_kind() {
    let mut blink = ReminderScheduler::new(ReminderType::Blink, &snapshot(30, 3, 60, 5), 9);
    blink.apply(&snapshot(31, 4, 61, 6));
    assert_eq!(
        blink,
        ReminderScheduler { kind: ReminderType::Blink, interval: 31, duration: 4, last_trigger: 9 }
    );
    let mut posture = ReminderScheduler::new(ReminderType::Posture, &snapshot(30, 3, 60, 5), 9);
    posture.apply(&snapshot(31, 4, 61, 6));
    assert_eq!(
        posture,
        ReminderScheduler { kind: ReminderType::Posture, interval: 61, duration: 6, last_trigger: 9 }
    );
}

#[test]
fn fire_check_counts_whole_seconds() {
    let mut s = ReminderScheduler { kind: ReminderType::Blink, interval: 2, duration: 3, last_trigger: 1000 };
    assert_eq!(s.fire_check(2999), None);
    assert_eq!(s.last_trigger, 1000);
    assert_eq!(
        s.fire_check(3000),
        Some(ReminderTrigger { kind: ReminderType::Blink, duration_seconds: 3 })
    );
    assert_eq!(s.last_trigger, 3000);
    assert_eq!(s.fire_check(4999), None);
    assert_eq!(
        s.fire_check(5999),
        Some(ReminderTrigger { kind: ReminderType::Blink, duration_seconds: 3 })
    );
    assert_eq!(s.last_trigger, 5999);
}

#[test]
fn clock_reading_before_the_last_trigger_counts_as_no_time() {
    let mut s = ReminderScheduler { kind: ReminderType::Posture, interval: 1, duration: 5, last_trigger: 10_000 };
    assert_eq!(s.fire_check(0), None);
    assert_eq!(s.last_trigger, 10_000);
}

#[test]
fn interval_zero_fires_on_every_poll() {
    let mut s = ReminderScheduler { kind: ReminderType::Blink, interval: 0, duration: 3, last_trigger: 500 };
    let want = Some(ReminderTrigger { kind: ReminderType::Blink, duration_seconds: 3 });
    assert_eq!(s.fire_check(500), want);
    assert_eq!(s.fire_check(600), want);
    assert_eq!(s.last_trigger, 600);
    assert_eq!(s.fire_check(100), want);
    assert_eq!(s.last_trigger, 100);
}

#[test]
fn huge_interval_never_fires() {
    let mut s = ReminderScheduler { kind: ReminderType::Blink, interval: u64::MAX, duration: 3, last_trigger: 0 };
    assert_eq!(s.fire_check(u64::MAX), None);
    assert_eq!(s.last_trigger, 0);
}

#[test]
fn drain_report_notes_each_outcome() {
    let mut report = DrainReport::new();
    assert_eq!(report, DrainReport { received: 0, missed: 0, closed: false, caught_up: false });
    assert!(report.note(&Polled::Snapshot(snapshot(1, 2, 3, 4))));
    assert_eq!(report, DrainReport { received: 1, missed: 0, closed: false, caught_up: false });
    assert!(report.note(&Polled::Lagged(7)));
    assert_eq!(report, DrainReport { received: 1, missed: 7, closed: false, caught_up: false });
    assert!(report.note(&Polled::Lagged(u64::MAX)));
    assert_eq!(report.missed, u64::MAX);
    assert!(!report.note(&Polled::Empty));
    assert_eq!(report, DrainReport { received: 1, missed: u64::MAX, closed: false, caught_up: true });
    let mut other = DrainReport::new();
    assert!(!other.note(&Polled::Closed));
    assert_eq!(other, DrainReport { received: 0, missed: 0, closed: true, caught_up: true });
    let mut full = DrainReport { received: usize::MAX, missed: 0, closed: false, caught_up: false };
    assert!(full.note(&Polled::Snapshot(snapshot(1, 2, 3, 4))));
    assert_eq!(full.received, usize::MAX);
}

#[test]
fn drain_with_nothing_waiting_changes_nothing() {
    let store = SettingsStore::new();
    let (mut scheduler, mut rx) = ReminderScheduler::start(&store, ReminderType::Blink, 0);
    let before = scheduler;
    assert_eq!(scheduler.drain(&mut rx), quiet());
    assert_eq!(scheduler, before);
}

#[test]
fn drain_goes_by_the_last_snapshot() {
    let mut store = SettingsStore::new();
    let (mut scheduler, mut rx) = ReminderScheduler::start(&store, ReminderType::Blink, 0);
    set_blink_interval(&mut store, 10);
    set_blink_duration(&mut store, 4);
    set_blink_interval(&mut store, 20);
    let report = scheduler.drain(&mut rx);
    assert_eq!(report, DrainReport { received: 3, missed: 0, closed: false, caught_up: true });
    assert_eq!(
        scheduler,
        ReminderScheduler { kind: ReminderType::Blink, interval: 20, duration: 4, last_trigger: 0 }
    );
}

#[test]
fn drain_after_overflow_resynchronizes_to_the_latest() {
    let mut store = SettingsStore::new();
    let (mut scheduler, mut rx) = ReminderScheduler::start(&store, ReminderType::Posture, 0);
    for v in 1..=40u64 {
        set_posture_interval(&mut store, v);
    }
    let report = scheduler.drain(&mut rx);
    assert_eq!(report, DrainReport { received: 16, missed: 24, closed: false, caught_up: true });
    assert_eq!(scheduler.interval, 40);
    assert_eq!(scheduler.duration, 5);
}

#[test]
fn drain_reports_a_closed_bus() {
    let mut store = SettingsStore::new();
    let (mut scheduler, mut rx) = ReminderScheduler::start(&store, ReminderType::Blink, 0);
    set_blink_duration(&mut store, 9);
    drop(store);
    let report = scheduler.drain(&mut rx);
    assert_eq!(report, DrainReport { received: 1, missed: 0, closed: true, caught_up: true });
    assert_eq!(scheduler.duration, 9);
    assert_eq!(
        scheduler.drain(&mut rx),
        DrainReport { received: 0, missed: 0, closed: true, caught_up: true }
    );
}

#[test]
fn tick_uses_the_interval_in_force_after_the_drain() {
    let mut store = SettingsStore::new();
    let (mut scheduler, mut rx) = ReminderScheduler::start(&store, ReminderType::Blink, 0);
    set_blink_interval(&mut store, 1);
    set_blink_duration(&mut store, 7);
    let tick = scheduler.tick(&mut rx, 1000);
    assert_eq!(
        tick,
        Tick {
            fired: Some(ReminderTrigger { kind: ReminderType::Blink, duration_seconds: 7 }),
            drained: DrainReport { received: 2, missed: 0, closed: false, caught_up: true },
        }
    );
    assert_eq!(
        scheduler,
        ReminderScheduler { kind: ReminderType::Blink, interval: 1, duration: 7, last_trigger: 1000 }
    );
}

#[test]
fn fires_every_interval_within_one_poll_period() {
    let mut store = SettingsStore::new();
    set_blink_interval(&mut store, 2);
    let (mut scheduler, mut rx) = ReminderScheduler::start(&store, ReminderType::Blink, 0);
    let fires = run(&mut scheduler, &mut rx, 0, 6500);
    assert_eq!(fires, vec![(2000, 3), (4000, 3), (6000, 3)]);
}

#[test]
fn late_polls_delay_the_fire_by_less_than_a_poll_period() {
    let store = SettingsStore::new();
    let mut rx = settings_receiver(&store);
    let mut s = ReminderScheduler { kind: ReminderType::Blink, interval: 2, duration: 3, last_trigger: 50 };
    let fires = run(&mut s, &mut rx, 0, 4500);
    assert_eq!(fires, vec![(2100, 3), (4100, 3)]);
}

#[test]
fn defaults_blink_fires_once_by_31s_posture_once_by_61s() {
    let store = SettingsStore::new();
    let (mut blink, mut blink_rx) = ReminderScheduler::start(&store, ReminderType::Blink, 0);
    let (mut posture, mut posture_rx) = ReminderScheduler::start(&store, ReminderType::Posture, 0);
    let blink_fires = run(&mut blink, &mut blink_rx, 0, 31_000);
    let posture_fires = run(&mut posture, &mut posture_rx, 0, 31_000);
    assert_eq!(blink_fires, vec![(30_000, 3)]);
    assert_eq!(posture_fires, vec![]);
    let posture_fires = run(&mut posture, &mut posture_rx, 31_000, 61_000);
    assert_eq!(posture_fires, vec![(60_000, 5)]);
}

#[test]
fn shortened_interval_takes_effect_on_the_next_poll() {
    let mut store = SettingsStore::new();
    let (mut blink, mut rx) = ReminderScheduler::start(&store, ReminderType::Blink, 0);
    assert_eq!(run(&mut blink, &mut rx, 0, 10_000), vec![]);
    set_blink_interval(&mut store, 5);
    let fires = run(&mut blink, &mut rx, 10_000, 15_000);
    assert_eq!(fires, vec![(10_100, 3)]);
    assert_eq!(blink.interval, 5);
    assert_eq!(blink.last_trigger, 10_100);
}

#[test]
fn lengthened_interval_keeps_the_elapsed_time() {
    let mut store = SettingsStore::new();
    let (mut blink, mut rx) = ReminderScheduler::start(&store, ReminderType::Blink, 0);
    assert_eq!(run(&mut blink, &mut rx, 0, 20_000), vec![]);
    set_blink_interval(&mut store, 40);
    assert_eq!(run(&mut blink, &mut rx, 20_000, 45_000), vec![(40_000, 3)]);
}

#[test]
fn only_the_final_duration_is_ever_used() {
    let mut store = SettingsStore::new();
    let (mut posture, mut rx) = ReminderScheduler::start(&store, ReminderType::Posture, 0);
    set_posture_duration(&mut store, 5);
    set_posture_duration(&mut store, 8);
    let tick = posture.tick(&mut rx, 100);
    assert_eq!(tick.fired, None);
    assert_eq!(tick.drained.received, 2);
    assert_eq!(posture.duration, 8);
    let fires = run(&mut posture, &mut rx, 100, 61_000);
    assert_eq!(fires, vec![(60_000, 8)]);
}

#[test]
fn schedulers_converge_on_the_last_value_set() {
    let mut store = SettingsStore::new();
    let (mut blink, mut blink_rx) = ReminderScheduler::start(&store, ReminderType::Blink, 0);
    let (mut posture, mut posture_rx) = ReminderScheduler::start(&store, ReminderType::Posture, 0);
    set_blink_interval(&mut store, 100);
    set_posture_interval(&mut store, 200);
    set_blink_duration(&mut store, 10);
    set_blink_interval(&mut store, 300);
    set_posture_duration(&mut store, 20);
    blink.tick(&mut blink_rx, 100);
    posture.tick(&mut posture_rx, 100);
    assert_eq!((blink.interval, blink.duration), store.get(ReminderType::Blink));
    assert_eq!((posture.interval, posture.duration), store.get(ReminderType::Posture));
    assert_eq!((blink.interval, blink.duration), (300, 10));
    assert_eq!((posture.interval, posture.duration), (200, 20));
}

#[test]
fn firing_one_scheduler_leaves_the_other_alone() {
    let mut store = SettingsStore::new();
    set_blink_interval(&mut store, 1);
    let (mut blink, mut blink_rx) = ReminderScheduler::start(&store, ReminderType::Blink, 0);
    let (mut posture, mut posture_rx) = ReminderScheduler::start(&store, ReminderType::Posture, 0);
    let posture_before = posture;
    assert!(blink.tick(&mut blink_rx, 1000).fired.is_some());
    assert_eq!(posture, posture_before);
    assert_eq!(posture.tick(&mut posture_rx, 1000).fired, None);
    set_posture_interval(&mut store, 1);
    let blink_before = blink;
    assert!(posture.tick(&mut posture_rx, 1100).fired.is_some());
    assert_eq!(blink, blink_before);
    let tick = blink.tick(&mut blink_rx, 1100);
    assert_eq!(tick.fired, None);
    assert_eq!(tick.drained.received, 1);
    assert_eq!(blink, blink_before);
}
