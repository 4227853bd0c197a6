use tensleep::dac::types::VibrationPattern;
use tensleep::scheduler::{
    calc_timing, compute_timing_plan, Action, ProfileStep, Scheduler, SchedulerTiming, Tick,
    VibrateTiming, DAY, HOUR, MAX_INSTANT,
};
use tensleep::settings::{
    AlarmSettings, HeatSettings, Settings, TimeOfDay, VibrationSettings, WatchedSettings,
};

const MIDNIGHT: i64 = 1_705_276_800; // 2024-01-15T00:00:00Z

fn tod(h: u32, m: u32) -> TimeOfDay {
    TimeOfDay::from_hms(h, m, 0).unwrap()
}

fn settings(
    sleep: TimeOfDay,
    alarm: TimeOfDay,
    vibration: Option<VibrationSettings>,
    heat: Option<HeatSettings>,
) -> Settings {
    Settings {
        temp_profile: [-10, 10, 20],
        time_zone: "UTC".to_string(),
        sleep_time: sleep,
        alarm: AlarmSettings { time: alarm, vibration, heat },
    }
}

fn at(t: TimeOfDay) -> i64 {
    MIDNIGHT + t.secs as i64
}

#[test]
fn plan_for_the_documented_night() {
    let s = settings(tod(22, 0), tod(6, 30), None, None);
    let plan = compute_timing_plan(at(s.sleep_time), at(s.alarm.time), &s);
    let sleep = at(s.sleep_time);
    assert_eq!(
        plan.profile,
        vec![
            ProfileStep { at: sleep, temp: -10 },
            ProfileStep { at: sleep + 2 * HOUR + 50 * 60, temp: 10 },
            ProfileStep { at: sleep + 5 * HOUR + 40 * 60, temp: 20 },
        ]
    );
    assert_eq!(plan.profile_end_length, 2 * 3600 + 50 * 60);
    assert!(plan.vibrate_time.is_none());
}

#[test]
fn plan_actions_for_the_documented_night() {
    let s = settings(tod(22, 0), tod(6, 30), None, None);
    let sleep = at(s.sleep_time);
    let mut plan = compute_timing_plan(sleep, at(s.alarm.time), &s);
    let first = plan.poll(sleep, true);
    assert_eq!(first, vec![Action::SetTemperature { temp: -10, duration: 36000 }]);
    let last = plan.poll(sleep + 5 * HOUR + 40 * 60, true);
    assert_eq!(
        last,
        vec![
            Action::SetTemperature { temp: 10, duration: 36000 },
            Action::SetTemperature { temp: 20, duration: 10200 },
        ]
    );
    assert_eq!(plan.profile[0].at, sleep + DAY);
    assert_eq!(plan.profile[2].at, sleep + 5 * HOUR + 40 * 60 + DAY);
}

#[test]
fn heat_alarm_adds_a_fourth_step() {
    let heat = HeatSettings { temp: 100, offset: 1800 };
    let s = settings(tod(22, 0), tod(6, 30), None, Some(heat));
    let plan = compute_timing_plan(at(s.sleep_time), at(s.alarm.time), &s);
    let sleep = at(s.sleep_time);
    let alarm = at(s.alarm.time) + DAY;
    // 8h30m less 30m, in thirds of 2h40m
    assert_eq!(plan.profile.len(), 4);
    assert_eq!(plan.profile[1].at, sleep + 9600);
    assert_eq!(plan.profile[2].at, sleep + 19200);
    assert_eq!(plan.profile[3], ProfileStep { at: alarm - 1800, temp: 100 });
    assert_eq!(plan.profile_end_length, 1800);
    for w in plan.profile.windows(2) {
        assert!(w[0].at < w[1].at);
    }
}

#[test]
fn alarm_before_sleep_time_rolls_to_next_day() {
    let s = settings(tod(22, 0), tod(6, 30), None, None);
    let plan = compute_timing_plan(at(s.sleep_time), at(s.alarm.time), &s);
    let alarm = plan.profile[2].at + plan.profile_end_length as i64;
    assert_eq!(alarm, at(tod(6, 30)) + DAY);
}

#[test]
fn alarm_after_sleep_time_stays_same_day() {
    let s = settings(tod(1, 0), tod(9, 0), None, None);
    let plan = compute_timing_plan(at(s.sleep_time), at(s.alarm.time), &s);
    let alarm = plan.profile[2].at + plan.profile_end_length as i64;
    assert_eq!(alarm, at(tod(9, 0)));
    assert_eq!(plan.profile_end_length, 8 * 3600 / 3);
}

#[test]
fn vibration_timing_from_offset() {
    let v = VibrationSettings {
        pattern: VibrationPattern::Rise,
        intensity: 80,
        duration: 600,
        offset: 300,
    };
    let s = settings(tod(22, 0), tod(6, 30), Some(v), None);
    let plan = compute_timing_plan(at(s.sleep_time), at(s.alarm.time), &s);
    let fire = at(tod(6, 30)) + DAY - 300;
    assert_eq!(
        plan.vibrate_time,
        Some(VibrateTiming { clear: fire - 4 * HOUR, set: fire - 2 * HOUR, alarm: fire })
    );
}

#[test]
fn vibration_alarm_is_cleared_armed_and_advanced() {
    let v = VibrationSettings {
        pattern: VibrationPattern::Double,
        intensity: 50,
        duration: 600,
        offset: 0,
    };
    let s = settings(tod(22, 0), tod(6, 30), Some(v), None);
    let mut plan = compute_timing_plan(at(s.sleep_time), at(s.alarm.time), &s);
    let fire = at(tod(6, 30)) + DAY;
    let actions = plan.poll(fire - 2 * HOUR, true);
    assert_eq!(actions[0], Action::ClearAlarm);
    assert_eq!(actions[1], Action::SetAlarm { timestamp: fire as u64 });
    let vt = plan.vibrate_time.unwrap();
    assert_eq!(vt.alarm, fire + DAY);
    assert_eq!(vt.set, fire - 2 * HOUR + DAY);
    assert_eq!(vt.clear, fire - 4 * HOUR + DAY);
}

#[test]
fn nothing_advances_while_disconnected() {
    let s = settings(tod(22, 0), tod(6, 30), None, None);
    let mut plan = compute_timing_plan(at(s.sleep_time), at(s.alarm.time), &s);
    let before: SchedulerTiming = plan.clone();
    let actions = plan.poll(at(s.sleep_time) + 10 * HOUR, false);
    assert!(actions.is_empty());
    assert_eq!(plan.profile, before.profile);
    let caught_up = plan.poll(at(s.sleep_time) + 10 * HOUR, true);
    assert_eq!(caught_up.len(), 3);
}

#[test]
fn plan_in_a_named_zone() {
    let mut s = settings(tod(22, 0), tod(6, 30), None, None);
    s.time_zone = "America/Los_Angeles".to_string();
    // 2024-01-15T12:00:00Z is 04:00 on the 15th in Los Angeles (UTC-8)
    let plan = calc_timing(&s, MIDNIGHT + 12 * 3600).unwrap();
    let sleep = MIDNIGHT + DAY + 6 * 3600;
    assert_eq!(plan.profile[0].at, sleep);
    assert_eq!(plan.profile[1].at, sleep + 10200);
    assert_eq!(plan.profile_end_length, 10200);
}

#[test]
fn unknown_zone_gives_no_plan() {
    let mut s = settings(tod(22, 0), tod(6, 30), None, None);
    s.time_zone = "Nowhere/Atlantis".to_string();
    assert!(calc_timing(&s, MIDNIGHT).is_none());
}

#[test]
fn skipped_local_time_gives_no_plan() {
    let mut s = settings(tod(2, 30), tod(9, 0), None, None);
    s.time_zone = "America/New_York".to_string();
    // 2024-03-10: clocks jump from 02:00 to 03:00
    assert!(calc_timing(&s, 1_710_072_000).is_none());
}

#[test]
fn scheduler_plans_polls_and_replans() {
    let s = settings(tod(22, 0), tod(6, 30), None, None);
    let mut watched = WatchedSettings::new(s.clone());
    let mut scheduler = Scheduler::new(watched.clone());
    let sleep = at(s.sleep_time);
    assert!(matches!(scheduler.tick(watched.clone(), MIDNIGHT + 3600, true), Tick::Replanned { planned: true }));
    match scheduler.tick(watched.clone(), sleep, true) {
        Tick::Act(actions) => assert_eq!(actions, vec![Action::SetTemperature { temp: -10, duration: 36000 }]),
        other => panic!("unexpected {:?}", other),
    }
    match scheduler.tick(watched.clone(), sleep + 60, false) {
        Tick::Act(actions) => assert!(actions.is_empty()),
        other => panic!("unexpected {:?}", other),
    }
    let mut changed = s.clone();
    changed.temp_profile = [-20, 0, 20];
    watched.update(changed);
    assert!(matches!(scheduler.tick(watched.clone(), sleep + 120, true), Tick::Replanned { planned: true }));
    match scheduler.tick(watched.clone(), sleep + 120, true) {
        Tick::Act(actions) => assert_eq!(actions, vec![Action::SetTemperature { temp: -20, duration: 36000 }]),
        other => panic!("unexpected {:?}", other),
    }
}

#[test]
fn scheduler_idle_outside_planned_range() {
    let s = settings(tod(22, 0), tod(6, 30), None, None);
    let watched = WatchedSettings::new(s);
    let mut scheduler = Scheduler::new(watched.clone());
    assert!(matches!(scheduler.tick(watched, MAX_INSTANT + 1, true), Tick::Idle));
}

#[test]
fn scheduler_without_a_plan_keeps_trying() {
    let mut s = settings(tod(22, 0), tod(6, 30), None, None);
    s.time_zone = "Nowhere/Atlantis".to_string();
    let watched = WatchedSettings::new(s);
    let mut scheduler = Scheduler::new(watched.clone());
    assert!(matches!(scheduler.tick(watched.clone(), MIDNIGHT, true), Tick::Replanned { planned: false }));
    assert!(matches!(scheduler.tick(watched, MIDNIGHT, true), Tick::Replanned { planned: false }));
}
