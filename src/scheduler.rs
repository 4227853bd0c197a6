use vstd::prelude::*;

use crate::settings::{HeatSettings, Settings, TimeOfDay, VibrationSettings, WatchedSettings};

verus! {

/// One day, in seconds.
pub const DAY: i64 = 86400;

/// One hour, in seconds.
pub const HOUR: i64 = 3600;

/// How long every profile step but the last holds its temperature, in seconds.
pub const STEP_HOLD: u32 = 36000;

/// The latest instant (Unix seconds) the scheduler plans around.
pub const MAX_INSTANT: i64 = 1_000_000_000_000;

/// Bound on every instant a plan holds, however often it has been advanced.
pub const PLAN_LIMIT: i64 = 2_000_000_000_000;

/// When the vibration alarm is cleared, armed, and fires (Unix seconds).
#[derive(Clone, Copy, Debug, PartialEq, Eq, Structural)]
pub struct VibrateTiming {
    pub clear: i64,
    pub set: i64,
    pub alarm: i64,
}

/// One temperature step: from instant `at` (Unix seconds) the bed goes to `temp`.
#[derive(Clone, Copy, Debug, PartialEq, Eq, Structural)]
pub struct ProfileStep {
    pub at: i64,
    pub temp: i32,
}

/// A night's plan: the temperature steps, the vibration alarm, and how long
/// the last step holds.
#[derive(Clone, Debug)]
pub struct SchedulerTiming {
    pub vibrate_time: Option<VibrateTiming>,
    pub profile: Vec<ProfileStep>,
    /// seconds that the last step of the profile holds
    pub profile_end_length: u32,
}

/// What the scheduler asks of the device.
#[derive(Clone, Copy, Debug, PartialEq, Eq, Structural)]
pub enum Action {
    ClearAlarm,
    /// Arm the vibration alarm to fire at `timestamp` (Unix seconds).
    SetAlarm { timestamp: u64 },
    /// Set the temperature offset, then how long it holds.
    SetTemperature { temp: i32, duration: u32 },
}

/// The alarm belongs to the night that starts at the sleep instant: a
/// same-day alarm earlier than the sleep instant moves to the next day.
pub open spec fn alarm_instant(sleep: int, alarm_same_day: int) -> int {
    if alarm_same_day < sleep {
        alarm_same_day + DAY
    } else {
        alarm_same_day
    }
}

pub open spec fn heat_offset(heat: Option<HeatSettings>) -> int {
    match heat {
        Some(h) => h.offset as int,
        None => 0,
    }
}

/// `x / 3`, rounded toward zero.
pub open spec fn third(x: int) -> int {
    if x >= 0 {
        x / 3
    } else {
        -((-x) / 3)
    }
}

/// A third of the time from sleep to alarm, less the heat alarm's lead.
pub open spec fn step_length(sleep: int, alarm: int, heat: Option<HeatSettings>) -> int {
    third(alarm - sleep - heat_offset(heat))
}

pub open spec fn profile_plan(
    sleep: int,
    alarm: int,
    temps: Seq<i32>,
    heat: Option<HeatSettings>,
) -> Seq<ProfileStep> {
    let step = step_length(sleep, alarm, heat);
    let base = seq![
        ProfileStep { at: sleep as i64, temp: temps[0] },
        ProfileStep { at: (sleep + step) as i64, temp: temps[1] },
        ProfileStep { at: (sleep + 2 * step) as i64, temp: temps[2] },
    ];
    match heat {
        Some(h) => base.push(ProfileStep { at: (alarm - h.offset) as i64, temp: h.temp }),
        None => base,
    }
}

pub open spec fn vibrate_plan(alarm: int, vibration: Option<VibrationSettings>) -> Option<
    VibrateTiming,
> {
    match vibration {
        Some(v) => Some(
            VibrateTiming {
                clear: (alarm - v.offset - 4 * HOUR) as i64,
                set: (alarm - v.offset - 2 * HOUR) as i64,
                alarm: (alarm - v.offset) as i64,
            },
        ),
        None => None,
    }
}

pub open spec fn in_plan_range(t: i64) -> bool {
    -PLAN_LIMIT <= t <= PLAN_LIMIT
}

/// The duration the device is given for step `i` of `profile`.
pub open spec fn step_hold(profile: Seq<ProfileStep>, end_length: u32, i: int) -> u32 {
    if i == profile.len() - 1 {
        end_length
    } else {
        STEP_HOLD
    }
}

/// The temperature commands due at `now` among the first `n` steps, in step order.
pub open spec fn profile_actions(
    profile: Seq<ProfileStep>,
    end_length: u32,
    now: int,
    n: nat,
) -> Seq<Action>
    decreases n,
{
    if n == 0 {
        seq![]
    } else {
        let i = n - 1;
        let before = profile_actions(profile, end_length, now, (n - 1) as nat);
        if now >= profile[i].at {
            before.push(
                Action::SetTemperature { temp: profile[i].temp, duration: step_hold(profile, end_length, i) },
            )
        } else {
            before
        }
    }
}

/// A due step moves to the same time on the next day.
pub open spec fn advanced_step(s: ProfileStep, now: int) -> ProfileStep {
    if now >= s.at {
        ProfileStep { at: (s.at + DAY) as i64, temp: s.temp }
    } else {
        s
    }
}

pub open spec fn vibrate_actions(vt: Option<VibrateTiming>, now: int) -> Seq<Action> {
    match vt {
        Some(vt) => {
            let clear: Seq<Action> = if now >= vt.clear {
                seq![Action::ClearAlarm]
            } else {
                seq![]
            };
            if now >= vt.set {
                clear.push(Action::SetAlarm { timestamp: vt.alarm as u64 })
            } else {
                clear
            }
        },
        None => seq![],
    }
}

pub open spec fn advanced_vibrate(vt: Option<VibrateTiming>, now: int) -> Option<VibrateTiming> {
    match vt {
        Some(vt) => Some(
            VibrateTiming {
                clear: if now >= vt.clear {
                    (vt.clear + DAY) as i64
                } else {
                    vt.clear
                },
                set: if now >= vt.set {
                    (vt.set + DAY) as i64
                } else {
                    vt.set
                },
                alarm: if now >= vt.set {
                    (vt.alarm + DAY) as i64
                } else {
                    vt.alarm
                },
            },
        ),
        None => None,
    }
}

/// `after` is plan `before` polled at `now`, which issued `actions`.
pub open spec fn polled(
    before: SchedulerTiming,
    after: SchedulerTiming,
    now: int,
    connected: bool,
    actions: Seq<Action>,
) -> bool {
    &&& !connected ==> actions.len() == 0 && after == before
    &&& connected ==> actions == vibrate_actions(before.vibrate_time, now) + profile_actions(
        before.profile@,
        before.profile_end_length,
        now,
        before.profile@.len(),
    )
    &&& connected ==> after.vibrate_time == advanced_vibrate(before.vibrate_time, now)
    &&& connected ==> after.profile@ == before.profile@.map_values(
        |s: ProfileStep| advanced_step(s, now),
    )
    &&& after.profile_end_length == before.profile_end_length
}

impl SchedulerTiming {
    /// This is the plan for the night that starts at `sleep`, with the alarm at
    /// `alarm_same_day` on the same calendar day.
    pub open spec fn is_plan_for(self, sleep: int, alarm_same_day: int, settings: Settings) -> bool {
        let alarm = alarm_instant(sleep, alarm_same_day);
        &&& self.profile@ == profile_plan(
            sleep,
            alarm,
            settings.temp_profile@,
            settings.alarm.heat,
        )
        &&& self.vibrate_time == vibrate_plan(alarm, settings.alarm.vibration)
        &&& self.profile_end_length == alarm - self.profile@.last().at
    }

    pub open spec fn wf(&self) -> bool {
        &&& self.profile@.len() > 0
        &&& forall|i: int| 0 <= i < self.profile@.len() ==> in_plan_range(#[trigger] self.profile@[i].at)
        &&& match self.vibrate_time {
            Some(vt) => in_plan_range(vt.clear) && in_plan_range(vt.set) && 0 <= vt.alarm
                <= PLAN_LIMIT && vt.alarm == vt.set + 2 * HOUR,
            None => true,
        }
    }

    /// One pass of the scheduler at instant `now`: the commands that are due,
    /// in the order they are to be issued, with each due instant moved on by a
    /// day. While the device is not connected nothing is due and the plan
    /// stays as it is.
    pub fn poll(&mut self, now: i64, connected: bool) -> (actions: Vec<Action>)
        requires
            old(self).wf(),
            -MAX_INSTANT <= now <= MAX_INSTANT,
        ensures
            final(self).wf(),
            polled(*old(self), *final(self), now as int, connected, actions@),
    {
        let mut actions: Vec<Action> = Vec::new();
        if !connected {
            return actions;
        }
        match &mut self.vibrate_time {
            Some(vt) => {
                if now >= vt.clear {
                    actions.push(Action::ClearAlarm);
                    vt.clear = vt.clear + DAY;
                }
                if now >= vt.set {
                    actions.push(Action::SetAlarm { timestamp: vt.alarm as u64 });
                    vt.alarm = vt.alarm + DAY;
                    vt.set = vt.set + DAY;
                }
            },
            None => {},
        }
        let ghost vib = actions@;
        let ghost p0 = self.profile@;
        let end_length = self.profile_end_length;
        let pl = self.profile.len();
        let mut i: usize = 0;
        while i < pl
            invariant
                pl == p0.len(),
                self.profile@.len() == pl,
                0 <= i <= pl,
                self.profile_end_length == end_length,
                end_length == old(self).profile_end_length,
                p0 == old(self).profile@,
                self.vibrate_time == advanced_vibrate(old(self).vibrate_time, now as int),
                forall|j: int| 0 <= j < p0.len() ==> in_plan_range(#[trigger] p0[j].at),
                forall|j: int| 0 <= j < i ==> self.profile@[j] == advanced_step(p0[j], now as int),
                forall|j: int| 0 <= j < pl ==> in_plan_range(#[trigger] self.profile@[j].at),
                forall|j: int| i <= j < pl ==> self.profile@[j] == p0[j],
                vib == vibrate_actions(old(self).vibrate_time, now as int),
                actions@ == vib + profile_actions(p0, end_length, now as int, i as nat),
                -MAX_INSTANT <= now <= MAX_INSTANT,
            decreases pl - i,
        {
            let step = self.profile[i];
            if now >= step.at {
                let duration = if i == pl - 1 {
                    end_length
                } else {
                    STEP_HOLD
                };
                actions.push(Action::SetTemperature { temp: step.temp, duration });
                self.profile[i] = ProfileStep { at: step.at + DAY, temp: step.temp };
            }
            proof {
                assert(profile_actions(p0, end_length, now as int, (i + 1) as nat)
                    == if now >= p0[i as int].at {
                    profile_actions(p0, end_length, now as int, i as nat).push(
                        Action::SetTemperature {
                            temp: p0[i as int].temp,
                            duration: step_hold(p0, end_length, i as int),
                        },
                    )
                } else {
                    profile_actions(p0, end_length, now as int, i as nat)
                });
            }
            i = i + 1;
        }
        assert(self.profile@ =~= p0.map_values(|s: ProfileStep| advanced_step(s, now as int)));
        actions
    }
}

/// The plan for the night that starts at instant `sleep`, whose alarm is at
/// `alarm_same_day` on the same calendar day (moved to the next day when it
/// comes before `sleep`).
#[verifier::rlimit(40)]
pub fn compute_timing_plan(sleep: i64, alarm_same_day: i64, settings: &Settings) -> (r:
    SchedulerTiming)
    requires
        DAY <= sleep <= MAX_INSTANT,
        sleep - DAY < alarm_same_day < sleep + DAY,
    ensures
        r.wf(),
        r.is_plan_for(sleep as int, alarm_same_day as int, *settings),
{
    let mut alarm = alarm_same_day;
    if alarm < sleep {
        alarm = alarm + DAY;
    }
    let vibrate_time = match settings.alarm.vibration {
        Some(v) => {
            let fire = alarm - v.offset as i64;
            Some(VibrateTiming { clear: fire - 4 * HOUR, set: fire - 2 * HOUR, alarm: fire })
        },
        None => None,
    };
    let mut total = alarm - sleep;
    match settings.alarm.heat {
        Some(h) => {
            total = total - h.offset as i64;
        },
        None => {},
    }
    assert(total == alarm - sleep - heat_offset(settings.alarm.heat));
    assert(-65536 < total < DAY);
    let step = if total >= 0 {
        total / 3
    } else {
        -((-total) / 3)
    };
    assert(step == third(total as int));
    assert(-65536 < step <= total || (total < 0 && total <= step <= 0)) by {
        if total >= 0 {
            assert(0 <= total / 3 <= total);
        } else {
            assert(0 <= (-total) / 3 <= -total);
        }
    }
    assert(0 <= total - 2 * step || total < 0);
    let mut profile: Vec<ProfileStep> = Vec::new();
    profile.push(ProfileStep { at: sleep, temp: settings.temp_profile[0] });
    profile.push(ProfileStep { at: sleep + step, temp: settings.temp_profile[1] });
    profile.push(ProfileStep { at: sleep + step + step, temp: settings.temp_profile[2] });
    match settings.alarm.heat {
        Some(h) => {
            profile.push(ProfileStep { at: alarm - h.offset as i64, temp: h.temp });
        },
        None => {},
    }
    let last = profile[profile.len() - 1].at;
    let profile_end_length = (alarm - last) as u32;
    let r = SchedulerTiming { vibrate_time, profile, profile_end_length };
    assert(r.profile@ =~= profile_plan(
        sleep as int,
        alarm as int,
        settings.temp_profile@,
        settings.alarm.heat,
    ));
    r
}

/// The instant (Unix seconds) of the wall-clock time `secs_of_day` on the
/// calendar day that instant `now` falls on in time zone `zone`; none when the
/// zone is unknown or that wall-clock time is skipped or repeated there.
pub uninterp spec fn zone_wall_instant(zone: Seq<char>, now: i64, secs_of_day: u32) -> Option<i64>;

/// Relies on chrono-tz's `Tz` (parsed from its IANA name) for the zone rules,
/// and on chrono's `DateTime::with_time`, which keeps the local date of `now`
/// and replaces its time of day; only an unambiguous local time is taken.
#[verifier::external_body]
fn wall_instant(zone: &str, now: i64, secs_of_day: u32) -> (r: Option<i64>)
    ensures
        r == zone_wall_instant(zone@, now, secs_of_day),
{
    let tz: chrono_tz::Tz = zone.parse().ok()?;
    let time = chrono::NaiveTime::from_num_seconds_from_midnight_opt(secs_of_day, 0)?;
    let local = chrono::DateTime::from_timestamp(now, 0)?.with_timezone(&tz);
    local.with_time(time).single().map(|t| t.timestamp())
}

/// `r` is the plan for the night that starts on the day of `now`: present
/// exactly when the zone gives a single instant for the sleep and the alarm
/// time, within the planned range.
pub open spec fn timing_for(settings: Settings, now: i64, r: Option<SchedulerTiming>) -> bool {
    let sleep = zone_wall_instant(settings.time_zone@, now, settings.sleep_time.secs);
    let alarm = zone_wall_instant(settings.time_zone@, now, settings.alarm.time.secs);
    &&& r.is_some() <==> (sleep.is_some() && alarm.is_some() && DAY <= sleep.unwrap()
        <= MAX_INSTANT && sleep.unwrap() - DAY < alarm.unwrap() < sleep.unwrap() + DAY)
    &&& r.is_some() ==> r.unwrap().wf() && r.unwrap().is_plan_for(
        sleep.unwrap() as int,
        alarm.unwrap() as int,
        settings,
    )
}

/// The plan for the night that starts today, `now` being the current
/// instant: none when the zone does not give a single instant for the sleep or
/// the alarm time, or those instants lie outside the planned range.
pub fn calc_timing(settings: &Settings, now: i64) -> (r: Option<SchedulerTiming>)
    ensures
        timing_for(*settings, now, r),
{
    let sleep = match wall_instant(settings.time_zone.as_str(), now, settings.sleep_time.secs) {
        Some(t) => t,
        None => {
            return None;
        },
    };
    let alarm = match wall_instant(settings.time_zone.as_str(), now, settings.alarm.time.secs) {
        Some(t) => t,
        None => {
            return None;
        },
    };
    if DAY <= sleep && sleep <= MAX_INSTANT && sleep - DAY < alarm && alarm < sleep + DAY {
        Some(compute_timing_plan(sleep, alarm, settings))
    } else {
        None
    }
}

/// What one pass of the scheduler loop came to.
#[derive(Clone, Debug)]
pub enum Tick {
    /// The settings changed, or there was no plan: a plan was made from the
    /// current settings. When one could be made (`planned`), the pass is to
    /// be run again at once.
    Replanned { planned: bool },
    /// These commands are due, in this order.
    Act(Vec<Action>),
    /// The clock is outside the planned range: nothing is done.
    Idle,
}

/// The scheduler loop: the settings snapshot its plan was made from, and the
/// plan (none until one is made, or while the zone gives none).
pub struct Scheduler {
    snapshot: WatchedSettings,
    timing: Option<SchedulerTiming>,
}

impl Scheduler {
    pub closed spec fn snapshot_spec(&self) -> WatchedSettings {
        self.snapshot
    }

    pub closed spec fn timing_spec(&self) -> Option<SchedulerTiming> {
        self.timing
    }

    pub open spec fn wf(&self) -> bool {
        self.timing_spec().is_some() ==> self.timing_spec().unwrap().wf()
    }

    /// The snapshot `current` differs from the one the plan was made from.
    pub open spec fn changed(&self, current: WatchedSettings) -> bool {
        !(current.change_spec() == self.snapshot_spec().change_spec()
            && current.settings_spec().same(&self.snapshot_spec().settings_spec()))
    }

    /// A scheduler that has no plan yet.
    pub fn new(settings: WatchedSettings) -> (r: Scheduler)
        ensures
            r.wf(),
            r.snapshot_spec() == settings,
            r.timing_spec().is_none(),
    {
        Scheduler { snapshot: settings, timing: None }
    }

    /// One pass of the loop at instant `now`, given the current settings and
    /// whether the device is connected. Changed settings, or a missing plan,
    /// make a new plan from the current settings (and nothing else happens in
    /// that pass); otherwise the plan is polled.
    pub fn tick(&mut self, current: WatchedSettings, now: i64, connected: bool) -> (r: Tick)
        requires
            old(self).wf(),
        ensures
            final(self).wf(),
            !(-MAX_INSTANT <= now <= MAX_INSTANT) ==> r is Idle && final(self).snapshot_spec()
                == old(self).snapshot_spec() && final(self).timing_spec() == old(
                self,
            ).timing_spec(),
            (-MAX_INSTANT <= now <= MAX_INSTANT && (old(self).changed(current) || old(
                self,
            ).timing_spec().is_none())) ==> r is Replanned && final(self).snapshot_spec()
                == current && timing_for(current.settings_spec(), now, final(self).timing_spec())
                && r->planned == final(self).timing_spec().is_some(),
            (-MAX_INSTANT <= now <= MAX_INSTANT && !old(self).changed(current) && old(
                self,
            ).timing_spec().is_some()) ==> r is Act && final(self).snapshot_spec() == old(
                self,
            ).snapshot_spec() && final(self).timing_spec().is_some() && polled(
                old(self).timing_spec().unwrap(),
                final(self).timing_spec().unwrap(),
                now as int,
                connected,
                r->Act_0@,
            ),
    {
        if now < -MAX_INSTANT || now > MAX_INSTANT {
            return Tick::Idle;
        }
        if !current.same_as(&self.snapshot) || self.timing.is_none() {
            let timing = calc_timing(current.settings(), now);
            let planned = timing.is_some();
            self.snapshot = current;
            self.timing = timing;
            return Tick::Replanned { planned };
        }
        match &mut self.timing {
            Some(timing) => Tick::Act(timing.poll(now, connected)),
            None => Tick::Idle,
        }
    }
}

/// A plan has three temperature steps, or four when a heat alarm is set. The
/// last step holds from its instant up to the alarm, a span that is never
/// negative. When the time from sleep to alarm, less the heat alarm's lead,
/// is at least three seconds, the step instants strictly increase.
pub proof fn lemma_plan_shape(sleep: int, alarm_same_day: int, settings: Settings)
    requires
        DAY <= sleep <= MAX_INSTANT,
        sleep - DAY < alarm_same_day < sleep + DAY,
    ensures
        ({
            let alarm = alarm_instant(sleep, alarm_same_day);
            let p = profile_plan(sleep, alarm, settings.temp_profile@, settings.alarm.heat);
            &&& p.len() == if settings.alarm.heat.is_some() {
                4int
            } else {
                3int
            }
            &&& alarm - p.last().at >= 0
            &&& alarm - sleep - heat_offset(settings.alarm.heat) >= 3 ==> forall|i: int|
                0 <= i < p.len() - 1 ==> #[trigger] p[i].at < p[i + 1].at
        }),
{
    let alarm = alarm_instant(sleep, alarm_same_day);
    let total = alarm - sleep - heat_offset(settings.alarm.heat);
    let step = step_length(sleep, alarm, settings.alarm.heat);
    if total >= 0 {
        assert(0 <= step <= total / 3);
    } else {
        assert(total <= step <= 0);
    }
    if total >= 3 {
        assert(step >= 1);
        assert(total - 2 * step >= 1);
    }
}

/// With no zone transition during the day (every wall-clock time `t` falls at
/// `midnight + t`), an alarm whose time of day comes before the sleep time
/// rings one day after the alarm time on the sleep instant's date; otherwise
/// on that same date.
pub proof fn lemma_alarm_day(midnight: int, sleep_time: TimeOfDay, alarm_time: TimeOfDay)
    requires
        sleep_time.wf(),
        alarm_time.wf(),
    ensures
        alarm_instant(midnight + sleep_time.secs, midnight + alarm_time.secs) == midnight
            + alarm_time.secs + if alarm_time.secs < sleep_time.secs {
            DAY as int
        } else {
            0int
        },
{
}

/// A vibration alarm with lead `offset` fires `offset` seconds before the
/// alarm, is armed two hours before it fires and cleared four hours before.
pub proof fn lemma_vibrate_timing(alarm: int, v: VibrationSettings)
    requires
        -MAX_INSTANT <= alarm <= MAX_INSTANT,
    ensures
        ({
            let vt = vibrate_plan(alarm, Some(v)).unwrap();
            &&& vt.alarm == alarm - v.offset
            &&& vt.set == vt.alarm - 2 * HOUR
            &&& vt.clear == vt.alarm - 4 * HOUR
            &&& vt.clear <= vt.set <= vt.alarm <= alarm
        }),
{
}

} // verus!
