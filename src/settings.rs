use vstd::prelude::*;

use crate::dac::types::VibrationPattern;
use crate::wire::{
    array, field, field_absent, field_of, int_in, items_view, keyed, lemma_entry_at, member,
    object, pairs_view, json_text, json_text_of, json_value, optional,
    parse_json, text_field, text_in, uint_field, uint_in, WireValue, WireView,
};

verus! {

/// Seconds in one day.
pub const DAY_SECS: u32 = 86400;

/// A wall-clock time of day, as whole seconds after midnight.
#[derive(Clone, Copy, Debug, PartialEq, Eq, Structural)]
pub struct TimeOfDay {
    pub secs: u32,
}

impl TimeOfDay {
    pub open spec fn wf(self) -> bool {
        self.secs < DAY_SECS
    }

    /// The time `hour:minute:second`, or `None` when a field is out of range.
    pub fn from_hms(hour: u32, minute: u32, second: u32) -> (r: Option<TimeOfDay>)
        ensures
            r.is_some() <==> (hour < 24 && minute < 60 && second < 60),
            r.is_some() ==> r.unwrap().secs == hour * 3600 + minute * 60 + second,
            r.is_some() ==> r.unwrap().wf(),
    {
        if hour < 24 && minute < 60 && second < 60 {
            Some(TimeOfDay { secs: hour * 3600 + minute * 60 + second })
        } else {
            None
        }
    }

    pub fn hour(&self) -> (r: u32)
        requires
            self.wf(),
        ensures
            r == self.secs / 3600,
            r < 24,
    {
        self.secs / 3600
    }

    pub fn minute(&self) -> (r: u32)
        ensures
            r == (self.secs % 3600) / 60,
            r < 60,
    {
        (self.secs % 3600) / 60
    }
}

/// The user's sleep and wake configuration.
#[derive(Clone, Debug)]
pub struct Settings {
    /// Offsets from the neutral temperature in tenths of a degree, one per
    /// third of the night.
    pub temp_profile: [i32; 3],
    /// IANA name of the time zone the times of day are read in.
    pub time_zone: String,
    pub sleep_time: TimeOfDay,
    pub alarm: AlarmSettings,
}

#[derive(Clone, Debug)]
pub struct AlarmSettings {
    pub time: TimeOfDay,
    pub vibration: Option<VibrationSettings>,
    pub heat: Option<HeatSettings>,
}

#[derive(Clone, Copy, Debug, PartialEq, Eq, Structural)]
pub struct VibrationSettings {
    pub pattern: VibrationPattern,
    /// 0 to 100
    pub intensity: u8,
    /// seconds
    pub duration: u16,
    /// seconds before the alarm time
    pub offset: u16,
}

impl VibrationSettings {
    /// The device payload that arms this vibration alarm to fire at
    /// `timestamp` (seconds of the Unix epoch).
    pub fn to_dac_alarm_settings(&self, timestamp: u64) -> (r: crate::dac::types::AlarmSettings)
        ensures
            r.pl == self.intensity,
            r.du == self.duration,
            r.pi@ == self.pattern.name(),
            r.tt == timestamp,
    {
        crate::dac::types::AlarmSettings {
            pl: self.intensity,
            du: self.duration,
            pi: self.pattern.to_string(),
            tt: timestamp,
        }
    }
}

#[derive(Clone, Copy, Debug, PartialEq, Eq, Structural)]
pub struct HeatSettings {
    /// temperature offset, tenths of a degree
    pub temp: i32,
    /// seconds before the alarm time
    pub offset: u16,
}

impl Settings {
    /// The two values hold the same settings.
    pub open spec fn same(&self, other: &Settings) -> bool {
        &&& self.temp_profile@ == other.temp_profile@
        &&& self.time_zone@ == other.time_zone@
        &&& self.sleep_time == other.sleep_time
        &&& self.alarm.time == other.alarm.time
        &&& self.alarm.vibration == other.alarm.vibration
        &&& self.alarm.heat == other.alarm.heat
    }

    pub fn same_as(&self, other: &Settings) -> (r: bool)
        ensures
            r == self.same(other),
    {
        let mut i: usize = 0;
        while i < 3
            invariant
                0 <= i <= 3,
                forall|j: int| 0 <= j < i ==> self.temp_profile@[j] == other.temp_profile@[j],
            decreases 3 - i,
        {
            if self.temp_profile[i] != other.temp_profile[i] {
                return false;
            }
            i = i + 1;
        }
        assert(self.temp_profile@ =~= other.temp_profile@);
        self.time_zone.eq(&other.time_zone) && self.sleep_time == other.sleep_time
            && self.alarm.time == other.alarm.time && self.alarm.vibration == other.alarm.vibration
            && self.alarm.heat == other.alarm.heat
    }
}

/// Settings together with the number of changes made to them; a scheduler
/// holds a snapshot and replans when the current value differs from it.
#[derive(Clone, Debug)]
pub struct WatchedSettings {
    settings: Settings,
    change: u64,
}

impl WatchedSettings {
    pub closed spec fn settings_spec(&self) -> Settings {
        self.settings
    }

    pub fn settings(&self) -> (r: &Settings)
        ensures
            *r == self.settings_spec(),
    {
        &self.settings
    }

    pub closed spec fn change_spec(&self) -> u64 {
        self.change
    }

    pub fn new(settings: Settings) -> (r: WatchedSettings)
        ensures
            r.settings_spec() == settings,
            r.change_spec() == 0,
    {
        WatchedSettings { settings, change: 0 }
    }

    pub fn get_change_number(&self) -> (r: u64)
        ensures
            r == self.change_spec(),
    {
        self.change
    }

    /// Replaces the settings as a whole, counting the change.
    pub fn update(&mut self, settings: Settings)
        requires
            old(self).change_spec() < u64::MAX,
        ensures
            final(self).settings_spec() == settings,
            final(self).change_spec() == old(self).change_spec() + 1,
    {
        self.settings = settings;
        self.change = self.change + 1;
    }

    /// The same settings, at the same change.
    pub fn same_as(&self, other: &WatchedSettings) -> (r: bool)
        ensures
            r == (self.change_spec() == other.change_spec() && self.settings_spec().same(
                &other.settings_spec(),
            )),
    {
        self.change == other.change && self.settings.same_as(&other.settings)
    }
}

/// Whether chrono-tz knows a time zone by this name.
pub uninterp spec fn zone_known(name: Seq<char>) -> bool;

/// Relies on chrono-tz's `Tz` parsed from its IANA name.
#[verifier::external_body]
fn zone_exists(name: &str) -> (r: bool)
    ensures
        r == zone_known(name@),
{
    name.parse::<chrono_tz::Tz>().is_ok()
}

/// The time of day (seconds after midnight) chrono reads from a text, as
/// "10:30 PM" or else as "22:30".
pub uninterp spec fn clock_time(text: Seq<char>) -> Option<u32>;

/// Relies on chrono's `NaiveTime::parse_from_str`, with the 12-hour format
/// first and the 24-hour one after; a time of day is less than a day.
#[verifier::external_body]
fn read_clock_time(text: &str) -> (r: Option<u32>)
    ensures
        r == clock_time(text@),
        r.is_some() ==> r.unwrap() < DAY_SECS,
{
    let parse = chrono::NaiveTime::parse_from_str;
    let time = parse(text, "%I:%M %p").or_else(|_| parse(text, "%H:%M")).ok()?;
    Some(chrono::Timelike::num_seconds_from_midnight(&time))
}

pub open spec fn two_digits(n: int) -> Seq<char> {
    seq![((48 + n / 10) as u8) as char, ((48 + n % 10) as u8) as char]
}

/// A time of day as "hh:mm AM" or "hh:mm PM", the hour from 01 to 12.
pub open spec fn clock_text(secs: int) -> Seq<char> {
    let h = secs / 3600;
    let m = (secs % 3600) / 60;
    let h12 = if h % 12 == 0 {
        12
    } else {
        h % 12
    };
    two_digits(h12) + seq![':'] + two_digits(m) + seq![' '] + if h < 12 {
        seq!['A', 'M']
    } else {
        seq!['P', 'M']
    }
}

/// Relies on chrono's `NaiveTime::format` with "%I:%M %p": the hour 01-12
/// and the minute, each in two digits, then "AM" or "PM".
#[verifier::external_body]
fn write_clock_time(t: TimeOfDay) -> (r: String)
    requires
        t.wf(),
    ensures
        r@ == clock_text(t.secs as int),
{
    let time = chrono::NaiveTime::from_num_seconds_from_midnight_opt(t.secs, 0).unwrap_or_default();
    time.format("%I:%M %p").to_string()
}

/// Why a settings document was refused.
#[derive(Clone, Copy, Debug, PartialEq, Eq, Structural)]
pub enum SettingsError {
    /// The text is no JSON document (or holds a fractional number).
    NotJson,
    /// A field is missing or holds a value of the wrong kind or range.
    BadField,
}

/// An integer of `i32`'s range.
pub open spec fn i32_in(w: Option<WireView>) -> Option<int> {
    int_in(w, i32::MIN as int, i32::MAX as int)
}

pub open spec fn temps_of(w: Option<WireView>) -> Option<Seq<i32>> {
    match w {
        Some(WireView::Array(xs)) => if xs.len() == 3 && forall|i: int|
            0 <= i < 3 ==> #[trigger] i32_in(Some(xs[i])).is_some() {
            Some(Seq::new(3, |i: int| i32_in(Some(xs[i])).unwrap() as i32))
        } else {
            None
        },
        _ => None,
    }
}

pub open spec fn pattern_of(w: Option<WireView>) -> Option<VibrationPattern> {
    if text_in(w) == Some("double"@) {
        Some(VibrationPattern::Double)
    } else if text_in(w) == Some("rise"@) {
        Some(VibrationPattern::Rise)
    } else {
        None
    }
}

pub open spec fn vibration_of(w: WireView) -> Option<VibrationSettings> {
    let pattern = pattern_of(field_of(w, "pattern"@));
    let intensity = uint_in(field_of(w, "intensity"@), 0xff);
    let duration = uint_in(field_of(w, "duration"@), 0xffff);
    let offset = uint_in(field_of(w, "offset"@), 0xffff);
    if pattern.is_some() && intensity.is_some() && duration.is_some() && offset.is_some() {
        Some(
            VibrationSettings {
                pattern: pattern.unwrap(),
                intensity: intensity.unwrap() as u8,
                duration: duration.unwrap() as u16,
                offset: offset.unwrap() as u16,
            },
        )
    } else {
        None
    }
}

pub open spec fn heat_of(w: WireView) -> Option<HeatSettings> {
    let temp = i32_in(field_of(w, "temp"@));
    let offset = uint_in(field_of(w, "offset"@), 0xffff);
    if temp.is_some() && offset.is_some() {
        Some(HeatSettings { temp: temp.unwrap() as i32, offset: offset.unwrap() as u16 })
    } else {
        None
    }
}

pub open spec fn clock_of(w: Option<WireView>) -> Option<u32> {
    match text_in(w) {
        Some(t) => clock_time(t),
        None => None,
    }
}

pub open spec fn alarm_of(w: WireView) -> Option<AlarmSettings> {
    let time = clock_of(field_of(w, "time"@));
    let vibration = optional(field_of(w, "vibration"@), vibration_of(member(w, "vibration"@)));
    let heat = optional(field_of(w, "heat"@), heat_of(member(w, "heat"@)));
    if time.is_some() && vibration.is_some() && heat.is_some() && field_of(w, "time"@).is_some() {
        Some(
            AlarmSettings {
                time: TimeOfDay { secs: time.unwrap() },
                vibration: vibration.unwrap(),
                heat: heat.unwrap(),
            },
        )
    } else {
        None
    }
}

/// `v` is a settings document: every field present, of its kind and range,
/// with a known zone and readable times.
pub open spec fn settings_valid(v: WireView) -> bool {
    &&& temps_of(field_of(v, "temp_profile"@)).is_some()
    &&& text_in(field_of(v, "time_zone"@)).is_some()
    &&& zone_known(text_in(field_of(v, "time_zone"@)).unwrap())
    &&& clock_of(field_of(v, "sleep_time"@)).is_some()
    &&& field_of(v, "alarm"@).is_some()
    &&& alarm_of(member(v, "alarm"@)).is_some()
}

impl Settings {
    /// The settings hold exactly what document `v` says.
    pub open spec fn decodes_from(&self, v: WireView) -> bool {
        &&& temps_of(field_of(v, "temp_profile"@)) == Some(self.temp_profile@)
        &&& text_in(field_of(v, "time_zone"@)) == Some(self.time_zone@)
        &&& clock_of(field_of(v, "sleep_time"@)) == Some(self.sleep_time.secs)
        &&& alarm_of(member(v, "alarm"@)) == Some(self.alarm)
    }
}

pub open spec fn text_key(k: Seq<char>, v: WireView) -> (WireView, WireView) {
    (WireView::Text(k), v)
}

pub open spec fn vibration_doc(v: VibrationSettings) -> WireView {
    WireView::Object(
        seq![
            text_key("pattern"@, WireView::Text(v.pattern.name())),
            text_key("intensity"@, WireView::Int(v.intensity as int)),
            text_key("duration"@, WireView::Int(v.duration as int)),
            text_key("offset"@, WireView::Int(v.offset as int)),
        ],
    )
}

pub open spec fn heat_doc(h: HeatSettings) -> WireView {
    WireView::Object(
        seq![
            text_key("temp"@, WireView::Int(h.temp as int)),
            text_key("offset"@, WireView::Int(h.offset as int)),
        ],
    )
}

pub open spec fn alarm_doc(a: AlarmSettings) -> WireView {
    WireView::Object(
        seq![
            text_key("time"@, WireView::Text(clock_text(a.time.secs as int))),
            text_key(
                "vibration"@,
                match a.vibration {
                    Some(v) => vibration_doc(v),
                    None => WireView::Null,
                },
            ),
            text_key(
                "heat"@,
                match a.heat {
                    Some(h) => heat_doc(h),
                    None => WireView::Null,
                },
            ),
        ],
    )
}

/// The document a settings value is stored as.
pub open spec fn settings_doc(s: Settings) -> WireView {
    WireView::Object(
        seq![
            text_key(
                "temp_profile"@,
                WireView::Array(
                    seq![
                        WireView::Int(s.temp_profile@[0] as int),
                        WireView::Int(s.temp_profile@[1] as int),
                        WireView::Int(s.temp_profile@[2] as int),
                    ],
                ),
            ),
            text_key("time_zone"@, WireView::Text(s.time_zone@)),
            text_key("sleep_time"@, WireView::Text(clock_text(s.sleep_time.secs as int))),
            text_key("alarm"@, alarm_doc(s.alarm)),
        ],
    )
}

fn vibration_value(v: &VibrationSettings) -> (r: WireValue)
    ensures
        r@ == vibration_doc(*v),
{
    let mut es: Vec<(WireValue, WireValue)> = Vec::new();
    es.push(keyed("pattern", WireValue::Text(v.pattern.to_string())));
    es.push(keyed("intensity", WireValue::Int(v.intensity as i128)));
    es.push(keyed("duration", WireValue::Int(v.duration as i128)));
    es.push(keyed("offset", WireValue::Int(v.offset as i128)));
    let r = object(es);
    assert(pairs_view(es@) =~= vibration_doc(*v)->Object_0);
    r
}

fn heat_value(h: &HeatSettings) -> (r: WireValue)
    ensures
        r@ == heat_doc(*h),
{
    let mut es: Vec<(WireValue, WireValue)> = Vec::new();
    es.push(keyed("temp", WireValue::Int(h.temp as i128)));
    es.push(keyed("offset", WireValue::Int(h.offset as i128)));
    let r = object(es);
    assert(pairs_view(es@) =~= heat_doc(*h)->Object_0);
    r
}

fn alarm_value(a: &AlarmSettings) -> (r: WireValue)
    requires
        a.time.wf(),
    ensures
        r@ == alarm_doc(*a),
{
    let mut es: Vec<(WireValue, WireValue)> = Vec::new();
    es.push(keyed("time", WireValue::Text(write_clock_time(a.time))));
    let vibration = match &a.vibration {
        Some(v) => vibration_value(v),
        None => WireValue::Null,
    };
    es.push(keyed("vibration", vibration));
    let heat = match &a.heat {
        Some(h) => heat_value(h),
        None => WireValue::Null,
    };
    es.push(keyed("heat", heat));
    let r = object(es);
    assert(pairs_view(es@) =~= alarm_doc(*a)->Object_0);
    r
}

impl Settings {
    /// The JSON text the settings are stored as; none when a time of day is
    /// not within the day.
    pub fn serialize(&self) -> (r: Option<String>)
        ensures
            !(self.sleep_time.wf() && self.alarm.time.wf()) ==> r.is_none(),
            self.sleep_time.wf() && self.alarm.time.wf() ==> r.is_some() == json_text_of(
                settings_doc(*self),
            ).is_some() && (r.is_some() ==> r.unwrap()@ == json_text_of(
                settings_doc(*self),
            ).unwrap()),
    {
        if !(self.sleep_time.secs < DAY_SECS && self.alarm.time.secs < DAY_SECS) {
            return None;
        }
        let mut temps: Vec<WireValue> = Vec::new();
        temps.push(WireValue::Int(self.temp_profile[0] as i128));
        temps.push(WireValue::Int(self.temp_profile[1] as i128));
        temps.push(WireValue::Int(self.temp_profile[2] as i128));
        let profile = array(temps);
        assert(items_view(temps@) =~= seq![
            WireView::Int(self.temp_profile@[0] as int),
            WireView::Int(self.temp_profile@[1] as int),
            WireView::Int(self.temp_profile@[2] as int),
        ]);
        let mut es: Vec<(WireValue, WireValue)> = Vec::new();
        es.push(keyed("temp_profile", profile));
        es.push(keyed("time_zone", WireValue::Text(self.time_zone.clone())));
        es.push(keyed("sleep_time", WireValue::Text(write_clock_time(self.sleep_time))));
        es.push(keyed("alarm", alarm_value(&self.alarm)));
        let doc = object(es);
        assert(pairs_view(es@) =~= settings_doc(*self)->Object_0);
        json_text(&doc)
    }
}

/// The document written for a settings value reads back as that value,
/// wherever its zone is known and chrono reads each written time of day back
/// as that time (as it does for whole minutes).
pub proof fn lemma_document_round_trip(s: Settings)
    requires
        zone_known(s.time_zone@),
        clock_time(clock_text(s.sleep_time.secs as int)) == Some(s.sleep_time.secs),
        clock_time(clock_text(s.alarm.time.secs as int)) == Some(s.alarm.time.secs),
    ensures
        settings_valid(settings_doc(s)),
        s.decodes_from(settings_doc(s)),
{
    reveal_strlit("temp_profile");
    reveal_strlit("time_zone");
    reveal_strlit("sleep_time");
    reveal_strlit("alarm");
    reveal_strlit("time");
    reveal_strlit("vibration");
    reveal_strlit("heat");
    reveal_strlit("pattern");
    reveal_strlit("intensity");
    reveal_strlit("duration");
    reveal_strlit("offset");
    reveal_strlit("temp");
    reveal_strlit("double");
    reveal_strlit("rise");
    assert("temp_profile"@.len() == 12 && "time_zone"@.len() == 9 && "sleep_time"@.len() == 10);
    assert("time"@.len() == 4 && "vibration"@.len() == 9 && "heat"@[0] != "time"@[0]);
    assert("pattern"@.len() == 7 && "intensity"@.len() == 9 && "duration"@.len() == 8);
    assert("offset"@.len() == 6 && "temp"@.len() == 4);
    let d = settings_doc(s)->Object_0;
    lemma_entry_at(d, "temp_profile"@, 0);
    lemma_entry_at(d, "time_zone"@, 1);
    lemma_entry_at(d, "sleep_time"@, 2);
    lemma_entry_at(d, "alarm"@, 3);
    let temps = seq![
        WireView::Int(s.temp_profile@[0] as int),
        WireView::Int(s.temp_profile@[1] as int),
        WireView::Int(s.temp_profile@[2] as int),
    ];
    assert(forall|i: int| 0 <= i < 3 ==> #[trigger] i32_in(Some(temps[i])).is_some());
    assert(temps_of(Some(WireView::Array(temps))).unwrap() =~= s.temp_profile@);
    let a = alarm_doc(s.alarm)->Object_0;
    lemma_entry_at(a, "time"@, 0);
    lemma_entry_at(a, "vibration"@, 1);
    lemma_entry_at(a, "heat"@, 2);
    match s.alarm.vibration {
        Some(v) => {
            let e = vibration_doc(v)->Object_0;
            lemma_entry_at(e, "pattern"@, 0);
            lemma_entry_at(e, "intensity"@, 1);
            lemma_entry_at(e, "duration"@, 2);
            lemma_entry_at(e, "offset"@, 3);
            assert("double"@.len() == 6 && "rise"@.len() == 4);
            assert(pattern_of(Some(WireView::Text(v.pattern.name()))) == Some(v.pattern));
            assert(vibration_of(vibration_doc(v)) == Some(v));
        },
        None => {},
    }
    match s.alarm.heat {
        Some(h) => {
            let e = heat_doc(h)->Object_0;
            lemma_entry_at(e, "temp"@, 0);
            lemma_entry_at(e, "offset"@, 1);
            assert(heat_of(heat_doc(h)) == Some(h));
        },
        None => {},
    }
    assert(alarm_of(alarm_doc(s.alarm)) == Some(s.alarm));
}

fn i32_value(w: &WireValue) -> (r: Option<i32>)
    ensures
        r.is_some() == i32_in(Some(w@)).is_some(),
        r.is_some() ==> i32_in(Some(w@)) == Some(r.unwrap() as int),
{
    match w {
        WireValue::Int(n) => {
            if i32::MIN as i128 <= *n && *n <= i32::MAX as i128 {
                Some(*n as i32)
            } else {
                None
            }
        },
        _ => None,
    }
}

fn parse_temps(v: &WireValue) -> (r: Option<[i32; 3]>)
    ensures
        r.is_some() == temps_of(field_of(v@, "temp_profile"@)).is_some(),
        r.is_some() ==> temps_of(field_of(v@, "temp_profile"@)) == Some(r.unwrap()@),
{
    let w = match field(v, &"temp_profile".to_owned()) {
        Some(w) => w,
        None => {
            return None;
        },
    };
    match w {
        WireValue::Array(xs) => {
            let ghost ws = w@->Array_0;
            if xs.len() != 3 {
                return None;
            }
            assert(ws[0] == xs@[0]@ && ws[1] == xs@[1]@ && ws[2] == xs@[2]@);
            let a = match i32_value(&xs[0]) {
                Some(a) => a,
                None => {
                    return None;
                },
            };
            let b = match i32_value(&xs[1]) {
                Some(b) => b,
                None => {
                    return None;
                },
            };
            let c = match i32_value(&xs[2]) {
                Some(c) => c,
                None => {
                    return None;
                },
            };
            let r = [a, b, c];
            proof {
                assert(forall|i: int| 0 <= i < 3 ==> #[trigger] i32_in(Some(ws[i])).is_some()) by {
                    assert(i32_in(Some(ws[0])).is_some());
                    assert(i32_in(Some(ws[1])).is_some());
                    assert(i32_in(Some(ws[2])).is_some());
                }
                let t = temps_of(Some(w@)).unwrap();
                assert(t[0] == a && t[1] == b && t[2] == c);
                assert(r@[0] == a && r@[1] == b && r@[2] == c);
                assert(t =~= r@);
            }
            Some(r)
        },
        _ => None,
    }
}

fn parse_vibration(w: &WireValue) -> (r: Option<VibrationSettings>)
    ensures
        r == vibration_of(w@),
{
    let pattern_text = text_field(w, &"pattern".to_owned());
    let pattern = match pattern_text {
        Some(t) => {
            if t.eq(&"double".to_owned()) {
                VibrationPattern::Double
            } else if t.eq(&"rise".to_owned()) {
                VibrationPattern::Rise
            } else {
                return None;
            }
        },
        None => {
            return None;
        },
    };
    let intensity = uint_field(w, &"intensity".to_owned(), 0xff)?;
    let duration = uint_field(w, &"duration".to_owned(), 0xffff)?;
    let offset = uint_field(w, &"offset".to_owned(), 0xffff)?;
    Some(
        VibrationSettings {
            pattern,
            intensity: intensity as u8,
            duration: duration as u16,
            offset: offset as u16,
        },
    )
}

fn parse_heat(w: &WireValue) -> (r: Option<HeatSettings>)
    ensures
        r == heat_of(w@),
{
    let temp_key = "temp".to_owned();
    let temp = match field(w, &temp_key) {
        Some(t) => i32_value(t)?,
        None => {
            return None;
        },
    };
    let offset = uint_field(w, &"offset".to_owned(), 0xffff)?;
    Some(HeatSettings { temp, offset: offset as u16 })
}

fn parse_clock(v: &WireValue, key: &str) -> (r: Option<TimeOfDay>)
    ensures
        r.is_some() == clock_of(field_of(v@, key@)).is_some(),
        r.is_some() ==> clock_of(field_of(v@, key@)) == Some(r.unwrap().secs),
        r.is_some() ==> r.unwrap().wf(),
{
    let text = text_field(v, &key.to_owned())?;
    let secs = read_clock_time(text.as_str())?;
    Some(TimeOfDay { secs })
}

fn parse_alarm(w: &WireValue) -> (r: Option<AlarmSettings>)
    ensures
        r.is_some() == alarm_of(w@).is_some(),
        r.is_some() ==> alarm_of(w@) == Some(r.unwrap()),
{
    let time = parse_clock(w, "time")?;
    let vibration_key = "vibration".to_owned();
    let vibration = if field_absent(w, &vibration_key) {
        None
    } else {
        match field(w, &vibration_key) {
            Some(x) => Some(parse_vibration(x)?),
            None => {
                return None;
            },
        }
    };
    let heat_key = "heat".to_owned();
    let heat = if field_absent(w, &heat_key) {
        None
    } else {
        match field(w, &heat_key) {
            Some(x) => Some(parse_heat(x)?),
            None => {
                return None;
            },
        }
    };
    Some(AlarmSettings { time, vibration, heat })
}

impl Settings {
    /// Reads a settings document from its JSON text.
    pub fn from_str(json: &str) -> (r: Result<Settings, SettingsError>)
        ensures
            json_value(json@).is_none() ==> r == Err::<Settings, SettingsError>(
                SettingsError::NotJson,
            ),
            json_value(json@).is_some() ==> (r is Ok <==> settings_valid(json_value(json@).unwrap())),
            json_value(json@).is_some() && r is Err ==> r == Err::<Settings, SettingsError>(
                SettingsError::BadField,
            ),
            r is Ok ==> r->Ok_0.decodes_from(json_value(json@).unwrap()),
    {
        let v = match parse_json(json) {
            Some(v) => v,
            None => {
                return Err(SettingsError::NotJson);
            },
        };
        match Self::from_document(&v) {
            Some(s) => Ok(s),
            None => Err(SettingsError::BadField),
        }
    }

    fn from_document(v: &WireValue) -> (r: Option<Settings>)
        ensures
            r.is_some() == settings_valid(v@),
            r.is_some() ==> r.unwrap().decodes_from(v@),
    {
        let temp_profile = parse_temps(v)?;
        let time_zone = text_field(v, &"time_zone".to_owned())?;
        if !zone_exists(time_zone.as_str()) {
            return None;
        }
        let sleep_time = parse_clock(v, "sleep_time")?;
        let alarm = match field(v, &"alarm".to_owned()) {
            Some(a) => parse_alarm(a)?,
            None => {
                return None;
            },
        };
        Some(Settings { temp_profile, time_zone, sleep_time, alarm })
    }
}

} // verus!
