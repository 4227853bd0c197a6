use tensleep::dac::types::VibrationPattern;
use tensleep::settings::{
    AlarmSettings, HeatSettings, Settings, SettingsError, TimeOfDay, VibrationSettings, WatchedSettings,
};

fn sample() -> Settings {
    Settings {
        temp_profile: [-10, 10, 20],
        time_zone: "America/Los_Angeles".to_string(),
        sleep_time: TimeOfDay::from_hms(22, 0, 0).unwrap(),
        alarm: AlarmSettings {
            time: TimeOfDay::from_hms(10, 30, 0).unwrap(),
            vibration: Some(VibrationSettings { pattern: VibrationPattern::Rise, intensity: 80, duration: 600, offset: 300 }),
            heat: Some(HeatSettings { temp: 100, offset: 1800 }),
        },
    }
}

#[test]
fn time_of_day_fields() {
    let t = TimeOfDay::from_hms(22, 0, 0).unwrap();
    assert_eq!(t.secs, 79200);
    assert_eq!(t.hour(), 22);
    assert_eq!(TimeOfDay::from_hms(10, 30, 0).unwrap().minute(), 30);
    assert!(TimeOfDay::from_hms(24, 0, 0).is_none());
    assert!(TimeOfDay::from_hms(23, 60, 0).is_none());
}

#[test]
fn watched_settings_detect_changes() {
    let mut w = WatchedSettings::new(sample());
    let snapshot = w.clone();
    assert!(w.same_as(&snapshot));
    assert_eq!(w.get_change_number(), 0);
    let mut changed = sample();
    changed.temp_profile[1] = 11;
    w.update(changed);
    assert_eq!(w.get_change_number(), 1);
    assert!(!w.same_as(&snapshot));
    assert!(!w.settings().same_as(snapshot.settings()));
    w.update(sample());
    assert!(w.settings().same_as(snapshot.settings()));
    assert!(!w.same_as(&snapshot));
}

#[test]
fn test_deserialize_settings() {
    let settings = Settings::from_str(
        r#"
        {
            "temp_profile": [-10, 10, 20],
            "time_zone": "America/Los_Angeles",
            "sleep_time": "10:00 PM",
            "alarm": {
                "time": "10:30 AM",
                "vibration": {
                    "pattern": "rise",
                    "intensity": 80,
                    "duration": 600,
                    "offset": 300
                },
                "heat": {
                    "temp": 100,
                    "offset": 1800
                }
            }
        }
        "#,
    )
    .unwrap();

    assert_eq!(settings.temp_profile, [-10, 10, 20]);
    assert_eq!(settings.time_zone.parse::<chrono_tz::Tz>().unwrap(), chrono_tz::Tz::America__Los_Angeles);
    assert_eq!(settings.sleep_time, TimeOfDay::from_hms(22, 0, 0).unwrap());
    assert_eq!(settings.alarm.time, TimeOfDay::from_hms(10, 30, 0).unwrap());

    let vibration = settings.alarm.vibration.unwrap();
    assert!(matches!(vibration.pattern, VibrationPattern::Rise));
    assert_eq!(vibration.intensity, 80);
    assert_eq!(vibration.duration, 600);
    assert_eq!(vibration.offset, 300);

    let heat = settings.alarm.heat.unwrap();
    assert_eq!(heat.temp, 100);
    assert_eq!(heat.offset, 1800);
}

#[test]
fn settings_round_trip_through_text() {
    let s = sample();
    let text = s.serialize().unwrap();
    assert!(text.contains("\"sleep_time\":\"10:00 PM\""));
    assert!(text.contains("\"time\":\"10:30 AM\""));
    let back = Settings::from_str(&text).unwrap();
    assert!(back.same_as(&s));
    let mut bare = sample();
    bare.alarm.vibration = None;
    bare.alarm.heat = None;
    let back = Settings::from_str(&bare.serialize().unwrap()).unwrap();
    assert!(back.same_as(&bare));
}

#[test]
fn settings_errors() {
    assert_eq!(Settings::from_str("{").unwrap_err(), SettingsError::NotJson);
    let bad_zone = r#"{"temp_profile":[1,2,3],"time_zone":"Nowhere/Atlantis","sleep_time":"22:00","alarm":{"time":"06:30"}}"#;
    assert_eq!(Settings::from_str(bad_zone).unwrap_err(), SettingsError::BadField);
    let two_temps = r#"{"temp_profile":[1,2],"time_zone":"UTC","sleep_time":"22:00","alarm":{"time":"06:30"}}"#;
    assert_eq!(Settings::from_str(two_temps).unwrap_err(), SettingsError::BadField);
    let bad_time = r#"{"temp_profile":[1,2,3],"time_zone":"UTC","sleep_time":"25:00","alarm":{"time":"06:30"}}"#;
    assert_eq!(Settings::from_str(bad_time).unwrap_err(), SettingsError::BadField);
    let ok = r#"{"temp_profile":[1,2,3],"time_zone":"UTC","sleep_time":"22:00","alarm":{"time":"06:30","vibration":null}}"#;
    let s = Settings::from_str(ok).unwrap();
    assert_eq!(s.sleep_time.secs, 22 * 3600);
    assert!(s.alarm.vibration.is_none());
    let bad_pattern = r#"{"temp_profile":[1,2,3],"time_zone":"UTC","sleep_time":"22:00","alarm":{"time":"06:30","vibration":{"pattern":"buzz","intensity":1,"duration":1,"offset":1}}}"#;
    assert_eq!(Settings::from_str(bad_pattern).unwrap_err(), SettingsError::BadField);
    let mut invalid = sample();
    invalid.sleep_time.secs = 86400;
    assert!(invalid.serialize().is_none());
}
