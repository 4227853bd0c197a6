use tensleep::dac::manager::{
    alarm_clear, command_reply, get_variables, hello, is_ok_reply, prime, set_alarm,
    set_settings, set_temperature, set_temperature_duration, signed_decimal_text,
};
use tensleep::dac::types::{AlarmSettings, BedSide, VibrationPattern};
use tensleep::settings::VibrationSettings;

fn text(b: &[u8]) -> String {
    String::from_utf8(b.to_vec()).unwrap()
}

#[test]
fn plain_commands() {
    assert_eq!(text(&hello()), "0\n\n");
    assert_eq!(text(&get_variables()), "14\n\n");
    assert_eq!(text(&alarm_clear()), "16\n\n");
    assert_eq!(text(&prime()), "13\n\n");
}

#[test]
fn both_sides_temperature_is_left_then_right() {
    let reqs = set_temperature(BedSide::Both, -10);
    assert_eq!(reqs.len(), 2);
    assert_eq!(text(&reqs[0]), "11\n-10\n\n");
    assert_eq!(text(&reqs[1]), "12\n-10\n\n");
}

#[test]
fn one_side_temperature() {
    assert_eq!(set_temperature(BedSide::Right, 20).iter().map(|r| text(r)).collect::<Vec<_>>(), vec!["12\n20\n\n"]);
    assert_eq!(set_temperature(BedSide::Left, 0).iter().map(|r| text(r)).collect::<Vec<_>>(), vec!["11\n0\n\n"]);
}

#[test]
fn temperature_duration_requests() {
    let reqs = set_temperature_duration(BedSide::Both, 36000);
    assert_eq!(text(&reqs[0]), "9\n36000\n\n");
    assert_eq!(text(&reqs[1]), "10\n36000\n\n");
    let left = set_temperature_duration(BedSide::Left, 7200);
    assert_eq!(left.len(), 1);
    assert_eq!(text(&left[0]), "9\n7200\n\n");
}

#[test]
fn decimal_text_edges() {
    assert_eq!(text(&signed_decimal_text(i64::MIN)), "-9223372036854775808");
    assert_eq!(text(&signed_decimal_text(i64::MAX)), "9223372036854775807");
    assert_eq!(text(&signed_decimal_text(0)), "0");
    assert_eq!(text(&signed_decimal_text(-40)), "-40");
}

#[test]
fn alarm_payload_is_hex_cbor_map() {
    let alarm = AlarmSettings { pl: 50, du: 600, pi: "double".to_string(), tt: 1705995000 };
    let reqs = set_alarm(BedSide::Left, &alarm);
    assert_eq!(reqs.len(), 1);
    assert_eq!(
        text(&reqs[0]),
        "5\na462706c183262647519025862706966646f75626c656274741a65af6af8\n\n"
    );
    let both = set_alarm(BedSide::Both, &alarm);
    assert_eq!(both.len(), 2);
    assert!(text(&both[1]).starts_with("6\na4"));
}

#[test]
fn vibration_settings_to_alarm_payload() {
    let v = VibrationSettings { pattern: VibrationPattern::Rise, intensity: 80, duration: 600, offset: 300 };
    let a = v.to_dac_alarm_settings(1_700_000_000);
    assert_eq!(a.pl, 80);
    assert_eq!(a.du, 600);
    assert_eq!(a.pi, "rise");
    assert_eq!(a.tt, 1_700_000_000);
    assert_eq!(VibrationPattern::Double.to_string(), "double");
}

#[test]
fn misc_settings_payload() {
    assert_eq!(text(&set_settings("{\"lb\": 0}").unwrap()), "8\na1626c6200\n\n");
    assert_eq!(text(&set_settings("{\"lb\": 55}").unwrap()), "8\na1626c621837\n\n");
    assert_eq!(
        text(&set_settings("{\"b\": -1, \"a\": [true, null, \"x\"]}").unwrap()),
        "8\na2616183f5f66178616220\n\n"
    );
    assert!(set_settings("{\"lb\": 0.5}").is_none());
    assert!(set_settings("{lb: 0}").is_none());
}

#[test]
fn ok_replies() {
    assert!(is_ok_reply(b"ok"));
    assert!(is_ok_reply(b"ok\n"));
    assert!(!is_ok_reply(b"o"));
    assert!(!is_ok_reply(b""));
    assert!(!is_ok_reply(b"not connected"));
}

#[test]
fn not_connected_reply_for_every_command() {
    let replies = vec!["ok".to_string(), "ok".to_string()];
    assert_eq!(command_reply(false, &replies), "not connected");
    assert_eq!(command_reply(false, &Vec::new()), "not connected");
    assert_eq!(command_reply(true, &vec!["ok".to_string(), "fail".to_string()]), "fail");
    assert_eq!(command_reply(true, &Vec::new()), "");
}
