use vstd::prelude::*;

use crate::dac::types::{AlarmSettings, BedSide};
use crate::wire::{
    encode, hex_ascii, hex_encode, ints_fit, json_value, keyed, object, pairs_view, parse_json, wire_encoding,
    WireValue, WireView,
};

verus! {

pub const CMD_HELLO: u8 = 0;

pub const CMD_SET_ALARM_LEFT: u8 = 5;

pub const CMD_SET_ALARM_RIGHT: u8 = 6;

pub const CMD_SET_SETTINGS: u8 = 8;

pub const CMD_TEMP_DURATION_LEFT: u8 = 9;

pub const CMD_TEMP_DURATION_RIGHT: u8 = 10;

pub const CMD_TEMP_LEFT: u8 = 11;

pub const CMD_TEMP_RIGHT: u8 = 12;

pub const CMD_PRIME: u8 = 13;

pub const CMD_GET_VARIABLES: u8 = 14;

pub const CMD_ALARM_CLEAR: u8 = 16;

/// The reply a command gets while no device is connected.
pub open spec fn not_connected_text() -> Seq<char> {
    "not connected"@
}

/// The text a command returns, given whether a device is connected and the
/// replies its requests got, in the order they were sent: "not connected"
/// without a device; else the reply to the last request (for both sides, the
/// right side's), or nothing when no reply came.
pub fn command_reply(connected: bool, replies: &Vec<String>) -> (r: String)
    ensures
        !connected ==> r@ == not_connected_text(),
        connected && replies@.len() > 0 ==> r@ == replies@.last()@,
        connected && replies@.len() == 0 ==> r@.len() == 0,
{
    if !connected {
        "not connected".to_owned()
    } else if replies.len() == 0 {
        String::new()
    } else {
        replies[replies.len() - 1].clone()
    }
}

/// ASCII decimal digits of `n`, most significant first.
pub open spec fn decimal(n: nat) -> Seq<u8>
    decreases n,
{
    if n < 10 {
        seq![(48 + n) as u8]
    } else {
        decimal(n / 10).push((48 + n % 10) as u8)
    }
}

/// ASCII decimal text of `x`, with a leading `-` when negative.
pub open spec fn signed_decimal(x: int) -> Seq<u8> {
    if x < 0 {
        seq![45u8] + decimal((-x) as nat)
    } else {
        decimal(x as nat)
    }
}

/// One request: the command code in decimal, then (when there is a payload)
/// a newline and the payload, then a blank line.
pub open spec fn request_line(code: u8, payload: Option<Seq<u8>>) -> Seq<u8> {
    match payload {
        Some(p) => decimal(code as nat) + seq![10u8] + p + seq![10u8, 10u8],
        None => decimal(code as nat) + seq![10u8, 10u8],
    }
}

/// The command codes a per-side command takes: one side, or left then right.
pub open spec fn side_codes(side: BedSide, left: u8, right: u8) -> Seq<u8> {
    match side {
        BedSide::Left => seq![left],
        BedSide::Right => seq![right],
        BedSide::Both => seq![left, right],
    }
}

/// The requests of a per-side command, in the order they are sent.
pub open spec fn side_requests(side: BedSide, left: u8, right: u8, payload: Option<Seq<u8>>) -> Seq<
    Seq<u8>,
> {
    side_codes(side, left, right).map_values(|c: u8| request_line(c, payload))
}

pub open spec fn views(rs: Seq<Vec<u8>>) -> Seq<Seq<u8>> {
    rs.map_values(|r: Vec<u8>| r@)
}

pub open spec fn side_count(side: BedSide) -> int {
    match side {
        BedSide::Both => 2,
        _ => 1,
    }
}

/// The map that arms the vibration alarm, with its fields in this order.
pub open spec fn alarm_view(a: AlarmSettings) -> WireView {
    WireView::Object(
        seq![
            (WireView::Text("pl"@), WireView::Int(a.pl as int)),
            (WireView::Text("du"@), WireView::Int(a.du as int)),
            (WireView::Text("pi"@), WireView::Text(a.pi@)),
            (WireView::Text("tt"@), WireView::Int(a.tt as int)),
        ],
    )
}

/// The reply holds the text "ok".
pub open spec fn reply_ok(reply: Seq<u8>) -> bool {
    exists|i: int| 0 <= i < reply.len() - 1 && reply[i] == 111u8 && #[trigger] reply[i + 1] == 107u8
}

/// Whether the device's reply reports success ("ok" in it).
pub fn is_ok_reply(reply: &[u8]) -> (r: bool)
    ensures
        r == reply_ok(reply@),
{
    let mut i: usize = 1;
    while i < reply.len()
        invariant
            1 <= i,
            forall|j: int| 0 <= j < i - 1 && j < reply@.len() - 1 ==> !(reply@[j] == 111u8
                && #[trigger] reply@[j + 1] == 107u8),
        decreases reply@.len() - i,
    {
        if reply[i - 1] == 111 && reply[i] == 107 {
            assert(reply@[(i - 1) as int + 1] == 107u8);
            return true;
        }
        i = i + 1;
    }
    false
}

fn push_decimal(out: &mut Vec<u8>, n: u64)
    ensures
        final(out)@ == old(out)@ + decimal(n as nat),
    decreases n,
{
    if n >= 10 {
        push_decimal(out, n / 10);
    }
    out.push(48 + (n % 10) as u8);
    assert(final(out)@ =~= old(out)@ + decimal(n as nat));
}

/// The decimal text of `x`.
pub fn signed_decimal_text(x: i64) -> (r: Vec<u8>)
    ensures
        r@ == signed_decimal(x as int),
{
    let mut out: Vec<u8> = Vec::new();
    if x < 0 {
        out.push(45);
        let magnitude: u64 = if x == i64::MIN {
            9223372036854775808
        } else {
            (-x) as u64
        };
        push_decimal(&mut out, magnitude);
    } else {
        push_decimal(&mut out, x as u64);
    }
    assert(out@ =~= signed_decimal(x as int));
    out
}

fn request(code: u8, payload: Option<&[u8]>) -> (r: Vec<u8>)
    ensures
        r@ == request_line(
            code,
            match payload {
                Some(p) => Some(p@),
                None => None,
            },
        ),
{
    let mut out: Vec<u8> = Vec::new();
    push_decimal(&mut out, code as u64);
    match payload {
        Some(p) => {
            out.push(10);
            let mut i: usize = 0;
            while i < p.len()
                invariant
                    0 <= i <= p@.len(),
                    out@ == decimal(code as nat) + seq![10u8] + p@.subrange(0, i as int),
                decreases p@.len() - i,
            {
                out.push(p[i]);
                i = i + 1;
                assert(out@ =~= decimal(code as nat) + seq![10u8] + p@.subrange(0, i as int));
            }
            assert(p@.subrange(0, p@.len() as int) =~= p@);
        },
        None => {},
    }
    out.push(10);
    out.push(10);
    match payload {
        Some(p) => {
            assert(out@ =~= decimal(code as nat) + seq![10u8] + p@ + seq![10u8, 10u8]);
        },
        None => {
            assert(out@ =~= decimal(code as nat) + seq![10u8, 10u8]);
        },
    }
    out
}

fn side_request_list(side: BedSide, left: u8, right: u8, payload: &[u8]) -> (r: Vec<Vec<u8>>)
    ensures
        views(r@) == side_requests(side, left, right, Some(payload@)),
        r@.len() == side_count(side),
{
    let mut r: Vec<Vec<u8>> = Vec::new();
    match side {
        BedSide::Left => {
            r.push(request(left, Some(payload)));
        },
        BedSide::Right => {
            r.push(request(right, Some(payload)));
        },
        BedSide::Both => {
            r.push(request(left, Some(payload)));
            r.push(request(right, Some(payload)));
        },
    }
    assert(views(r@) =~= side_requests(side, left, right, Some(payload@)));
    r
}

/// Asks the device to answer "ok".
pub fn hello() -> (r: Vec<u8>)
    ensures
        r@ == request_line(CMD_HELLO, None),
{
    request(CMD_HELLO, None)
}

/// Asks the device for a dump of its variables.
pub fn get_variables() -> (r: Vec<u8>)
    ensures
        r@ == request_line(CMD_GET_VARIABLES, None),
{
    request(CMD_GET_VARIABLES, None)
}

/// Clears the vibration alarm.
pub fn alarm_clear() -> (r: Vec<u8>)
    ensures
        r@ == request_line(CMD_ALARM_CLEAR, None),
{
    request(CMD_ALARM_CLEAR, None)
}

/// Primes the device.
pub fn prime() -> (r: Vec<u8>)
    ensures
        r@ == request_line(CMD_PRIME, None),
{
    request(CMD_PRIME, None)
}

/// The encoded value of an alarm payload.
pub fn alarm_value(a: &AlarmSettings) -> (v: WireValue)
    ensures
        v@ == alarm_view(*a),
{
    let mut es: Vec<(WireValue, WireValue)> = Vec::new();
    es.push(keyed("pl", WireValue::Int(a.pl as i128)));
    es.push(keyed("du", WireValue::Int(a.du as i128)));
    es.push(keyed("pi", WireValue::Text(a.pi.clone())));
    es.push(keyed("tt", WireValue::Int(a.tt as i128)));
    let v = object(es);
    assert(pairs_view(es@) =~= alarm_view(*a)->Object_0);
    v
}

/// Arms the vibration alarm on one side or both: the payload is the encoded
/// alarm map in hex.
pub fn set_alarm(side: BedSide, settings: &AlarmSettings) -> (r: Vec<Vec<u8>>)
    ensures
        r@.len() == side_count(side),
        wire_encoding(alarm_view(*settings)).is_some(),
        views(r@) == side_requests(
            side,
            CMD_SET_ALARM_LEFT,
            CMD_SET_ALARM_RIGHT,
            Some(hex_ascii(wire_encoding(alarm_view(*settings)).unwrap())),
        ),
{
    let v = alarm_value(settings);
    proof {
        let es = alarm_view(*settings)->Object_0;
        assert forall|i: int| 0 <= i < es.len() implies ints_fit(#[trigger] es[i].0) && ints_fit(
            es[i].1,
        ) by {}
    }
    let bytes = match encode(&v) {
        Some(b) => b,
        None => {
            return Vec::new();
        },
    };
    let hex = hex_encode(bytes.as_slice());
    side_request_list(side, CMD_SET_ALARM_LEFT, CMD_SET_ALARM_RIGHT, hex.as_slice())
}

/// Sends misc settings (light level and the like), given as a JSON text: the
/// payload is the CBOR encoding of that document, in hex. None when the text
/// is no JSON document of integers, text, booleans, null, arrays and objects.
pub fn set_settings(data: &str) -> (r: Option<Vec<u8>>)
    ensures
        r.is_some() == (json_value(data@).is_some() && wire_encoding(json_value(data@).unwrap()).is_some()),
        r.is_some() ==> r.unwrap()@ == request_line(
            CMD_SET_SETTINGS,
            Some(hex_ascii(wire_encoding(json_value(data@).unwrap()).unwrap())),
        ),
{
    let v = parse_json(data)?;
    let cbor = encode(&v)?;
    let hex = hex_encode(cbor.as_slice());
    Some(request(CMD_SET_SETTINGS, Some(hex.as_slice())))
}

/// How long, in seconds, the temperature holds, on one side or both.
pub fn set_temperature_duration(side: BedSide, data: u32) -> (r: Vec<Vec<u8>>)
    ensures
        r@.len() == side_count(side),
        views(r@) == side_requests(
            side,
            CMD_TEMP_DURATION_LEFT,
            CMD_TEMP_DURATION_RIGHT,
            Some(decimal(data as nat)),
        ),
{
    let text = signed_decimal_text(data as i64);
    side_request_list(side, CMD_TEMP_DURATION_LEFT, CMD_TEMP_DURATION_RIGHT, text.as_slice())
}

/// The temperature offset in tenths of a degree, on one side or both.
pub fn set_temperature(side: BedSide, data: i32) -> (r: Vec<Vec<u8>>)
    ensures
        r@.len() == side_count(side),
        views(r@) == side_requests(
            side,
            CMD_TEMP_LEFT,
            CMD_TEMP_RIGHT,
            Some(signed_decimal(data as int)),
        ),
{
    let text = signed_decimal_text(data as i64);
    side_request_list(side, CMD_TEMP_LEFT, CMD_TEMP_RIGHT, text.as_slice())
}

} // verus!
