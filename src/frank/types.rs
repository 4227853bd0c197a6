use vstd::prelude::*;

pub use crate::dac::types::{AlarmSettings, BedSide, VibrationPattern};
use crate::wire::{
    bytes_field, bytes_in, field, field_absent, field_of, i64_field, int_in, member, optional,
    text_field, text_in, uint_field, uint_in, WireValue, WireView,
};

verus! {

/// Whether a number of Unix seconds is an instant chrono represents.
pub uninterp spec fn timestamp_ok(secs: i64) -> bool;

/// Relies on chrono's `DateTime::from_timestamp`, which is `None` for a
/// number of seconds outside the dates chrono represents.
#[verifier::external_body]
fn timestamp_valid(secs: i64) -> (r: bool)
    ensures
        r == timestamp_ok(secs),
{
    chrono::DateTime::from_timestamp(secs, 0).is_some()
}

pub open spec fn u16_at(v: WireView, key: Seq<char>) -> Option<int> {
    uint_in(field_of(v, key), 0xffff)
}

pub open spec fn ts_at(v: WireView) -> Option<int> {
    let t = int_in(field_of(v, "ts"@), i64::MIN as int, i64::MAX as int);
    if t.is_some() && timestamp_ok(t.unwrap() as i64) {
        t
    } else {
        None
    }
}

pub open spec fn opt_text(o: Option<String>) -> Option<Seq<char>> {
    match o {
        Some(s) => Some(s@),
        None => None,
    }
}

pub open spec fn opt_bytes(o: Option<Vec<u8>>) -> Option<Seq<u8>> {
    match o {
        Some(b) => Some(b@),
        None => None,
    }
}

pub open spec fn opt_u32(o: Option<u32>) -> Option<int> {
    match o {
        Some(n) => Some(n as int),
        None => None,
    }
}

/// One framed message of the telemetry channel.
#[derive(Clone, Debug)]
pub struct StreamItem {
    pub part: String,
    pub proto: String,
    pub id: Option<u32>,
    pub version: Option<String>,
    pub dev: Option<String>,
    pub stream: Option<Vec<u8>>,
}

pub open spec fn stream_id_at(v: WireView) -> Option<Option<int>> {
    optional(field_of(v, "id"@), uint_in(field_of(v, "id"@), u32::MAX as int))
}

pub open spec fn stream_text_at(v: WireView, key: Seq<char>) -> Option<Option<Seq<char>>> {
    optional(field_of(v, key), text_in(field_of(v, key)))
}

pub open spec fn stream_bytes_at(v: WireView) -> Option<Option<Seq<u8>>> {
    optional(field_of(v, "stream"@), bytes_in(field_of(v, "stream"@)))
}

/// `v` is a map with text `part` and `proto`, and with `id` (an unsigned
/// 32-bit integer), `version`, `dev` (text) and `stream` (bytes) each left
/// out, null, or of that kind.
pub open spec fn stream_item_valid(v: WireView) -> bool {
    &&& text_in(field_of(v, "part"@)).is_some()
    &&& text_in(field_of(v, "proto"@)).is_some()
    &&& stream_id_at(v).is_some()
    &&& stream_text_at(v, "version"@).is_some()
    &&& stream_text_at(v, "dev"@).is_some()
    &&& stream_bytes_at(v).is_some()
}

impl StreamItem {
    pub open spec fn decodes_from(self, v: WireView) -> bool {
        &&& text_in(field_of(v, "part"@)) == Some(self.part@)
        &&& text_in(field_of(v, "proto"@)) == Some(self.proto@)
        &&& stream_id_at(v) == Some(opt_u32(self.id))
        &&& stream_text_at(v, "version"@) == Some(opt_text(self.version))
        &&& stream_text_at(v, "dev"@) == Some(opt_text(self.dev))
        &&& stream_bytes_at(v) == Some(opt_bytes(self.stream))
    }
}

fn opt_text_field(v: &WireValue, key: &String) -> (r: Option<Option<String>>)
    ensures
        r.is_some() == optional(field_of(v@, key@), text_in(field_of(v@, key@))).is_some(),
        r.is_some() ==> optional(field_of(v@, key@), text_in(field_of(v@, key@))) == Some(
            opt_text(r.unwrap()),
        ),
{
    if field_absent(v, key) {
        Some(None)
    } else {
        match text_field(v, key) {
            Some(t) => Some(Some(t)),
            None => None,
        }
    }
}

/// Reads a message of the telemetry channel out of a decoded value.
pub fn parse_stream_item(v: &WireValue) -> (r: Option<StreamItem>)
    ensures
        r.is_some() == stream_item_valid(v@),
        r.is_some() ==> r.unwrap().decodes_from(v@),
{
    let part = text_field(v, &"part".to_owned())?;
    let proto = text_field(v, &"proto".to_owned())?;
    let id_key = "id".to_owned();
    let id = if field_absent(v, &id_key) {
        None
    } else {
        match uint_field(v, &id_key, u32::MAX as u64) {
            Some(n) => Some(n as u32),
            None => {
                return None;
            },
        }
    };
    let version = opt_text_field(v, &"version".to_owned())?;
    let dev = opt_text_field(v, &"dev".to_owned())?;
    let stream_key = "stream".to_owned();
    let stream = if field_absent(v, &stream_key) {
        None
    } else {
        match bytes_field(v, &stream_key) {
            Some(b) => Some(b),
            None => {
                return None;
            },
        }
    };
    Some(StreamItem { part, proto, id, version, dev, stream })
}

/// One entry of a batch's nested stream.
#[derive(Clone, Debug)]
pub struct BatchItem {
    pub seq: u32,
    pub data: Vec<u8>,
}

/// `v` is a map with `seq`, an unsigned 32-bit integer, and `data`, bytes.
pub open spec fn batch_item_of(v: WireView) -> Option<(int, Seq<u8>)> {
    let seq = uint_in(field_of(v, "seq"@), u32::MAX as int);
    let data = bytes_in(field_of(v, "data"@));
    if seq.is_some() && data.is_some() {
        Some((seq.unwrap(), data.unwrap()))
    } else {
        None
    }
}

/// Reads a batch entry out of a decoded value.
pub fn parse_batch_item(v: &WireValue) -> (r: Option<BatchItem>)
    ensures
        r.is_some() == batch_item_of(v@).is_some(),
        r.is_some() ==> batch_item_of(v@) == Some((r.unwrap().seq as int, r.unwrap().data@)),
{
    let seq = uint_field(v, &"seq".to_owned(), u32::MAX as u64)?;
    let data = bytes_field(v, &"data".to_owned())?;
    Some(BatchItem { seq: seq as u32, data })
}

#[derive(Clone, Debug)]
pub struct CapSenseSide {
    pub status: String,
    pub cen: u16,
    pub in_: u16,
    pub out: u16,
}

pub open spec fn cap_sense_side_valid(v: WireView) -> bool {
    &&& text_in(field_of(v, "status"@)).is_some()
    &&& u16_at(v, "cen"@).is_some()
    &&& u16_at(v, "in"@).is_some()
    &&& u16_at(v, "out"@).is_some()
}

impl CapSenseSide {
    pub open spec fn decodes_from(self, v: WireView) -> bool {
        &&& text_in(field_of(v, "status"@)) == Some(self.status@)
        &&& u16_at(v, "cen"@) == Some(self.cen as int)
        &&& u16_at(v, "in"@) == Some(self.in_ as int)
        &&& u16_at(v, "out"@) == Some(self.out as int)
    }
}

fn u16_field(v: &WireValue, key: &str) -> (r: Option<u16>)
    ensures
        r.is_some() == u16_at(v@, key@).is_some(),
        r.is_some() ==> u16_at(v@, key@) == Some(r.unwrap() as int),
{
    let n = uint_field(v, &key.to_owned(), 0xffff)?;
    Some(n as u16)
}

fn ts_field(v: &WireValue) -> (r: Option<i64>)
    ensures
        r.is_some() == ts_at(v@).is_some(),
        r.is_some() ==> ts_at(v@) == Some(r.unwrap() as int),
{
    let t = i64_field(v, &"ts".to_owned())?;
    if timestamp_valid(t) {
        Some(t)
    } else {
        None
    }
}

fn parse_cap_sense_side(v: &WireValue) -> (r: Option<CapSenseSide>)
    ensures
        r.is_some() == cap_sense_side_valid(v@),
        r.is_some() ==> r.unwrap().decodes_from(v@),
{
    let status = text_field(v, &"status".to_owned())?;
    let cen = u16_field(v, "cen")?;
    let in_ = u16_field(v, "in")?;
    let out = u16_field(v, "out")?;
    Some(CapSenseSide { status, cen, in_, out })
}

#[derive(Clone, Debug)]
pub struct CapSense {
    /// Unix seconds
    pub ts: i64,
    pub left: CapSenseSide,
    pub right: CapSenseSide,
}

#[derive(Clone, Debug)]
pub struct PiezoDual {
    /// Unix seconds
    pub ts: i64,
    pub adc: u8,
    pub freq: u16,
    pub gain: u16,
    pub left1: Vec<u8>,
    pub left2: Vec<u8>,
    pub right1: Vec<u8>,
    pub right2: Vec<u8>,
}

#[derive(Clone, Copy, Debug, PartialEq, Eq, Structural)]
pub struct BedTempSide {
    pub cen: u16,
    pub in_: u16,
    pub out: u16,
}

pub open spec fn bed_temp_side_valid(v: WireView) -> bool {
    &&& u16_at(v, "cen"@).is_some()
    &&& u16_at(v, "in"@).is_some()
    &&& u16_at(v, "out"@).is_some()
}

impl BedTempSide {
    pub open spec fn decodes_from(self, v: WireView) -> bool {
        &&& u16_at(v, "cen"@) == Some(self.cen as int)
        &&& u16_at(v, "in"@) == Some(self.in_ as int)
        &&& u16_at(v, "out"@) == Some(self.out as int)
    }
}

fn parse_bed_temp_side(v: &WireValue) -> (r: Option<BedTempSide>)
    ensures
        r.is_some() == bed_temp_side_valid(v@),
        r.is_some() ==> r.unwrap().decodes_from(v@),
{
    let cen = u16_field(v, "cen")?;
    let in_ = u16_field(v, "in")?;
    let out = u16_field(v, "out")?;
    Some(BedTempSide { cen, in_, out })
}

#[derive(Clone, Copy, Debug, PartialEq, Eq, Structural)]
pub struct BedTemp {
    /// Unix seconds
    pub ts: i64,
    pub mcu: u16,
    pub amb: u16,
    pub hu: u16,
    pub left: BedTempSide,
    pub right: BedTempSide,
}

#[derive(Clone, Debug)]
pub struct BatchItemLog {
    /// Unix seconds
    pub ts: i64,
    pub msg: String,
    pub level: String,
}

#[derive(Clone, Copy, Debug, PartialEq, Eq, Structural)]
pub struct FrzTemp {
    /// Unix seconds
    pub ts: i64,
    pub amb: u16,
    pub hs: u16,
    pub left: u16,
    pub right: u16,
}

/// A telemetry record, by the value of its `type` field.
#[derive(Clone, Debug)]
pub enum BatchItemData {
    CapSense(CapSense),
    PiezoDual(PiezoDual),
    BedTemp(BedTemp),
    BatchItemLog(BatchItemLog),
    FrzTemp(FrzTemp),
}

pub open spec fn cap_sense_valid(v: WireView) -> bool {
    &&& ts_at(v).is_some()
    &&& field_of(v, "left"@).is_some() && cap_sense_side_valid(member(v, "left"@))
    &&& field_of(v, "right"@).is_some() && cap_sense_side_valid(member(v, "right"@))
}

pub open spec fn piezo_dual_valid(v: WireView) -> bool {
    &&& ts_at(v).is_some()
    &&& uint_in(field_of(v, "adc"@), 0xff).is_some()
    &&& u16_at(v, "freq"@).is_some()
    &&& u16_at(v, "gain"@).is_some()
    &&& bytes_in(field_of(v, "left1"@)).is_some()
    &&& bytes_in(field_of(v, "left2"@)).is_some()
    &&& bytes_in(field_of(v, "right1"@)).is_some()
    &&& bytes_in(field_of(v, "right2"@)).is_some()
}

pub open spec fn bed_temp_valid(v: WireView) -> bool {
    &&& ts_at(v).is_some()
    &&& u16_at(v, "mcu"@).is_some()
    &&& u16_at(v, "amb"@).is_some()
    &&& u16_at(v, "hu"@).is_some()
    &&& field_of(v, "left"@).is_some() && bed_temp_side_valid(member(v, "left"@))
    &&& field_of(v, "right"@).is_some() && bed_temp_side_valid(member(v, "right"@))
}

pub open spec fn log_valid(v: WireView) -> bool {
    &&& ts_at(v).is_some()
    &&& text_in(field_of(v, "msg"@)).is_some()
    &&& text_in(field_of(v, "level"@)).is_some()
}

pub open spec fn frz_temp_valid(v: WireView) -> bool {
    &&& ts_at(v).is_some()
    &&& u16_at(v, "amb"@).is_some()
    &&& u16_at(v, "hs"@).is_some()
    &&& u16_at(v, "left"@).is_some()
    &&& u16_at(v, "right"@).is_some()
}

/// `v` is a record of a known `type` with every field of that type.
pub open spec fn record_valid(v: WireView) -> bool {
    let tag = text_in(field_of(v, "type"@));
    if tag == Some("capSense"@) {
        cap_sense_valid(v)
    } else if tag == Some("piezo-dual"@) {
        piezo_dual_valid(v)
    } else if tag == Some("bedTemp"@) {
        bed_temp_valid(v)
    } else if tag == Some("log"@) {
        log_valid(v)
    } else if tag == Some("frzTemp"@) {
        frz_temp_valid(v)
    } else {
        false
    }
}

impl BatchItemData {
    /// The record holds exactly the fields of `v`.
    pub open spec fn decodes_from(self, v: WireView) -> bool {
        let tag = text_in(field_of(v, "type"@));
        match self {
            BatchItemData::CapSense(c) => {
                &&& tag == Some("capSense"@)
                &&& ts_at(v) == Some(c.ts as int)
                &&& c.left.decodes_from(member(v, "left"@))
                &&& c.right.decodes_from(member(v, "right"@))
            },
            BatchItemData::PiezoDual(p) => {
                &&& tag == Some("piezo-dual"@)
                &&& ts_at(v) == Some(p.ts as int)
                &&& uint_in(field_of(v, "adc"@), 0xff) == Some(p.adc as int)
                &&& u16_at(v, "freq"@) == Some(p.freq as int)
                &&& u16_at(v, "gain"@) == Some(p.gain as int)
                &&& bytes_in(field_of(v, "left1"@)) == Some(p.left1@)
                &&& bytes_in(field_of(v, "left2"@)) == Some(p.left2@)
                &&& bytes_in(field_of(v, "right1"@)) == Some(p.right1@)
                &&& bytes_in(field_of(v, "right2"@)) == Some(p.right2@)
            },
            BatchItemData::BedTemp(b) => {
                &&& tag == Some("bedTemp"@)
                &&& ts_at(v) == Some(b.ts as int)
                &&& u16_at(v, "mcu"@) == Some(b.mcu as int)
                &&& u16_at(v, "amb"@) == Some(b.amb as int)
                &&& u16_at(v, "hu"@) == Some(b.hu as int)
                &&& b.left.decodes_from(member(v, "left"@))
                &&& b.right.decodes_from(member(v, "right"@))
            },
            BatchItemData::BatchItemLog(l) => {
                &&& tag == Some("log"@)
                &&& ts_at(v) == Some(l.ts as int)
                &&& text_in(field_of(v, "msg"@)) == Some(l.msg@)
                &&& text_in(field_of(v, "level"@)) == Some(l.level@)
            },
            BatchItemData::FrzTemp(f) => {
                &&& tag == Some("frzTemp"@)
                &&& ts_at(v) == Some(f.ts as int)
                &&& u16_at(v, "amb"@) == Some(f.amb as int)
                &&& u16_at(v, "hs"@) == Some(f.hs as int)
                &&& u16_at(v, "left"@) == Some(f.left as int)
                &&& u16_at(v, "right"@) == Some(f.right as int)
            },
        }
    }
}

fn sub_field<'a>(v: &'a WireValue, key: &str) -> (r: Option<&'a WireValue>)
    ensures
        r.is_some() == field_of(v@, key@).is_some(),
        r.is_some() ==> r.unwrap()@ == member(v@, key@),
{
    field(v, &key.to_owned())
}

fn parse_cap_sense(v: &WireValue) -> (r: Option<CapSense>)
    ensures
        r.is_some() == cap_sense_valid(v@),
        r.is_some() ==> BatchItemData::CapSense(r.unwrap()).decodes_from(v@) || text_in(
            field_of(v@, "type"@),
        ) != Some("capSense"@),
{
    let ts = ts_field(v)?;
    let left = parse_cap_sense_side(sub_field(v, "left")?)?;
    let right = parse_cap_sense_side(sub_field(v, "right")?)?;
    Some(CapSense { ts, left, right })
}

fn parse_piezo_dual(v: &WireValue) -> (r: Option<PiezoDual>)
    ensures
        r.is_some() == piezo_dual_valid(v@),
        r.is_some() ==> BatchItemData::PiezoDual(r.unwrap()).decodes_from(v@) || text_in(
            field_of(v@, "type"@),
        ) != Some("piezo-dual"@),
{
    let ts = ts_field(v)?;
    let adc = uint_field(v, &"adc".to_owned(), 0xff)?;
    let freq = u16_field(v, "freq")?;
    let gain = u16_field(v, "gain")?;
    let left1 = bytes_field(v, &"left1".to_owned())?;
    let left2 = bytes_field(v, &"left2".to_owned())?;
    let right1 = bytes_field(v, &"right1".to_owned())?;
    let right2 = bytes_field(v, &"right2".to_owned())?;
    Some(PiezoDual { ts, adc: adc as u8, freq, gain, left1, left2, right1, right2 })
}

fn parse_bed_temp(v: &WireValue) -> (r: Option<BedTemp>)
    ensures
        r.is_some() == bed_temp_valid(v@),
        r.is_some() ==> BatchItemData::BedTemp(r.unwrap()).decodes_from(v@) || text_in(
            field_of(v@, "type"@),
        ) != Some("bedTemp"@),
{
    let ts = ts_field(v)?;
    let mcu = u16_field(v, "mcu")?;
    let amb = u16_field(v, "amb")?;
    let hu = u16_field(v, "hu")?;
    let left = parse_bed_temp_side(sub_field(v, "left")?)?;
    let right = parse_bed_temp_side(sub_field(v, "right")?)?;
    Some(BedTemp { ts, mcu, amb, hu, left, right })
}

fn parse_log(v: &WireValue) -> (r: Option<BatchItemLog>)
    ensures
        r.is_some() == log_valid(v@),
        r.is_some() ==> BatchItemData::BatchItemLog(r.unwrap()).decodes_from(v@) || text_in(
            field_of(v@, "type"@),
        ) != Some("log"@),
{
    let ts = ts_field(v)?;
    let msg = text_field(v, &"msg".to_owned())?;
    let level = text_field(v, &"level".to_owned())?;
    Some(BatchItemLog { ts, msg, level })
}

fn parse_frz_temp(v: &WireValue) -> (r: Option<FrzTemp>)
    ensures
        r.is_some() == frz_temp_valid(v@),
        r.is_some() ==> BatchItemData::FrzTemp(r.unwrap()).decodes_from(v@) || text_in(
            field_of(v@, "type"@),
        ) != Some("frzTemp"@),
{
    let ts = ts_field(v)?;
    let amb = u16_field(v, "amb")?;
    let hs = u16_field(v, "hs")?;
    let left = u16_field(v, "left")?;
    let right = u16_field(v, "right")?;
    Some(FrzTemp { ts, amb, hs, left, right })
}

/// Reads a telemetry record out of a decoded value, by its `type` field.
pub fn parse_record(v: &WireValue) -> (r: Option<BatchItemData>)
    ensures
        r.is_some() == record_valid(v@),
        r.is_some() ==> r.unwrap().decodes_from(v@),
{
    let tag = text_field(v, &"type".to_owned())?;
    if tag.eq(&"capSense".to_owned()) {
        Some(BatchItemData::CapSense(parse_cap_sense(v)?))
    } else if tag.eq(&"piezo-dual".to_owned()) {
        Some(BatchItemData::PiezoDual(parse_piezo_dual(v)?))
    } else if tag.eq(&"bedTemp".to_owned()) {
        Some(BatchItemData::BedTemp(parse_bed_temp(v)?))
    } else if tag.eq(&"log".to_owned()) {
        Some(BatchItemData::BatchItemLog(parse_log(v)?))
    } else if tag.eq(&"frzTemp".to_owned()) {
        Some(BatchItemData::FrzTemp(parse_frz_temp(v)?))
    } else {
        None
    }
}

} // verus!
