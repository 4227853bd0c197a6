use vstd::prelude::*;

pub use crate::dac::manager::{
    alarm_clear, get_variables, hello, prime, set_alarm, set_settings, set_temperature,
    set_temperature_duration,
};
use crate::frank::types::{
    batch_item_of, parse_batch_item, parse_record, parse_stream_item, record_valid,
    stream_bytes_at, stream_id_at, stream_item_valid, stream_text_at, BatchItemData, StreamItem,
};
use crate::wire::{
    decode, encode, field_of, ints_fit, keyed, object, pairs_view, text_in, wire_encoding,
    wire_prefix, DecodeError, WireValue, WireView,
};

verus! {

/// A batch entry: its sequence number, its record's bytes, and the record,
/// or none when those bytes did not decode.
#[derive(Clone, Debug)]
pub struct BatchEntry {
    pub seq: u32,
    pub data: Vec<u8>,
    pub record: Option<BatchItemData>,
}

/// Why reading a batch's nested stream stopped.
#[derive(Clone, Copy, Debug, PartialEq, Eq, Structural)]
pub enum StreamEnd {
    /// The bytes ran out: the normal end.
    Exhausted,
    /// An entry was malformed; what followed it was not read.
    Broken,
}

#[derive(Clone, Debug)]
pub struct BatchReport {
    pub entries: Vec<BatchEntry>,
    pub end: StreamEnd,
}

/// What one message of a telemetry connection led to.
#[derive(Clone, Debug)]
pub enum SessionResponse {
    /// A session opened for device `dev`; `reply` acknowledges it.
    Session { dev: String, reply: Vec<u8> },
    /// Batch `id` arrived; `reply` acknowledges it, and `report` holds what
    /// its stream carried (none when it had no stream).
    Batch { id: u32, reply: Vec<u8>, report: Option<BatchReport> },
    /// A batch without an identifier: nothing is acknowledged.
    MissingId,
    /// A message of another kind, ignored.
    Unrecognized { part: String },
}

/// One step of a telemetry connection over the bytes received so far.
#[derive(Clone, Debug)]
pub enum StreamStep {
    /// No whole message has arrived yet.
    NeedMore,
    /// The first `consumed` bytes were one message.
    Handled { consumed: usize, response: SessionResponse },
    /// The framing is broken: the connection ends.
    Abort,
}

/// The entries framed from a batch's nested stream, up to its end or to the
/// first entry that is not a `{seq, data}` map.
pub open spec fn batch_entries(stream: Seq<u8>) -> Seq<(int, Seq<u8>)>
    decreases stream.len(),
{
    match wire_prefix(stream) {
        Ok((v, n)) => if 0 < n <= stream.len() && batch_item_of(v).is_some() {
            seq![batch_item_of(v).unwrap()] + batch_entries(stream.subrange(n, stream.len() as int))
        } else {
            seq![]
        },
        Err(_) => seq![],
    }
}

/// How reading a batch's nested stream ends.
pub open spec fn batch_end(stream: Seq<u8>) -> StreamEnd
    decreases stream.len(),
{
    match wire_prefix(stream) {
        Ok((v, n)) => if 0 < n <= stream.len() && batch_item_of(v).is_some() {
            batch_end(stream.subrange(n, stream.len() as int))
        } else {
            StreamEnd::Broken
        },
        Err(DecodeError::Eof) => StreamEnd::Exhausted,
        Err(_) => StreamEnd::Broken,
    }
}

/// A record's bytes decode to a record of a known kind.
pub open spec fn record_decodes(data: Seq<u8>) -> bool {
    wire_prefix(data) is Ok && record_valid(wire_prefix(data)->Ok_0.0)
}

/// Each entry keeps its sequence number and holds its record exactly when
/// the record's own bytes decode, whatever the other entries hold.
pub open spec fn report_matches(entries: Seq<BatchEntry>, framed: Seq<(int, Seq<u8>)>) -> bool {
    &&& entries.len() == framed.len()
    &&& forall|i: int|
        0 <= i < entries.len() ==> {
            &&& #[trigger] entries[i].seq == framed[i].0
            &&& entries[i].data@ == framed[i].1
            &&& entries[i].record.is_some() == record_decodes(framed[i].1)
            &&& entries[i].record.is_some() ==> entries[i].record.unwrap().decodes_from(
                wire_prefix(framed[i].1)->Ok_0.0,
            )
        }
}

/// How many entries carry their record.
pub open spec fn delivered(entries: Seq<BatchEntry>) -> nat
    decreases entries.len(),
{
    if entries.len() == 0 {
        0
    } else {
        delivered(entries.drop_last()) + if entries.last().record.is_some() {
            1nat
        } else {
            0nat
        }
    }
}

/// How many framed entries have record bytes that decode.
pub open spec fn decodable(framed: Seq<(int, Seq<u8>)>) -> nat
    decreases framed.len(),
{
    if framed.len() == 0 {
        0
    } else {
        decodable(framed.drop_last()) + if record_decodes(framed.last().1) {
            1nat
        } else {
            0nat
        }
    }
}

/// A report delivers exactly the records whose own bytes decode; every other
/// entry is one failure, and the entries around it are still read.
pub proof fn lemma_fault_isolation(entries: Seq<BatchEntry>, framed: Seq<(int, Seq<u8>)>)
    requires
        report_matches(entries, framed),
    ensures
        delivered(entries) == decodable(framed),
        entries.len() - delivered(entries) == framed.len() - decodable(framed),
    decreases entries.len(),
{
    if entries.len() > 0 {
        let n = entries.len() - 1;
        assert(entries[n].seq == framed[n].0);
        assert(entries[n].record.is_some() == record_decodes(framed[n].1));
        assert(report_matches(entries.drop_last(), framed.drop_last())) by {
            assert forall|i: int| 0 <= i < entries.drop_last().len() implies #[trigger] entries.drop_last()[i].seq
                == framed.drop_last()[i].0 by {
                assert(entries.drop_last()[i] == entries[i]);
            }
            assert forall|i: int| 0 <= i < entries.drop_last().len() implies (#[trigger] entries.drop_last()[i]).record.is_some()
                == record_decodes(framed.drop_last()[i].1) && entries.drop_last()[i].data@ == framed.drop_last()[i].1 && (entries.drop_last()[i].record.is_some()
                ==> entries.drop_last()[i].record.unwrap().decodes_from(
                wire_prefix(framed.drop_last()[i].1)->Ok_0.0,
            )) by {
                assert(entries.drop_last()[i] == entries[i]);
                assert(entries[i].seq == framed[i].0);
            }
        }
        lemma_fault_isolation(entries.drop_last(), framed.drop_last());
    }
}

/// A batch stream with one malformed record among valid ones: every other
/// record is delivered, and the malformed one is the single failure.
pub proof fn lemma_one_malformed_record(stream: Seq<u8>, report: BatchReport, k: int)
    requires
        report_matches(report.entries@, batch_entries(stream)),
        0 <= k < batch_entries(stream).len(),
        !record_decodes(batch_entries(stream)[k].1),
        forall|i: int|
            0 <= i < batch_entries(stream).len() && i != k ==> record_decodes(
                #[trigger] batch_entries(stream)[i].1,
            ),
    ensures
        delivered(report.entries@) == batch_entries(stream).len() - 1,
        report.entries@.len() - delivered(report.entries@) == 1,
        report.entries@[k].record.is_none(),
{
    let framed = batch_entries(stream);
    assert(report.entries@[k].seq == framed[k].0);
    lemma_fault_isolation(report.entries@, framed);
    lemma_decodable_all_but_one(framed, k);
}

proof fn lemma_decodable_all_but_one(framed: Seq<(int, Seq<u8>)>, k: int)
    requires
        0 <= k < framed.len(),
        !record_decodes(framed[k].1),
        forall|i: int| 0 <= i < framed.len() && i != k ==> record_decodes(#[trigger] framed[i].1),
    ensures
        decodable(framed) == framed.len() - 1,
    decreases framed.len(),
{
    let n = framed.len() - 1;
    if k == n {
        lemma_decodable_all(framed.drop_last());
    } else {
        assert forall|i: int| 0 <= i < framed.drop_last().len() && i != k implies record_decodes(
            #[trigger] framed.drop_last()[i].1,
        ) by {
            assert(framed.drop_last()[i] == framed[i]);
        }
        assert(framed.drop_last()[k] == framed[k]);
        lemma_decodable_all_but_one(framed.drop_last(), k);
        assert(record_decodes(framed[n].1));
    }
}

proof fn lemma_decodable_all(framed: Seq<(int, Seq<u8>)>)
    requires
        forall|i: int| 0 <= i < framed.len() ==> record_decodes(#[trigger] framed[i].1),
    ensures
        decodable(framed) == framed.len(),
    decreases framed.len(),
{
    if framed.len() > 0 {
        assert forall|i: int| 0 <= i < framed.drop_last().len() implies record_decodes(
            #[trigger] framed.drop_last()[i].1,
        ) by {
            assert(framed.drop_last()[i] == framed[i]);
        }
        lemma_decodable_all(framed.drop_last());
        assert(record_decodes(framed[framed.len() - 1].1));
    }
}

/// The record in a batch entry's bytes.
pub fn decode_record(data: &[u8]) -> (r: Option<BatchItemData>)
    ensures
        r.is_some() == record_decodes(data@),
        r.is_some() ==> r.unwrap().decodes_from(wire_prefix(data@)->Ok_0.0),
{
    match decode(data) {
        Ok((v, _)) => parse_record(&v),
        Err(_) => None,
    }
}

/// Reads every entry of a batch's nested stream. An entry whose record does
/// not decode is kept, without its record, and reading goes on.
pub fn decode_batch_stream(stream: &[u8]) -> (r: BatchReport)
    ensures
        report_matches(r.entries@, batch_entries(stream@)),
        r.end == batch_end(stream@),
{
    let mut entries: Vec<BatchEntry> = Vec::new();
    let mut pos: usize = 0;
    let len = stream.len();
    let ghost framed = batch_entries(stream@);
    assert(stream@.subrange(0, stream@.len() as int) =~= stream@);
    assert(framed.subrange(0, 0) + framed =~= framed);
    loop
        invariant
            0 <= pos <= stream@.len(),
            len == stream@.len(),
            framed == batch_entries(stream@),
            entries@.len() <= framed.len(),
            framed == framed.subrange(0, entries@.len() as int) + batch_entries(
                stream@.subrange(pos as int, stream@.len() as int),
            ),
            report_matches(entries@, framed.subrange(0, entries@.len() as int)),
            batch_end(stream@) == batch_end(stream@.subrange(pos as int, stream@.len() as int)),
        decreases stream@.len() - pos,
    {
        let ghost rest_seq = stream@.subrange(pos as int, stream@.len() as int);
        let ghost done = framed.subrange(0, entries@.len() as int);
        let rest = stream.split_at(pos).1;
        assert(rest@ == rest_seq);
        let decoded = decode(rest);
        match decoded {
            Ok((v, n)) => {
                assert(decoded is Ok && decoded->Ok_0.1 == n);
                assert(0 < n <= rest@.len());
                match parse_batch_item(&v) {
                    Some(item) => {
                        let record = decode_record(item.data.as_slice());
                        let ghost next = rest_seq.subrange(n as int, rest_seq.len() as int);
                        proof {
                            assert(next =~= stream@.subrange(pos + n, stream@.len() as int));
                            assert(batch_entries(rest_seq) == seq![batch_item_of(v@).unwrap()]
                                + batch_entries(next));
                            assert(framed =~= done.push(batch_item_of(v@).unwrap())
                                + batch_entries(next));
                        }
                        let ghost before = entries@;
                        entries.push(BatchEntry { seq: item.seq, data: item.data, record });
                        pos = pos + n;
                        proof {
                            let now_done = framed.subrange(0, entries@.len() as int);
                            assert(now_done =~= done.push(batch_item_of(v@).unwrap()));
                            assert(batch_item_of(v@).unwrap() == (item.seq as int, item.data@));
                            assert forall|i: int| 0 <= i < entries@.len() implies {
                                &&& #[trigger] entries@[i].seq == now_done[i].0
                                &&& entries@[i].data@ == now_done[i].1
                                &&& entries@[i].record.is_some() == record_decodes(now_done[i].1)
                                &&& entries@[i].record.is_some() ==> entries@[i].record.unwrap().decodes_from(
                                    wire_prefix(now_done[i].1)->Ok_0.0,
                                )
                            } by {
                                if i < before.len() {
                                    assert(entries@[i] == before[i]);
                                    assert(now_done[i] == done[i]);
                                }
                            }
                        }
                    },
                    None => {
                        proof {
                            assert(batch_entries(rest_seq) == Seq::<(int, Seq<u8>)>::empty());
                            assert(framed =~= done);
                        }
                        return BatchReport { entries, end: StreamEnd::Broken };
                    },
                }
            },
            Err(failure) => {
                proof {
                    assert(batch_entries(rest_seq) == Seq::<(int, Seq<u8>)>::empty());
                    assert(framed =~= done);
                }
                let end = match failure.kind {
                    DecodeError::Eof => StreamEnd::Exhausted,
                    _ => StreamEnd::Broken,
                };
                return BatchReport { entries, end };
            },
        }
    }
}

/// The acknowledgement of a `session` or `batch` message: a map with `part`,
/// `proto` set to "raw", and the batch `id` when there is one.
pub open spec fn reply_view(part: Seq<char>, id: Option<int>) -> WireView {
    let base = seq![
        (WireView::Text("part"@), WireView::Text(part)),
        (WireView::Text("proto"@), WireView::Text("raw"@)),
    ];
    WireView::Object(
        match id {
            Some(n) => base.push((WireView::Text("id"@), WireView::Int(n))),
            None => base,
        },
    )
}

/// The bytes of an acknowledgement.
pub open spec fn reply_bytes(part: Seq<char>, id: Option<int>) -> Seq<u8> {
    wire_encoding(reply_view(part, id)).unwrap()
}

fn reply(part: &str, id: Option<u32>) -> (r: Vec<u8>)
    ensures
        wire_encoding(reply_view(part@, opt_int(id))).is_some(),
        r@ == reply_bytes(part@, opt_int(id)),
{
    let mut es: Vec<(WireValue, WireValue)> = Vec::new();
    es.push(keyed("part", WireValue::Text(part.to_owned())));
    es.push(keyed("proto", WireValue::Text("raw".to_owned())));
    match id {
        Some(n) => {
            es.push(keyed("id", WireValue::Int(n as i128)));
        },
        None => {},
    }
    let v = object(es);
    proof {
        let got = pairs_view(es@);
        assert(got =~= reply_view(part@, opt_int(id))->Object_0);
        assert forall|i: int| 0 <= i < got.len() implies ints_fit(#[trigger] got[i].0) && ints_fit(
            got[i].1,
        ) by {}
    }
    match encode(&v) {
        Some(b) => b,
        None => Vec::new(),
    }
}

pub open spec fn opt_int(id: Option<u32>) -> Option<int> {
    match id {
        Some(n) => Some(n as int),
        None => None,
    }
}

/// What a message leads to, given that it decoded to `v`, a valid message;
/// none when the connection must end (a session without a device).
pub open spec fn response_matches(resp: Option<SessionResponse>, v: WireView) -> bool {
    let part = text_in(field_of(v, "part"@)).unwrap();
    if part == "session"@ {
        match stream_text_at(v, "dev"@).unwrap() {
            Some(dev) => match resp {
                Some(SessionResponse::Session { dev: d, reply }) => d@ == dev && reply@
                    == reply_bytes("session"@, None),
                _ => false,
            },
            None => resp is None,
        }
    } else if part == "batch"@ {
        match stream_id_at(v).unwrap() {
            Some(id) => match resp {
                Some(SessionResponse::Batch { id: i, reply, report }) => {
                    &&& i == id
                    &&& reply@ == reply_bytes("batch"@, Some(id))
                    &&& match stream_bytes_at(v).unwrap() {
                        Some(stream) => report.is_some() && report_matches(
                            report.unwrap().entries@,
                            batch_entries(stream),
                        ) && report.unwrap().end == batch_end(stream),
                        None => report.is_none(),
                    }
                },
                _ => false,
            },
            None => resp == Some(SessionResponse::MissingId),
        }
    } else {
        match resp {
            Some(SessionResponse::Unrecognized { part: p }) => p@ == part,
            _ => false,
        }
    }
}

/// Opens a session: acknowledged with a `session` reply; a session message
/// without a device identifier ends the connection (none).
pub fn handle_session(item: &StreamItem) -> (r: Option<SessionResponse>)
    ensures
        item.dev.is_none() <==> r.is_none(),
        r.is_some() ==> match r.unwrap() {
            SessionResponse::Session { dev, reply } => dev@ == item.dev.unwrap()@ && reply@
                == reply_bytes("session"@, None),
            _ => false,
        },
{
    match &item.dev {
        Some(dev) => Some(SessionResponse::Session { dev: dev.clone(), reply: reply("session", None) }),
        None => None,
    }
}

/// Takes in a batch: it is acknowledged at once (with its `id`), then every
/// entry of its stream is read.
pub fn handle_batch(item: &StreamItem) -> (r: SessionResponse)
    ensures
        item.id.is_none() ==> r == SessionResponse::MissingId,
        item.id.is_some() ==> r is Batch && r->Batch_id == item.id.unwrap() && r->Batch_reply@
            == reply_bytes("batch"@, Some(item.id.unwrap() as int)) && match item.stream {
            Some(stream) => r->Batch_report.is_some() && report_matches(
                r->Batch_report.unwrap().entries@,
                batch_entries(stream@),
            ) && r->Batch_report.unwrap().end == batch_end(stream@),
            None => r->Batch_report.is_none(),
        },
{
    let id = match item.id {
        Some(id) => id,
        None => {
            return SessionResponse::MissingId;
        },
    };
    let reply = reply("batch", Some(id));
    let report = match &item.stream {
        Some(stream) => Some(decode_batch_stream(stream.as_slice())),
        None => None,
    };
    SessionResponse::Batch { id, reply, report }
}

/// One step of a telemetry connection: reads the first message out of the
/// bytes received so far and handles it by its `part`. Too few bytes ask for
/// more; a malformed message, or a session without a device, ends the
/// connection; a message of an unknown kind is passed over.
pub fn handle_data_stream(buffer: &[u8]) -> (r: StreamStep)
    ensures
        r is NeedMore <==> wire_prefix(buffer@) == Err::<(WireView, int), DecodeError>(
            DecodeError::Eof,
        ),
        wire_prefix(buffer@) is Err && r is Abort <==> (wire_prefix(buffer@) is Err
            && wire_prefix(buffer@) != Err::<(WireView, int), DecodeError>(DecodeError::Eof)),
        wire_prefix(buffer@) is Ok ==> {
            let (v, n) = wire_prefix(buffer@)->Ok_0;
            if !stream_item_valid(v) {
                r is Abort
            } else {
                response_matches(
                    match r {
                        StreamStep::Handled { consumed, response } => Some(response),
                        _ => None,
                    },
                    v,
                ) && (r is Handled ==> r->Handled_consumed == n) && (r is Abort || r is Handled)
            }
        },
{
    let (v, n) = match decode(buffer) {
        Ok(d) => d,
        Err(failure) => {
            return match failure.kind {
                DecodeError::Eof => StreamStep::NeedMore,
                _ => StreamStep::Abort,
            };
        },
    };
    let item = match parse_stream_item(&v) {
        Some(item) => item,
        None => {
            return StreamStep::Abort;
        },
    };
    let response = if item.part.eq(&"session".to_owned()) {
        match handle_session(&item) {
            Some(resp) => resp,
            None => {
                return StreamStep::Abort;
            },
        }
    } else if item.part.eq(&"batch".to_owned()) {
        handle_batch(&item)
    } else {
        SessionResponse::Unrecognized { part: item.part.clone() }
    };
    StreamStep::Handled { consumed: n, response }
}

} // verus!
