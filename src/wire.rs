use vstd::prelude::*;

use ciborium::Value as Cbor;
use serde_json::Value as Json;

verus! {

/// ciborium's dynamic CBOR value, carried only between the codec's wrappers.
#[verifier::external_type_specification]
#[verifier::external_body]
pub struct ExCborValue(ciborium::Value);

/// serde_json's dynamic JSON value, carried only between the JSON wrappers.
#[verifier::external_type_specification]
#[verifier::external_body]
pub struct ExJsonValue(serde_json::Value);

/// A value of the device's binary encoding (CBOR): integers, byte strings,
/// text, booleans, null, arrays, and maps whose entries keep their order.
#[derive(Debug)]
pub enum WireValue {
    Int(i128),
    Bytes(Vec<u8>),
    Text(String),
    Bool(bool),
    Null,
    Array(Vec<WireValue>),
    Object(Vec<(WireValue, WireValue)>),
}

/// The mathematical content of a [`WireValue`].
pub enum WireView {
    Int(int),
    Bytes(Seq<u8>),
    Text(Seq<char>),
    Bool(bool),
    Null,
    Array(Seq<WireView>),
    Object(Seq<(WireView, WireView)>),
}

impl WireValue {
    pub open spec fn view(&self) -> WireView
        decreases self,
    {
        match self {
            WireValue::Int(n) => WireView::Int(*n as int),
            WireValue::Bytes(b) => WireView::Bytes(b@),
            WireValue::Text(t) => WireView::Text(t@),
            WireValue::Bool(b) => WireView::Bool(*b),
            WireValue::Null => WireView::Null,
            WireValue::Array(items) => WireView::Array(
                Seq::new(
                    items@.len(),
                    |i: int|
                        if 0 <= i < items@.len() {
                            items@[i].view()
                        } else {
                            WireView::Null
                        },
                ),
            ),
            WireValue::Object(es) => WireView::Object(
                Seq::new(
                    es@.len(),
                    |i: int|
                        if 0 <= i < es@.len() {
                            (es@[i].0.view(), es@[i].1.view())
                        } else {
                            (WireView::Null, WireView::Null)
                        },
                ),
            ),
        }
    }
}

/// Why no value could be read from a byte string.
#[derive(Clone, Copy, Debug, PartialEq, Eq, Structural)]
pub enum DecodeError {
    /// The bytes ended before a whole item was read.
    Eof,
    /// The bytes are not a well-formed item.
    Malformed,
    /// A well-formed item of a kind the codec does not carry (a float, a tag).
    Unsupported,
}

/// Every integer inside `v` is one CBOR can carry.
pub open spec fn ints_fit(v: WireView) -> bool
    decreases v,
{
    match v {
        WireView::Int(n) => -0x1_0000_0000_0000_0000 <= n < 0x1_0000_0000_0000_0000,
        WireView::Array(items) => forall|i: int|
            0 <= i < items.len() ==> #[trigger] ints_fit(items[i]),
        WireView::Object(entries) => forall|i: int|
            0 <= i < entries.len() ==> ints_fit(#[trigger] entries[i].0) && ints_fit(
                entries[i].1,
            ),
        _ => true,
    }
}

/// The encoding ciborium writes for a value.
pub uninterp spec fn wire_encoding(v: WireView) -> Option<Seq<u8>>;

/// What ciborium reads from the front of a byte string: the value and how
/// many bytes it took.
pub uninterp spec fn wire_prefix(bytes: Seq<u8>) -> Result<(WireView, int), DecodeError>;

/// Converts a value to `ciborium::Value`, variant for variant; none for an
/// integer outside `ciborium::value::Integer`'s range (its `TryFrom<i128>`).
#[verifier::external_body]
fn to_cbor(v: &WireValue) -> Option<Cbor> {
    Some(match v {
        WireValue::Int(n) => Cbor::Integer((*n).try_into().ok()?),
        WireValue::Bytes(b) => Cbor::Bytes(b.clone()),
        WireValue::Text(t) => Cbor::Text(t.clone()),
        WireValue::Bool(b) => Cbor::Bool(*b),
        WireValue::Null => Cbor::Null,
        WireValue::Array(xs) => Cbor::Array(xs.iter().map(to_cbor).collect::<Option<_>>()?),
        WireValue::Object(es) => Cbor::Map(es.iter().map(|(k, v)| Some((to_cbor(k)?, to_cbor(v)?))).collect::<Option<_>>()?),
    })
}

/// Converts a `ciborium::Value` back, variant for variant (`Integer` through
/// its `From<Integer> for i128`); none for a float or a tag.
#[verifier::external_body]
fn from_cbor(v: Cbor) -> Option<WireValue> {
    Some(match v {
        Cbor::Integer(n) => WireValue::Int(n.into()),
        Cbor::Bytes(b) => WireValue::Bytes(b),
        Cbor::Text(t) => WireValue::Text(t),
        Cbor::Bool(b) => WireValue::Bool(b),
        Cbor::Null => WireValue::Null,
        Cbor::Array(xs) => WireValue::Array(xs.into_iter().map(from_cbor).collect::<Option<_>>()?),
        Cbor::Map(es) => WireValue::Object(es.into_iter().map(|(k, v)| Some((from_cbor(k)?, from_cbor(v)?))).collect::<Option<_>>()?),
        _ => return None,
    })
}

/// Relies on `ciborium::into_writer` applied to `ciborium::Value`; writing
/// to a `Vec` cannot fail, and an integer in CBOR's range always converts.
#[verifier::external_body]
fn cbor_encode(v: &WireValue) -> (r: Option<Vec<u8>>)
    ensures
        r.is_some() == wire_encoding(v@).is_some(),
        r.is_some() ==> r.unwrap()@ == wire_encoding(v@).unwrap(),
        ints_fit(v@) ==> r.is_some(),
{
    let value = to_cbor(v)?;
    let mut out = Vec::new();
    ciborium::into_writer(&value, &mut out).ok()?;
    Some(out)
}

/// Relies on `ciborium::from_reader` into `ciborium::Value`, reading from a
/// byte slice: a value read took at least one byte and no more than there
/// were; a read error of the slice is the end of its bytes.
#[verifier::external_body]
fn cbor_decode_prefix(bytes: &[u8]) -> (r: Result<(WireValue, usize), DecodeError>)
    ensures
        r is Ok <==> wire_prefix(bytes@) is Ok,
        r is Err ==> wire_prefix(bytes@) == Err::<(WireView, int), DecodeError>(r->Err_0),
        r is Ok ==> wire_prefix(bytes@) == Ok::<(WireView, int), DecodeError>(
            (r->Ok_0.0@, r->Ok_0.1 as int),
        ),
        r is Ok ==> 0 < r->Ok_0.1 <= bytes@.len(),
{
    let mut rest = bytes;
    match ciborium::from_reader::<Cbor, _>(&mut rest) {
        Ok(v) => from_cbor(v).map(|w| (w, bytes.len() - rest.len())).ok_or(DecodeError::Unsupported),
        Err(ciborium::de::Error::Io(_)) => Err(DecodeError::Eof),
        Err(_) => Err(DecodeError::Malformed),
    }
}

/// The value under the first key equal to `key` among map entries.
pub open spec fn entry_of(entries: Seq<(WireView, WireView)>, key: Seq<char>) -> Option<WireView>
    decreases entries.len(),
{
    if entries.len() == 0 {
        None
    } else if entries[0].0 == WireView::Text(key) {
        Some(entries[0].1)
    } else {
        entry_of(entries.drop_first(), key)
    }
}

/// The value under text key `key` of a map; none for a value that is no map.
pub open spec fn field_of(v: WireView, key: Seq<char>) -> Option<WireView> {
    match v {
        WireView::Object(entries) => entry_of(entries, key),
        _ => None,
    }
}

/// The value under text key `key` of a map, or null when there is none.
pub open spec fn member(v: WireView, key: Seq<char>) -> WireView {
    match field_of(v, key) {
        Some(w) => w,
        None => WireView::Null,
    }
}

/// The entry found for `key` is the first entry with that key.
pub proof fn lemma_entry_at(entries: Seq<(WireView, WireView)>, key: Seq<char>, i: int)
    requires
        0 <= i < entries.len(),
        entries[i].0 == WireView::Text(key),
        forall|j: int| 0 <= j < i ==> (#[trigger] entries[j]).0 != WireView::Text(key),
    ensures
        entry_of(entries, key) == Some(entries[i].1),
    decreases i,
{
    if i > 0 {
        assert(entries[0].0 != WireView::Text(key));
        assert forall|j: int| 0 <= j < i - 1 implies (#[trigger] entries.drop_first()[j]).0
            != WireView::Text(key) by {
            assert(entries.drop_first()[j] == entries[j + 1]);
        }
        lemma_entry_at(entries.drop_first(), key, i - 1);
    }
}

/// An integer from `0` to `max`.
pub open spec fn uint_in(w: Option<WireView>, max: int) -> Option<int> {
    match w {
        Some(WireView::Int(n)) => if 0 <= n <= max {
            Some(n)
        } else {
            None
        },
        _ => None,
    }
}

/// An integer from `min` to `max`.
pub open spec fn int_in(w: Option<WireView>, min: int, max: int) -> Option<int> {
    match w {
        Some(WireView::Int(n)) => if min <= n <= max {
            Some(n)
        } else {
            None
        },
        _ => None,
    }
}

pub open spec fn text_in(w: Option<WireView>) -> Option<Seq<char>> {
    match w {
        Some(WireView::Text(t)) => Some(t),
        _ => None,
    }
}

pub open spec fn bytes_in(w: Option<WireView>) -> Option<Seq<u8>> {
    match w {
        Some(WireView::Bytes(b)) => Some(b),
        _ => None,
    }
}

/// A field that may be left out or null: `Some(None)` then; `None` when it
/// holds something else than `present` accepts.
pub open spec fn optional<T>(w: Option<WireView>, present: Option<T>) -> Option<Option<T>> {
    match w {
        None => Some(None),
        Some(WireView::Null) => Some(None),
        Some(_) => match present {
            Some(x) => Some(Some(x)),
            None => None,
        },
    }
}

pub open spec fn int_view(r: Option<u64>) -> Option<int> {
    match r {
        Some(n) => Some(n as int),
        None => None,
    }
}

pub open spec fn pairs_view(es: Seq<(WireValue, WireValue)>) -> Seq<(WireView, WireView)> {
    Seq::new(es.len(), |i: int| (es[i].0@, es[i].1@))
}

pub open spec fn items_view(xs: Seq<WireValue>) -> Seq<WireView> {
    Seq::new(xs.len(), |i: int| xs[i]@)
}

/// A map of these entries, in this order.
pub fn object(entries: Vec<(WireValue, WireValue)>) -> (r: WireValue)
    ensures
        r@ == WireView::Object(pairs_view(entries@)),
{
    let ghost es = entries@;
    let r = WireValue::Object(entries);
    assert(r@->Object_0 =~= pairs_view(es));
    r
}

/// An array of these items, in this order.
pub fn array(items: Vec<WireValue>) -> (r: WireValue)
    ensures
        r@ == WireView::Array(items_view(items@)),
{
    let ghost xs = items@;
    let r = WireValue::Array(items);
    assert(r@->Array_0 =~= items_view(xs));
    r
}

/// A map entry with a text key.
pub fn keyed(key: &str, v: WireValue) -> (r: (WireValue, WireValue))
    ensures
        r.0@ == WireView::Text(key@),
        r.1@ == v@,
{
    (WireValue::Text(key.to_owned()), v)
}

/// The value under text key `key` of a map.
pub fn field<'a>(v: &'a WireValue, key: &String) -> (r: Option<&'a WireValue>)
    ensures
        r.is_some() == field_of(v@, key@).is_some(),
        r.is_some() ==> r.unwrap()@ == field_of(v@, key@).unwrap(),
{
    match v {
        WireValue::Object(entries) => {
            let ghost ev = v@->Object_0;
            assert(ev.len() == entries@.len());
            assert(ev.subrange(0, ev.len() as int) =~= ev);
            let mut i: usize = 0;
            while i < entries.len()
                invariant
                    0 <= i <= entries@.len(),
                    ev.len() == entries@.len(),
                    v@ == WireView::Object(ev),
                    forall|j: int|
                        0 <= j < ev.len() ==> #[trigger] ev[j] == (
                            entries@[j].0@,
                            entries@[j].1@,
                        ),
                    entry_of(ev, key@) == entry_of(ev.subrange(i as int, ev.len() as int), key@),
                decreases entries@.len() - i,
            {
                let ghost rest = ev.subrange(i as int, ev.len() as int);
                assert(rest[0] == ev[i as int]);
                assert(rest.drop_first() =~= ev.subrange(i + 1, ev.len() as int));
                match &entries[i].0 {
                    WireValue::Text(t) => {
                        if t.eq(key) {
                            return Some(&entries[i].1);
                        }
                    },
                    _ => {},
                }
                i = i + 1;
            }
            None
        },
        _ => None,
    }
}

/// An integer field from `0` to `max`.
pub fn uint_field(v: &WireValue, key: &String, max: u64) -> (r: Option<u64>)
    ensures
        int_view(r) == uint_in(field_of(v@, key@), max as int),
{
    match field(v, key) {
        Some(WireValue::Int(n)) => {
            if 0 <= *n && *n <= max as i128 {
                Some(*n as u64)
            } else {
                None
            }
        },
        _ => None,
    }
}

/// An integer field from `i64::MIN` to `i64::MAX`.
pub fn i64_field(v: &WireValue, key: &String) -> (r: Option<i64>)
    ensures
        r.is_some() == int_in(field_of(v@, key@), i64::MIN as int, i64::MAX as int).is_some(),
        r.is_some() ==> r.unwrap() == int_in(
            field_of(v@, key@),
            i64::MIN as int,
            i64::MAX as int,
        ).unwrap(),
{
    match field(v, key) {
        Some(WireValue::Int(n)) => {
            if i64::MIN as i128 <= *n && *n <= i64::MAX as i128 {
                Some(*n as i64)
            } else {
                None
            }
        },
        _ => None,
    }
}

pub fn text_field(v: &WireValue, key: &String) -> (r: Option<String>)
    ensures
        r.is_some() == text_in(field_of(v@, key@)).is_some(),
        r.is_some() ==> r.unwrap()@ == text_in(field_of(v@, key@)).unwrap(),
{
    match field(v, key) {
        Some(WireValue::Text(t)) => Some(t.clone()),
        _ => None,
    }
}

pub fn bytes_field(v: &WireValue, key: &String) -> (r: Option<Vec<u8>>)
    ensures
        r.is_some() == bytes_in(field_of(v@, key@)).is_some(),
        r.is_some() ==> r.unwrap()@ == bytes_in(field_of(v@, key@)).unwrap(),
{
    match field(v, key) {
        Some(WireValue::Bytes(b)) => {
            let c = b.clone();
            assert(c@ =~= b@);
            Some(c)
        },
        _ => None,
    }
}

/// The field is left out or null.
pub fn field_absent(v: &WireValue, key: &String) -> (r: bool)
    ensures
        r == (field_of(v@, key@) is None || field_of(v@, key@) == Some(WireView::Null)),
{
    match field(v, key) {
        None => true,
        Some(WireValue::Null) => true,
        _ => false,
    }
}

/// The value serde_json reads from a JSON text, with every number an integer.
pub uninterp spec fn json_value(text: Seq<char>) -> Option<WireView>;

/// Converts a `serde_json::Value`, variant for variant; none for a number
/// that is neither an `i64` nor a `u64` (`Number::as_i64`, `as_u64`).
#[verifier::external_body]
fn from_json(v: Json) -> Option<WireValue> {
    Some(match v {
        Json::Null => WireValue::Null,
        Json::Bool(b) => WireValue::Bool(b),
        Json::Number(n) => WireValue::Int(n.as_i64().map(i128::from).or(n.as_u64().map(i128::from))?),
        Json::String(s) => WireValue::Text(s),
        Json::Array(xs) => WireValue::Array(xs.into_iter().map(from_json).collect::<Option<_>>()?),
        Json::Object(m) => WireValue::Object(m.into_iter().map(|(k, v)| Some((WireValue::Text(k), from_json(v)?))).collect::<Option<_>>()?),
    })
}

/// Relies on `serde_json::from_str` into `serde_json::Value`; none when the
/// text is no JSON document or holds a number that is not an integer.
/// Object members come out ordered by key, as serde_json's map keeps them.
#[verifier::external_body]
pub(crate) fn parse_json(text: &str) -> (r: Option<WireValue>)
    ensures
        r.is_some() == json_value(text@).is_some(),
        r.is_some() ==> r.unwrap()@ == json_value(text@).unwrap(),
{
    from_json(serde_json::from_str(text).ok()?)
}

/// The JSON text serde_json writes for a value; none for a value JSON cannot
/// carry.
pub uninterp spec fn json_text_of(v: WireView) -> Option<Seq<char>>;

/// Converts a value to `serde_json::Value`, variant for variant (integers
/// through `Number::from_i128`); none for bytes or a key that is no text.
#[verifier::external_body]
fn to_json(v: &WireValue) -> Option<Json> {
    Some(match v {
        WireValue::Int(n) => Json::Number(serde_json::Number::from_i128(*n)?),
        WireValue::Text(t) => Json::String(t.clone()),
        WireValue::Bool(b) => Json::Bool(*b),
        WireValue::Null => Json::Null,
        WireValue::Array(xs) => Json::Array(xs.iter().map(to_json).collect::<Option<_>>()?),
        WireValue::Object(es) => Json::Object(es.iter().map(|(k, v)| match k { WireValue::Text(k) => Some((k.clone(), to_json(v)?)), _ => None }).collect::<Option<_>>()?),
        _ => return None,
    })
}

/// Relies on `serde_json::to_string` of a `serde_json::Value`.
#[verifier::external_body]
pub(crate) fn json_text(v: &WireValue) -> (r: Option<String>)
    ensures
        r.is_some() == json_text_of(v@).is_some(),
        r.is_some() ==> r.unwrap()@ == json_text_of(v@).unwrap(),
{
    serde_json::to_string(&to_json(v)?).ok()
}

/// A value that could not be read, with the bytes it was read from.
#[derive(Clone, Debug)]
pub struct DecodeFailure {
    pub kind: DecodeError,
    pub bytes: Vec<u8>,
}

/// The encoding of `v`; none when an integer in it lies outside CBOR's range.
pub fn encode(v: &WireValue) -> (r: Option<Vec<u8>>)
    ensures
        r.is_some() == wire_encoding(v@).is_some(),
        r.is_some() ==> r.unwrap()@ == wire_encoding(v@).unwrap(),
        ints_fit(v@) ==> r.is_some(),
{
    cbor_encode(v)
}

/// Reads the value at the front of `bytes` and says how many bytes it took;
/// a failure keeps the bytes, for the log.
pub fn decode(bytes: &[u8]) -> (r: Result<(WireValue, usize), DecodeFailure>)
    ensures
        r is Ok <==> wire_prefix(bytes@) is Ok,
        r is Ok ==> wire_prefix(bytes@) == Ok::<(WireView, int), DecodeError>(
            (r->Ok_0.0@, r->Ok_0.1 as int),
        ),
        r is Ok ==> 0 < r->Ok_0.1 <= bytes@.len(),
        r is Err ==> wire_prefix(bytes@) == Err::<(WireView, int), DecodeError>(r->Err_0.kind),
        r is Err ==> r->Err_0.bytes@ == bytes@,
{
    match cbor_decode_prefix(bytes) {
        Ok(d) => Ok(d),
        Err(kind) => Err(DecodeFailure { kind, bytes: vstd::slice::slice_to_vec(bytes) }),
    }
}

/// The ASCII code of a hex digit, lower case.
pub open spec fn hex_digit(n: u8) -> u8 {
    if n < 10 {
        (48 + n) as u8
    } else {
        (87 + n) as u8
    }
}

/// Two lower-case hex digits for each byte, high nibble first.
pub open spec fn hex_ascii(b: Seq<u8>) -> Seq<u8>
    decreases b.len(),
{
    if b.len() == 0 {
        seq![]
    } else {
        hex_ascii(b.drop_last()) + seq![hex_digit(b.last() / 16), hex_digit(b.last() % 16)]
    }
}

/// Relies on `hex::encode`: two lower-case hex digits per byte, in order.
#[verifier::external_body]
pub(crate) fn hex_encode(b: &[u8]) -> (r: Vec<u8>)
    ensures
        r@ == hex_ascii(b@),
{
    hex::encode(b).into_bytes()
}

} // verus!
