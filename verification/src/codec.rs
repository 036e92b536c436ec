//! JSON text and bytes, as serde_json reads and writes them.
//!
//! serde_json works on its own `Value`; the functions here turn a [`Json`]
//! into a `Value` and back, one node for the other, around each call. What
//! serde_json makes of a value is named, not written out: the names below
//! stand for the text and the bytes that serde_json produces for the value
//! that the conversion hands it, and for what it reads from bytes.

use vstd::prelude::*;
use vstd::utf8::{encode_utf8, is_ascii_chars, is_ascii_chars_encode_utf8};

use serde_json::Value;

use crate::json::{Json, JsonView};
use crate::result::opt_json_view;

verus! {

#[verifier::external_type_specification]
#[verifier::external_body]
pub struct ExValue(serde_json::Value);

/// The serde_json value holding what `j` holds: a number kept as decimal
/// text is read back into a serde_json number (`null` where serde_json
/// cannot read the text as one).
#[verifier::external_body]
fn json_to_value(j: &Json) -> Value {
    match j {
        Json::Null => Value::Null,
        Json::Bool(b) => Value::Bool(*b),
        Json::UInt(n) => Value::from(*n),
        Json::Int(n) => Value::from(*n),
        Json::Decimal(t) => t.parse().map(Value::Number).unwrap_or(Value::Null),
        Json::Str(s) => Value::String(s.clone()),
        Json::Array(items) => Value::Array(items.iter().map(json_to_value).collect()),
        Json::Object(entries) => Value::Object(
            entries.iter().map(|(k, v)| (k.clone(), json_to_value(v))).collect(),
        ),
    }
}

/// The library value holding what `v` holds: a number that fits `u64` is
/// `UInt`, one that fits `i64` is `Int`, any other keeps its decimal text.
#[verifier::external_body]
fn value_to_json(v: &Value) -> Json {
    match v {
        Value::Null => Json::Null,
        Value::Bool(b) => Json::Bool(*b),
        Value::Number(n) => match (n.as_u64(), n.as_i64()) {
            (Some(u), _) => Json::UInt(u),
            (None, Some(i)) => Json::Int(i),
            (None, None) => Json::Decimal(n.to_string()),
        },
        Value::String(s) => Json::Str(s.clone()),
        Value::Array(items) => Json::Array(items.iter().map(value_to_json).collect()),
        Value::Object(m) => Json::Object(m.iter().map(|(k, x)| (k.clone(), value_to_json(x))).collect()),
    }
}

/// What `serde_json::from_slice::<Value>` reads from `bytes`, in the
/// library's model; `None` where the bytes hold no JSON.
pub uninterp spec fn json_read(bytes: Seq<u8>) -> Option<JsonView>;

/// The text `serde_json::to_string_pretty` writes for `v`; `None` where it fails.
pub uninterp spec fn pretty_text(v: JsonView) -> Option<Seq<char>>;

/// The compact text serde_json's `Display` for `Value` writes for `v`.
pub uninterp spec fn compact_text(v: JsonView) -> Seq<char>;

/// The bytes `serde_json::to_vec` writes for `v`; `None` where it fails.
pub uninterp spec fn json_bytes(v: JsonView) -> Option<Seq<u8>>;

/// `a` comes strictly before `b` in byte-wise lexicographic order, the order
/// of Rust's `String` and so of the keys of a serde_json object.
pub open spec fn bytes_less(a: Seq<u8>, b: Seq<u8>) -> bool
    decreases a.len(),
{
    if b.len() == 0 {
        false
    } else if a.len() == 0 {
        true
    } else if a[0] != b[0] {
        a[0] < b[0]
    } else {
        bytes_less(a.drop_first(), b.drop_first())
    }
}

/// `v` holds no number kept as decimal text and no non-negative `Int`, its
/// object keys come in strictly increasing byte order, and it nests at most
/// `depth` arrays and objects.
pub open spec fn json_plain(v: JsonView, depth: nat) -> bool
    decreases v,
{
    match v {
        JsonView::Decimal(_) => false,
        JsonView::Int(n) => n < 0,
        JsonView::Array(items) => depth > 0 && forall|i: int|
            0 <= i < items.len() ==> json_plain(#[trigger] items[i], (depth - 1) as nat),
        JsonView::Object(entries) => {
            &&& depth > 0
            &&& forall|i: int, j: int|
                0 <= i < j < entries.len() ==> bytes_less(
                    encode_utf8(#[trigger] entries[i].0),
                    encode_utf8(#[trigger] entries[j].0),
                )
            &&& forall|i: int|
                0 <= i < entries.len() ==> json_plain(#[trigger] entries[i].1, (depth - 1) as nat)
        },
        _ => true,
    }
}

/// The values that serde_json reads back unchanged from the text it writes
/// for them: no number kept as decimal text (its text is not kept as
/// written), no non-negative number held as `Int` (it reads back as
/// `UInt`), object keys in the order serde_json's map keeps them and none
/// twice, and at most 127 nested arrays and objects (serde_json's reader
/// refuses deeper nesting).
pub open spec fn json_reads_back(v: JsonView) -> bool {
    json_plain(v, 127)
}

/// Bytes that agree up to position `k` and are smaller there come first.
pub proof fn lemma_bytes_less_at(x: Seq<u8>, y: Seq<u8>, k: int)
    requires
        0 <= k < x.len(),
        k < y.len(),
        forall|i: int| 0 <= i < k ==> x[i] == y[i],
        x[k] < y[k],
    ensures
        bytes_less(x, y),
    decreases k,
{
    if k > 0 {
        lemma_bytes_less_at(x.drop_first(), y.drop_first(), k - 1);
    }
}

/// ASCII texts that agree up to position `k` and are smaller there come
/// first in byte order.
pub proof fn lemma_ascii_less_at(a: Seq<char>, b: Seq<char>, k: int)
    requires
        is_ascii_chars(a),
        is_ascii_chars(b),
        0 <= k < a.len(),
        k < b.len(),
        forall|i: int| 0 <= i < k ==> a[i] == b[i],
        (a[k] as u32) < (b[k] as u32),
    ensures
        bytes_less(encode_utf8(a), encode_utf8(b)),
{
    is_ascii_chars_encode_utf8(a);
    is_ascii_chars_encode_utf8(b);
    let x = encode_utf8(a);
    let y = encode_utf8(b);
    assert(a[k] as u8 == x[k]);
    assert(b[k] as u8 == y[k]);
    assert forall|i: int| 0 <= i < k implies x[i] == y[i] by {
        assert(a[i] as u8 == x[i]);
        assert(b[i] as u8 == y[i]);
    }
    lemma_bytes_less_at(x, y, k);
}

/// Object entries whose keys are ASCII, not empty, and begin with strictly
/// increasing characters have their keys in strictly increasing byte order.
pub proof fn lemma_keys_ordered(entries: Seq<(Seq<char>, JsonView)>)
    requires
        forall|i: int|
            0 <= i < entries.len() ==> is_ascii_chars(#[trigger] entries[i].0) && entries[i].0.len()
                > 0,
        forall|i: int, j: int|
            0 <= i < j < entries.len() ==> (#[trigger] entries[i].0[0] as u32) < (
            #[trigger] entries[j].0[0] as u32),
    ensures
        forall|i: int, j: int|
            0 <= i < j < entries.len() ==> bytes_less(
                encode_utf8(#[trigger] entries[i].0),
                encode_utf8(#[trigger] entries[j].0),
            ),
{
    assert forall|i: int, j: int| 0 <= i < j < entries.len() implies bytes_less(
        encode_utf8(#[trigger] entries[i].0),
        encode_utf8(#[trigger] entries[j].0),
    ) by {
        lemma_ascii_less_at(entries[i].0, entries[j].0, 0);
    }
}

/// A value within `d` levels of nesting is within any larger number of levels.
pub proof fn lemma_plain_deeper(v: JsonView, d: nat, e: nat)
    requires
        json_plain(v, d),
        d <= e,
    ensures
        json_plain(v, e),
    decreases v,
{
    match v {
        JsonView::Array(items) => {
            assert forall|i: int| 0 <= i < items.len() implies json_plain(
                #[trigger] items[i],
                (e - 1) as nat,
            ) by {
                lemma_plain_deeper(items[i], (d - 1) as nat, (e - 1) as nat);
            }
        },
        JsonView::Object(entries) => {
            assert forall|i: int| 0 <= i < entries.len() implies json_plain(
                #[trigger] entries[i].1,
                (e - 1) as nat,
            ) by {
                lemma_plain_deeper(entries[i].1, (d - 1) as nat, (e - 1) as nat);
            }
        },
        _ => {},
    }
}

/// The model of optional bytes.
pub open spec fn opt_bytes_view(b: Option<Vec<u8>>) -> Option<Seq<u8>> {
    match b {
        Some(b) => Some(b@),
        None => None,
    }
}

/// The model of an optional string.
pub open spec fn opt_text_view(t: Option<String>) -> Option<Seq<char>> {
    match t {
        Some(t) => Some(t@),
        None => None,
    }
}

/// Reads `bytes` as JSON with `serde_json::from_slice::<Value>`. The contract
/// says only that the answer is the one serde_json gives for these bytes.
#[verifier::external_body]
pub(crate) fn read_json(bytes: &Vec<u8>) -> (r: Option<Json>)
    ensures
        opt_json_view(r) == json_read(bytes@),
{
    match serde_json::from_slice::<Value>(bytes) {
        Ok(v) => Some(value_to_json(&v)),
        Err(_) => None,
    }
}

/// Pretty-prints `v` with `serde_json::to_string_pretty`. The contract says
/// that the text is the one serde_json writes for this value; that writing
/// succeeds, as serde_json fails only on maps with keys other than strings
/// and a `Value`'s keys are strings; and that
/// serde_json reads the value back from that text where the value is one
/// it reads back unchanged.
#[verifier::external_body]
pub(crate) fn pretty(v: &Json) -> (r: Option<String>)
    ensures
        opt_text_view(r) == pretty_text(v@),
        r is Some,
        r matches Some(t) ==> (json_reads_back(v@) ==> json_read(encode_utf8(t@)) == Some(v@)),
{
    match serde_json::to_string_pretty(&json_to_value(v)) {
        Ok(t) => Some(t),
        Err(_) => None,
    }
}

/// Writes `v` in compact form with serde_json's `Display` for `Value`. The
/// contract says that the text is the one serde_json writes for this value,
/// and that serde_json reads the value back from that text where the value
/// is one it reads back unchanged.
#[verifier::external_body]
pub(crate) fn compact(v: &Json) -> (r: String)
    ensures
        r@ == compact_text(v@),
        json_reads_back(v@) ==> json_read(encode_utf8(r@)) == Some(v@),
{
    json_to_value(v).to_string()
}

/// Writes `v` as JSON bytes with `serde_json::to_vec`. The contract says that
/// the bytes are the ones serde_json writes for this value; that writing
/// succeeds, as serde_json fails only on maps with keys other than strings
/// and a `Value`'s keys are strings; and that serde_json reads the value back
/// from the bytes where the value is one it reads back unchanged.
#[verifier::external_body]
pub(crate) fn to_bytes(v: &Json) -> (r: Option<Vec<u8>>)
    ensures
        opt_bytes_view(r) == json_bytes(v@),
        r is Some,
        r matches Some(b) ==> (json_reads_back(v@) ==> json_read(b@) == Some(v@)),
{
    match serde_json::to_vec(&json_to_value(v)) {
        Ok(b) => Some(b),
        Err(_) => None,
    }
}

} // verus!
