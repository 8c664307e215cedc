//! The value codec: wire values to engine parameters, engine values to JSON.

use crate::encoding::{base64_decoded, base64_encoded, decode_base64, encode_base64};
use crate::json::{
    json_views, lemma_json_views, lemma_member_views, member_views, JsonValue, JsonView,
};
use crate::value::{
    all_entries_fit, all_fields_fit, all_fit, entry_views, field_views, lemma_entry_views,
    lemma_field_views, lemma_value_views, value_views, MapKey, MapKeyView, Value, ValueView,
};
use vstd::prelude::*;

verus! {

/// A value that a client sends as a statement parameter.
#[derive(Debug, PartialEq, Eq)]
pub enum ErlangValue {
    Integer(i64),
    /// A binary64 number, by its bit pattern.
    Float(u64),
    Text(String),
    Boolean(bool),
    Null,
    /// Bytes, as base64 text.
    Blob(String),
}

/// A wire value as a mathematical term.
pub enum ErlangValueView {
    Integer(i64),
    Float(u64),
    Text(Seq<char>),
    Boolean(bool),
    Null,
    Blob(Seq<char>),
}

impl View for ErlangValue {
    type V = ErlangValueView;

    open spec fn view(&self) -> ErlangValueView {
        match self {
            ErlangValue::Integer(i) => ErlangValueView::Integer(*i),
            ErlangValue::Float(bits) => ErlangValueView::Float(*bits),
            ErlangValue::Text(s) => ErlangValueView::Text(s@),
            ErlangValue::Boolean(b) => ErlangValueView::Boolean(*b),
            ErlangValue::Null => ErlangValueView::Null,
            ErlangValue::Blob(s) => ErlangValueView::Blob(s@),
        }
    }
}

/// A value bound to a placeholder of a prepared statement.
#[derive(Debug, PartialEq, Eq)]
pub enum SqlParam<'a> {
    BigInt(i64),
    /// A binary64 number, by its bit pattern.
    Double(u64),
    Text(&'a str),
    Boolean(bool),
    Null,
    Blob(Vec<u8>),
}

/// A statement parameter as a mathematical term.
pub enum SqlParamView {
    BigInt(i64),
    Double(u64),
    Text(Seq<char>),
    Boolean(bool),
    Null,
    Blob(Seq<u8>),
}

impl<'a> View for SqlParam<'a> {
    type V = SqlParamView;

    open spec fn view(&self) -> SqlParamView {
        match self {
            SqlParam::BigInt(i) => SqlParamView::BigInt(*i),
            SqlParam::Double(bits) => SqlParamView::Double(*bits),
            SqlParam::Text(s) => SqlParamView::Text(s@),
            SqlParam::Boolean(b) => SqlParamView::Boolean(*b),
            SqlParam::Null => SqlParamView::Null,
            SqlParam::Blob(b) => SqlParamView::Blob(b@),
        }
    }
}

/// The blob bound for base64 text that decodes to `decoded`: the bytes, or no
/// bytes at all where the text is not base64.
pub open spec fn blob_param(decoded: Option<Seq<u8>>) -> SqlParamView {
    match decoded {
        Some(bytes) => SqlParamView::Blob(bytes),
        None => SqlParamView::Blob(Seq::empty()),
    }
}

/// The parameter that a wire value binds.
pub open spec fn to_sql_spec(value: ErlangValueView) -> SqlParamView {
    match value {
        ErlangValueView::Integer(i) => SqlParamView::BigInt(i),
        ErlangValueView::Float(bits) => SqlParamView::Double(bits),
        ErlangValueView::Text(s) => SqlParamView::Text(s),
        ErlangValueView::Boolean(b) => SqlParamView::Boolean(b),
        ErlangValueView::Null => SqlParamView::Null,
        ErlangValueView::Blob(text) => blob_param(base64_decoded(text)),
    }
}

impl<'a> SqlParam<'a> {
    /// The blob parameter for the outcome of decoding a wire blob's text.
    /// Text that is not base64 binds an empty blob.
    pub fn blob(decoded: Option<Vec<u8>>) -> (param: SqlParam<'a>)
        ensures
            param@ == blob_param(
                match decoded {
                    Some(bytes) => Some(bytes@),
                    None => None,
                },
            ),
    {
        match decoded {
            Some(bytes) => SqlParam::Blob(bytes),
            None => SqlParam::Blob(Vec::new()),
        }
    }
}

impl ErlangValue {
    /// The engine parameter for this wire value. Text is lent, not copied.
    pub fn to_sql(&self) -> (param: SqlParam<'_>)
        ensures
            param@ == to_sql_spec(self@),
    {
        match self {
            ErlangValue::Integer(i) => SqlParam::BigInt(*i),
            ErlangValue::Float(bits) => SqlParam::Double(*bits),
            ErlangValue::Text(s) => SqlParam::Text(s.as_str()),
            ErlangValue::Boolean(b) => SqlParam::Boolean(*b),
            ErlangValue::Null => SqlParam::Null,
            ErlangValue::Blob(text) => SqlParam::blob(decode_base64(text.as_str())),
        }
    }
}

/// The bit pattern is that of a binary64 number that is neither an infinity
/// nor a NaN: its exponent field is not all ones.
pub open spec fn is_finite(bits: u64) -> bool {
    (bits >> 52) & 0x7ff != 0x7ff
}

/// JSON for a float: the number, or null where JSON has no literal for it.
pub open spec fn float_json(bits: u64) -> JsonView {
    if is_finite(bits) {
        JsonView::Float(bits)
    } else {
        JsonView::Null
    }
}

/// The member name that a map key becomes in a JSON object.
pub open spec fn key_text(key: MapKeyView) -> Seq<char> {
    match key {
        MapKeyView::Text(s) => s,
        MapKeyView::Blob(bytes) => base64_encoded(bytes),
        MapKeyView::Other(text) => text,
    }
}

/// JSON for each of `items`, in order.
pub open spec fn jsons_of(items: Seq<ValueView>) -> Seq<JsonView>
    decreases items,
{
    Seq::new(
        items.len(),
        |i: int|
            if 0 <= i < items.len() {
                json_of(items[i])
            } else {
                JsonView::Null
            },
    )
}

/// The JSON members for the fields of a struct, in order.
pub open spec fn fields_of(fields: Seq<(Seq<char>, ValueView)>) -> Seq<(Seq<char>, JsonView)>
    decreases fields,
{
    Seq::new(
        fields.len(),
        |i: int|
            if 0 <= i < fields.len() {
                (fields[i].0, json_of(fields[i].1))
            } else {
                (Seq::empty(), JsonView::Null)
            },
    )
}

/// The JSON members for the entries of a map, in order.
pub open spec fn entries_of(entries: Seq<(MapKeyView, ValueView)>) -> Seq<(Seq<char>, JsonView)>
    decreases entries,
{
    Seq::new(
        entries.len(),
        |i: int|
            if 0 <= i < entries.len() {
                (key_text(entries[i].0), json_of(entries[i].1))
            } else {
                (Seq::empty(), JsonView::Null)
            },
    )
}

/// The JSON form of an engine value.
pub open spec fn json_of(value: ValueView) -> JsonView
    decreases value,
{
    match value {
        ValueView::Null => JsonView::Null,
        ValueView::Boolean(b) => JsonView::Bool(b),
        ValueView::TinyInt(i) => JsonView::Integer(i as int),
        ValueView::SmallInt(i) => JsonView::Integer(i as int),
        ValueView::Int(i) => JsonView::Integer(i as int),
        ValueView::BigInt(i) => JsonView::Integer(i as int),
        ValueView::HugeInt(i) => JsonView::Integer(i as int),
        ValueView::UTinyInt(u) => JsonView::Integer(u as int),
        ValueView::USmallInt(u) => JsonView::Integer(u as int),
        ValueView::UInt(u) => JsonView::Integer(u as int),
        ValueView::UBigInt(u) => JsonView::Integer(u as int),
        ValueView::UHugeInt(u) => JsonView::Integer(u as int),
        ValueView::Float(bits) => float_json(bits),
        ValueView::Double(bits) => float_json(bits),
        ValueView::Timestamp(unit, count) => JsonView::Integer(unit.micros(count as int)),
        ValueView::Text(s) => JsonView::String(s),
        ValueView::Blob(bytes) => JsonView::String(base64_encoded(bytes)),
        ValueView::Time64(unit, count) => JsonView::Integer(unit.micros(count as int)),
        ValueView::List(items) => JsonView::Array(jsons_of(items)),
        ValueView::Enum(label) => JsonView::String(label),
        ValueView::Struct(fields) => JsonView::Object(fields_of(fields)),
        ValueView::Array(items) => JsonView::Array(jsons_of(items)),
        ValueView::Mapping(entries) => JsonView::Object(entries_of(entries)),
        ValueView::Union(inner) => json_of(*inner),
        ValueView::Other(text) => JsonView::String(text),
    }
}

/// Whether the bit pattern is that of a finite binary64 number.
pub fn float_is_finite(bits: u64) -> (finite: bool)
    ensures
        finite == is_finite(bits),
{
    (bits >> 52) & 0x7ff != 0x7ff
}

/// The member name for a map key: text as it is, bytes in base64, anything
/// else by its debug text.
pub fn duckdb_value_to_string(key: MapKey) -> (text: String)
    ensures
        text@ == key_text(key@),
{
    match key {
        MapKey::Text(s) => s,
        MapKey::Blob(bytes) => encode_base64(bytes.as_slice()),
        MapKey::Other(text) => text,
    }
}

/// `jsons_of` goes item by item.
pub proof fn lemma_jsons_of(items: Seq<ValueView>)
    ensures
        jsons_of(items).len() == items.len(),
        forall|i: int|
            0 <= i < items.len() ==> (#[trigger] jsons_of(items)[i]) == json_of(items[i]),
{
}

/// `fields_of` goes field by field.
pub proof fn lemma_fields_of(fields: Seq<(Seq<char>, ValueView)>)
    ensures
        fields_of(fields).len() == fields.len(),
        forall|i: int|
            0 <= i < fields.len() ==> (#[trigger] fields_of(fields)[i]) == (
                fields[i].0,
                json_of(fields[i].1),
            ),
{
}

/// `entries_of` goes entry by entry.
pub proof fn lemma_entries_of(entries: Seq<(MapKeyView, ValueView)>)
    ensures
        entries_of(entries).len() == entries.len(),
        forall|i: int|
            0 <= i < entries.len() ==> (#[trigger] entries_of(entries)[i]) == (
                key_text(entries[i].0),
                json_of(entries[i].1),
            ),
{
}

/// Converts the items of a list, of an array or of a result row, in order.
pub fn values_to_json(items: Vec<Value>) -> (out: Vec<JsonValue>)
    requires
        all_fit(value_views(items@)),
    ensures
        json_views(out@) == jsons_of(value_views(items@)),
    decreases items,
{
    let ghost all = items@;
    let mut out: Vec<JsonValue> = Vec::new();
    proof {
        lemma_value_views(all);
        assert forall|i: int| 0 <= i < all.len() implies (#[trigger] all[i])@.micros_fit() by {
            assert(value_views(all)[i].micros_fit());
        }
    }
    for item in it: items
        invariant
            it.seq() == all,
            value_views(all).len() == all.len(),
            forall|i: int| 0 <= i < all.len() ==> (#[trigger] all[i])@.micros_fit(),
            out@.len() == it.index(),
            forall|j: int| 0 <= j < out@.len() ==> (#[trigger] out@[j])@ == json_of(all[j]@),
    {
        assert(item == all[it.index() as int]);
        let json = duckdb_value_to_json(item);
        out.push(json);
    }
    proof {
        lemma_json_views(out@);
        lemma_jsons_of(value_views(all));
        assert(json_views(out@) =~= jsons_of(value_views(all)));
    }
    out
}

/// Converts the fields of a struct, in order.
fn fields_to_json(fields: Vec<(String, Value)>) -> (out: Vec<(String, JsonValue)>)
    requires
        all_fields_fit(field_views(fields@)),
    ensures
        member_views(out@) == fields_of(field_views(fields@)),
    decreases fields,
{
    let ghost all = fields@;
    let mut out: Vec<(String, JsonValue)> = Vec::new();
    proof {
        lemma_field_views(all);
        assert forall|i: int| 0 <= i < all.len() implies (#[trigger] all[i]).1@.micros_fit() by {
            assert(field_views(all)[i].1.micros_fit());
        }
    }
    for field in it: fields
        invariant
            it.seq() == all,
            field_views(all).len() == all.len(),
            forall|i: int| 0 <= i < all.len() ==> (#[trigger] all[i]).1@.micros_fit(),
            out@.len() == it.index(),
            forall|j: int|
                0 <= j < out@.len() ==> (#[trigger] out@[j]).0@ == all[j].0@ && out@[j].1@
                    == json_of(all[j].1@),
    {
        assert(field == all[it.index() as int]);
        let (name, inner) = field;
        let json = duckdb_value_to_json(inner);
        out.push((name, json));
    }
    proof {
        lemma_member_views(out@);
        lemma_fields_of(field_views(all));
        assert(member_views(out@) =~= fields_of(field_views(all)));
    }
    out
}

/// Converts the entries of a map, in order.
fn entries_to_json(entries: Vec<(MapKey, Value)>) -> (out: Vec<(String, JsonValue)>)
    requires
        all_entries_fit(entry_views(entries@)),
    ensures
        member_views(out@) == entries_of(entry_views(entries@)),
    decreases entries,
{
    let ghost all = entries@;
    let mut out: Vec<(String, JsonValue)> = Vec::new();
    proof {
        lemma_entry_views(all);
        assert forall|i: int| 0 <= i < all.len() implies (#[trigger] all[i]).1@.micros_fit() by {
            assert(entry_views(all)[i].1.micros_fit());
        }
    }
    for entry in it: entries
        invariant
            it.seq() == all,
            entry_views(all).len() == all.len(),
            forall|i: int| 0 <= i < all.len() ==> (#[trigger] all[i]).1@.micros_fit(),
            out@.len() == it.index(),
            forall|j: int|
                0 <= j < out@.len() ==> (#[trigger] out@[j]).0@ == key_text(all[j].0@)
                    && out@[j].1@ == json_of(all[j].1@),
    {
        assert(entry == all[it.index() as int]);
        let (key, inner) = entry;
        let name = duckdb_value_to_string(key);
        let json = duckdb_value_to_json(inner);
        out.push((name, json));
    }
    proof {
        lemma_member_views(out@);
        lemma_entries_of(entry_views(all));
        assert(member_views(out@) =~= entries_of(entry_views(all)));
    }
    out
}

/// Converts an engine value to JSON. The conversion is decided by the
/// value's type alone and never fails: integers of any width, up to 128
/// bits, become JSON numbers of exactly their value, floats become numbers
/// or null, timestamps and times become their count of microseconds, text
/// and enum labels become strings, blobs become base64 strings, lists and
/// arrays become arrays, structs and maps become objects in their own order,
/// a union becomes what its active alternative becomes, and a value of any
/// other type becomes its debug text.
pub fn duckdb_value_to_json(value: Value) -> (json: JsonValue)
    requires
        value@.micros_fit(),
    ensures
        json@ == json_of(value@),
    decreases value,
{
    match value {
        Value::Null => JsonValue::Null,
        Value::Boolean(b) => JsonValue::Bool(b),
        Value::TinyInt(i) => JsonValue::Int(i as i64),
        Value::SmallInt(i) => JsonValue::Int(i as i64),
        Value::Int(i) => JsonValue::Int(i as i64),
        Value::BigInt(i) => JsonValue::Int(i),
        Value::HugeInt(i) => JsonValue::HugeInt(i),
        Value::UTinyInt(u) => JsonValue::UInt(u as u64),
        Value::USmallInt(u) => JsonValue::UInt(u as u64),
        Value::UInt(u) => JsonValue::UInt(u as u64),
        Value::UBigInt(u) => JsonValue::UInt(u),
        Value::UHugeInt(u) => JsonValue::UHugeInt(u),
        Value::Float(bits) => if float_is_finite(bits) {
            JsonValue::Float(bits)
        } else {
            JsonValue::Null
        },
        Value::Double(bits) => if float_is_finite(bits) {
            JsonValue::Float(bits)
        } else {
            JsonValue::Null
        },
        Value::Timestamp(unit, count) => JsonValue::Int(unit.to_micros(count)),
        Value::Text(s) => JsonValue::String(s),
        Value::Blob(bytes) => JsonValue::String(encode_base64(bytes.as_slice())),
        Value::Time64(unit, count) => JsonValue::Int(unit.to_micros(count)),
        Value::List(items) => JsonValue::Array(values_to_json(items)),
        Value::Enum(label) => JsonValue::String(label),
        Value::Struct(fields) => JsonValue::Object(fields_to_json(fields)),
        Value::Array(items) => JsonValue::Array(values_to_json(items)),
        Value::Mapping(entries) => JsonValue::Object(entries_to_json(entries)),
        Value::Union(inner) => duckdb_value_to_json(*inner),
        Value::Other(text) => JsonValue::String(text),
    }
}

/// What the engine reports for a parameter that a statement hands back as
/// it is, as `SELECT ?` does.
pub open spec fn echoed(param: SqlParamView) -> ValueView {
    match param {
        SqlParamView::BigInt(i) => ValueView::BigInt(i),
        SqlParamView::Double(bits) => ValueView::Double(bits),
        SqlParamView::Text(s) => ValueView::Text(s),
        SqlParamView::Boolean(b) => ValueView::Boolean(b),
        SqlParamView::Null => ValueView::Null,
        SqlParamView::Blob(bytes) => ValueView::Blob(bytes),
    }
}

/// The JSON form in which a wire value stands in a request: a number, a
/// string, a boolean or null. A float that JSON cannot write stands as null.
pub open spec fn wire_json(value: ErlangValueView) -> JsonView {
    match value {
        ErlangValueView::Integer(i) => JsonView::Integer(i as int),
        ErlangValueView::Float(bits) => float_json(bits),
        ErlangValueView::Text(s) => JsonView::String(s),
        ErlangValueView::Boolean(b) => JsonView::Bool(b),
        ErlangValueView::Null => JsonView::Null,
        ErlangValueView::Blob(text) => JsonView::String(text),
    }
}

/// The codec's two directions agree. A wire value other than a blob that is
/// bound as a parameter and read back from the engine unchanged comes out as
/// the JSON it went in as. A blob comes out as the base64 text of the bytes
/// that its own text decodes to.
pub proof fn lemma_round_trip(value: ErlangValueView)
    ensures
        !(value is Blob) ==> json_of(echoed(to_sql_spec(value))) == wire_json(value),
        value matches ErlangValueView::Blob(text) ==> {
            &&& echoed(to_sql_spec(value)) matches ValueView::Blob(bytes)
            &&& base64_decoded(text) matches Some(decoded) ==> bytes == decoded
            &&& base64_decoded(text) is None ==> bytes == Seq::<u8>::empty()
            &&& json_of(echoed(to_sql_spec(value))) == JsonView::String(base64_encoded(bytes))
        },
{
}

} // verus!
