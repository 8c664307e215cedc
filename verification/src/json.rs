//! JSON values, as the bridge puts them on the wire.
//!
//! A number is an integer of up to 128 bits, signed or unsigned, or a binary64
//! float given by its IEEE 754 bit pattern. An object keeps its members in the order in
//! which they were added.

use vstd::prelude::*;

verus! {

/// A JSON value as a mathematical term.
pub enum JsonView {
    Null,
    Bool(bool),
    /// A number without a fraction.
    Integer(int),
    /// A binary64 number, by its bit pattern.
    Float(u64),
    String(Seq<char>),
    Array(Seq<JsonView>),
    Object(Seq<(Seq<char>, JsonView)>),
}

/// A JSON value.
///
/// An integer that fits several of the integer variants can be held as any
/// of them; they are the same JSON value, and have the same view.
#[derive(Debug, PartialEq, Eq)]
pub enum JsonValue {
    Null,
    Bool(bool),
    /// An integer that fits `i64`.
    Int(i64),
    /// An integer that fits `u64`.
    UInt(u64),
    /// An integer that fits `i128`.
    HugeInt(i128),
    /// An integer that fits `u128`.
    UHugeInt(u128),
    /// A binary64 number, by its bit pattern.
    Float(u64),
    String(String),
    Array(Vec<JsonValue>),
    Object(Vec<(String, JsonValue)>),
}

/// The views of the items of a JSON array, in order.
pub open spec fn json_views(items: Seq<JsonValue>) -> Seq<JsonView>
    decreases items,
{
    Seq::new(
        items.len(),
        |i: int|
            if 0 <= i < items.len() {
                items[i]@
            } else {
                JsonView::Null
            },
    )
}

/// The views of the members of a JSON object, in order.
pub open spec fn member_views(members: Seq<(String, JsonValue)>) -> Seq<(Seq<char>, JsonView)>
    decreases members,
{
    Seq::new(
        members.len(),
        |i: int|
            if 0 <= i < members.len() {
                (members[i].0@, members[i].1@)
            } else {
                (Seq::empty(), JsonView::Null)
            },
    )
}

/// The views of the rows of a result set, in order.
pub open spec fn row_views(rows: Seq<Vec<JsonValue>>) -> Seq<Seq<JsonView>> {
    Seq::new(rows.len(), |i: int| json_views(rows[i]@))
}

impl View for JsonValue {
    type V = JsonView;

    open spec fn view(&self) -> JsonView
        decreases self,
    {
        match self {
            JsonValue::Null => JsonView::Null,
            JsonValue::Bool(b) => JsonView::Bool(*b),
            JsonValue::Int(i) => JsonView::Integer(*i as int),
            JsonValue::UInt(u) => JsonView::Integer(*u as int),
            JsonValue::HugeInt(i) => JsonView::Integer(*i as int),
            JsonValue::UHugeInt(u) => JsonView::Integer(*u as int),
            JsonValue::Float(bits) => JsonView::Float(*bits),
            JsonValue::String(s) => JsonView::String(s@),
            JsonValue::Array(items) => JsonView::Array(json_views(items@)),
            JsonValue::Object(members) => JsonView::Object(member_views(members@)),
        }
    }
}

/// `json_views` goes item by item.
pub proof fn lemma_json_views(items: Seq<JsonValue>)
    ensures
        json_views(items).len() == items.len(),
        forall|i: int| 0 <= i < items.len() ==> (#[trigger] json_views(items)[i]) == items[i]@,
{
}

/// `member_views` goes member by member.
pub proof fn lemma_member_views(members: Seq<(String, JsonValue)>)
    ensures
        member_views(members).len() == members.len(),
        forall|i: int|
            0 <= i < members.len() ==> (#[trigger] member_views(members)[i]) == (
                members[i].0@,
                members[i].1@,
            ),
{
}

} // verus!
