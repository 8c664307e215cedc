//! Values as the query engine reports them in result rows.
//!
//! A float is held by its binary64 bit pattern. A value of a type that the
//! bridge does not know is held by its debug text.

use vstd::prelude::*;

verus! {

/// The unit in which a timestamp or a time of day counts.
#[derive(Debug, Clone, Copy, PartialEq, Eq, Structural)]
pub enum TimeUnit {
    Second,
    Millisecond,
    Microsecond,
    Nanosecond,
}

/// Microseconds in a second.
pub const MICROS_PER_SECOND: i64 = 1_000_000;

/// Microseconds in a millisecond, and nanoseconds in a microsecond.
pub const THOUSAND: i64 = 1000;

/// `a / b` rounded towards zero, for a positive `b`.
pub open spec fn div_towards_zero(a: int, b: int) -> int {
    if a >= 0 {
        a / b
    } else {
        -((-a) / b)
    }
}

impl TimeUnit {
    /// `value` units in microseconds; nanoseconds lose what is below a
    /// microsecond.
    pub open spec fn micros(self, value: int) -> int {
        match self {
            TimeUnit::Second => value * MICROS_PER_SECOND,
            TimeUnit::Millisecond => value * THOUSAND,
            TimeUnit::Microsecond => value,
            TimeUnit::Nanosecond => div_towards_zero(value, THOUSAND as int),
        }
    }

    /// `value` units in microseconds are a 64-bit signed number.
    pub open spec fn micros_fit(self, value: int) -> bool {
        i64::MIN <= self.micros(value) <= i64::MAX
    }

    /// Whether `value` units can be told in microseconds.
    pub fn fits_micros(&self, value: i64) -> (fits: bool)
        ensures
            fits == self.micros_fit(value as int),
    {
        match self {
            TimeUnit::Second => {
                i64::MIN / MICROS_PER_SECOND <= value && value <= i64::MAX / MICROS_PER_SECOND
            },
            TimeUnit::Millisecond => i64::MIN / THOUSAND <= value && value <= i64::MAX / THOUSAND,
            TimeUnit::Microsecond => true,
            TimeUnit::Nanosecond => true,
        }
    }

    /// Converts `value` units to microseconds.
    pub fn to_micros(&self, value: i64) -> (micros: i64)
        requires
            self.micros_fit(value as int),
        ensures
            micros == self.micros(value as int),
    {
        match self {
            TimeUnit::Second => value * MICROS_PER_SECOND,
            TimeUnit::Millisecond => value * THOUSAND,
            TimeUnit::Microsecond => value,
            TimeUnit::Nanosecond => value / THOUSAND,
        }
    }
}

/// The key of an entry of a map value.
#[derive(Debug, PartialEq, Eq)]
pub enum MapKey {
    Text(String),
    Blob(Vec<u8>),
    /// A key of any other type, by its debug text.
    Other(String),
}

/// A map key as a mathematical term.
pub enum MapKeyView {
    Text(Seq<char>),
    Blob(Seq<u8>),
    Other(Seq<char>),
}

impl View for MapKey {
    type V = MapKeyView;

    open spec fn view(&self) -> MapKeyView {
        match self {
            MapKey::Text(s) => MapKeyView::Text(s@),
            MapKey::Blob(b) => MapKeyView::Blob(b@),
            MapKey::Other(s) => MapKeyView::Other(s@),
        }
    }
}

/// A value of a result row.
#[derive(Debug, PartialEq, Eq)]
pub enum Value {
    Null,
    Boolean(bool),
    TinyInt(i8),
    SmallInt(i16),
    Int(i32),
    BigInt(i64),
    HugeInt(i128),
    UTinyInt(u8),
    USmallInt(u16),
    UInt(u32),
    UBigInt(u64),
    UHugeInt(u128),
    /// A binary32 number, widened to binary64 and held by its bit pattern.
    Float(u64),
    /// A binary64 number, by its bit pattern.
    Double(u64),
    Timestamp(TimeUnit, i64),
    Text(String),
    Blob(Vec<u8>),
    Time64(TimeUnit, i64),
    List(Vec<Value>),
    /// The label of an enum value.
    Enum(String),
    /// The fields of a struct, in declaration order.
    Struct(Vec<(String, Value)>),
    Array(Vec<Value>),
    Mapping(Vec<(MapKey, Value)>),
    /// The active alternative of a union.
    Union(Box<Value>),
    /// A value of any other type, by its debug text.
    Other(String),
}

/// A value of a result row as a mathematical term.
pub enum ValueView {
    Null,
    Boolean(bool),
    TinyInt(i8),
    SmallInt(i16),
    Int(i32),
    BigInt(i64),
    HugeInt(i128),
    UTinyInt(u8),
    USmallInt(u16),
    UInt(u32),
    UBigInt(u64),
    UHugeInt(u128),
    Float(u64),
    Double(u64),
    Timestamp(TimeUnit, i64),
    Text(Seq<char>),
    Blob(Seq<u8>),
    Time64(TimeUnit, i64),
    List(Seq<ValueView>),
    Enum(Seq<char>),
    Struct(Seq<(Seq<char>, ValueView)>),
    Array(Seq<ValueView>),
    Mapping(Seq<(MapKeyView, ValueView)>),
    Union(Box<ValueView>),
    Other(Seq<char>),
}

/// The views of a sequence of values, in order.
pub open spec fn value_views(items: Seq<Value>) -> Seq<ValueView>
    decreases items,
{
    Seq::new(
        items.len(),
        |i: int|
            if 0 <= i < items.len() {
                items[i]@
            } else {
                ValueView::Null
            },
    )
}

/// The views of the fields of a struct value, in order.
pub open spec fn field_views(fields: Seq<(String, Value)>) -> Seq<(Seq<char>, ValueView)>
    decreases fields,
{
    Seq::new(
        fields.len(),
        |i: int|
            if 0 <= i < fields.len() {
                (fields[i].0@, fields[i].1@)
            } else {
                (Seq::empty(), ValueView::Null)
            },
    )
}

/// The views of the entries of a map value, in order.
pub open spec fn entry_views(entries: Seq<(MapKey, Value)>) -> Seq<(MapKeyView, ValueView)>
    decreases entries,
{
    Seq::new(
        entries.len(),
        |i: int|
            if 0 <= i < entries.len() {
                (entries[i].0@, entries[i].1@)
            } else {
                (MapKeyView::Other(Seq::empty()), ValueView::Null)
            },
    )
}

/// `value_views` goes item by item.
pub proof fn lemma_value_views(items: Seq<Value>)
    ensures
        value_views(items).len() == items.len(),
        forall|i: int| 0 <= i < items.len() ==> (#[trigger] value_views(items)[i]) == items[i]@,
{
}

/// `field_views` goes field by field.
pub proof fn lemma_field_views(fields: Seq<(String, Value)>)
    ensures
        field_views(fields).len() == fields.len(),
        forall|i: int|
            0 <= i < fields.len() ==> (#[trigger] field_views(fields)[i]) == (
                fields[i].0@,
                fields[i].1@,
            ),
{
}

/// `entry_views` goes entry by entry.
pub proof fn lemma_entry_views(entries: Seq<(MapKey, Value)>)
    ensures
        entry_views(entries).len() == entries.len(),
        forall|i: int|
            0 <= i < entries.len() ==> (#[trigger] entry_views(entries)[i]) == (
                entries[i].0@,
                entries[i].1@,
            ),
{
}

/// The view of the active alternative of a union. The view of a value
/// reaches the views of its parts only through functions like this one.
pub open spec fn inner_view(inner: Value) -> ValueView
    decreases inner, 1int,
{
    inner@
}

/// The views of the rows of a result set, in order.
pub open spec fn table_views(rows: Seq<Vec<Value>>) -> Seq<Seq<ValueView>> {
    Seq::new(rows.len(), |i: int| value_views(rows[i]@))
}

impl View for Value {
    type V = ValueView;

    open spec fn view(&self) -> ValueView
        decreases self, 0int,
    {
        match self {
            Value::Null => ValueView::Null,
            Value::Boolean(b) => ValueView::Boolean(*b),
            Value::TinyInt(i) => ValueView::TinyInt(*i),
            Value::SmallInt(i) => ValueView::SmallInt(*i),
            Value::Int(i) => ValueView::Int(*i),
            Value::BigInt(i) => ValueView::BigInt(*i),
            Value::HugeInt(i) => ValueView::HugeInt(*i),
            Value::UTinyInt(u) => ValueView::UTinyInt(*u),
            Value::USmallInt(u) => ValueView::USmallInt(*u),
            Value::UInt(u) => ValueView::UInt(*u),
            Value::UBigInt(u) => ValueView::UBigInt(*u),
            Value::UHugeInt(u) => ValueView::UHugeInt(*u),
            Value::Float(bits) => ValueView::Float(*bits),
            Value::Double(bits) => ValueView::Double(*bits),
            Value::Timestamp(unit, count) => ValueView::Timestamp(*unit, *count),
            Value::Text(s) => ValueView::Text(s@),
            Value::Blob(b) => ValueView::Blob(b@),
            Value::Time64(unit, count) => ValueView::Time64(*unit, *count),
            Value::List(items) => ValueView::List(value_views(items@)),
            Value::Enum(s) => ValueView::Enum(s@),
            Value::Struct(fields) => ValueView::Struct(field_views(fields@)),
            Value::Array(items) => ValueView::Array(value_views(items@)),
            Value::Mapping(entries) => ValueView::Mapping(entry_views(entries@)),
            Value::Union(inner) => ValueView::Union(Box::new(inner_view(**inner))),
            Value::Other(s) => ValueView::Other(s@),
        }
    }
}

/// Every timestamp and time of day in all of `items` can be told in
/// microseconds.
pub open spec fn all_fit(items: Seq<ValueView>) -> bool
    decreases items,
{
    forall|i: int| 0 <= i < items.len() ==> (#[trigger] items[i]).micros_fit()
}

/// Every timestamp and time of day in the fields of a struct can be told in
/// microseconds.
pub open spec fn all_fields_fit(fields: Seq<(Seq<char>, ValueView)>) -> bool
    decreases fields,
{
    forall|i: int| 0 <= i < fields.len() ==> (#[trigger] fields[i]).1.micros_fit()
}

/// Every timestamp and time of day in the values of a map can be told in
/// microseconds.
pub open spec fn all_entries_fit(entries: Seq<(MapKeyView, ValueView)>) -> bool
    decreases entries,
{
    forall|i: int| 0 <= i < entries.len() ==> (#[trigger] entries[i]).1.micros_fit()
}

impl ValueView {
    /// Every timestamp and time of day in the value, at any depth, can be told
    /// in microseconds as a 64-bit signed number.
    pub open spec fn micros_fit(self) -> bool
        decreases self,
    {
        match self {
            ValueView::Timestamp(unit, count) => unit.micros_fit(count as int),
            ValueView::Time64(unit, count) => unit.micros_fit(count as int),
            ValueView::List(items) => all_fit(items),
            ValueView::Array(items) => all_fit(items),
            ValueView::Struct(fields) => all_fields_fit(fields),
            ValueView::Mapping(entries) => all_entries_fit(entries),
            ValueView::Union(inner) => inner.micros_fit(),
            _ => true,
        }
    }
}

/// Whether every value of `items` can be converted: see `Value::fits_micros`.
pub fn all_fit_micros(items: &Vec<Value>) -> (fits: bool)
    ensures
        fits == all_fit(value_views(items@)),
    decreases items,
{
    proof {
        lemma_value_views(items@);
    }
    let mut i: usize = 0;
    while i < items.len()
        invariant
            i <= items@.len(),
            value_views(items@).len() == items@.len(),
            forall|j: int| 0 <= j < i ==> (#[trigger] value_views(items@)[j]).micros_fit(),
            forall|j: int|
                0 <= j < items@.len() ==> (#[trigger] value_views(items@)[j]) == items@[j]@,
        decreases items@.len() - i,
    {
        if !items[i].fits_micros() {
            assert(!value_views(items@)[i as int].micros_fit());
            return false;
        }
        i += 1;
    }
    true
}

/// Whether every field of a struct can be converted: see
/// `Value::fits_micros`.
fn fields_fit_micros(fields: &Vec<(String, Value)>) -> (fits: bool)
    ensures
        fits == all_fields_fit(field_views(fields@)),
    decreases fields,
{
    proof {
        lemma_field_views(fields@);
    }
    let mut i: usize = 0;
    while i < fields.len()
        invariant
            i <= fields@.len(),
            field_views(fields@).len() == fields@.len(),
            forall|j: int| 0 <= j < i ==> (#[trigger] field_views(fields@)[j]).1.micros_fit(),
            forall|j: int|
                0 <= j < fields@.len() ==> (#[trigger] field_views(fields@)[j]) == (
                    fields@[j].0@,
                    fields@[j].1@,
                ),
        decreases fields@.len() - i,
    {
        if !fields[i].1.fits_micros() {
            assert(!field_views(fields@)[i as int].1.micros_fit());
            return false;
        }
        i += 1;
    }
    true
}

/// Whether every value of a map can be converted: see `Value::fits_micros`.
fn entries_fit_micros(entries: &Vec<(MapKey, Value)>) -> (fits: bool)
    ensures
        fits == all_entries_fit(entry_views(entries@)),
    decreases entries,
{
    proof {
        lemma_entry_views(entries@);
    }
    let mut i: usize = 0;
    while i < entries.len()
        invariant
            i <= entries@.len(),
            entry_views(entries@).len() == entries@.len(),
            forall|j: int| 0 <= j < i ==> (#[trigger] entry_views(entries@)[j]).1.micros_fit(),
            forall|j: int|
                0 <= j < entries@.len() ==> (#[trigger] entry_views(entries@)[j]) == (
                    entries@[j].0@,
                    entries@[j].1@,
                ),
        decreases entries@.len() - i,
    {
        if !entries[i].1.fits_micros() {
            assert(!entry_views(entries@)[i as int].1.micros_fit());
            return false;
        }
        i += 1;
    }
    true
}

impl Value {
    /// Whether every timestamp and time of day in the value, at any depth,
    /// can be told in microseconds as a 64-bit signed number.
    pub fn fits_micros(&self) -> (fits: bool)
        ensures
            fits == self@.micros_fit(),
        decreases self,
    {
        match self {
            Value::Timestamp(unit, count) => unit.fits_micros(*count),
            Value::Time64(unit, count) => unit.fits_micros(*count),
            Value::List(items) => all_fit_micros(items),
            Value::Array(items) => all_fit_micros(items),
            Value::Struct(fields) => fields_fit_micros(fields),
            Value::Mapping(entries) => entries_fit_micros(entries),
            Value::Union(inner) => inner.fits_micros(),
            _ => true,
        }
    }
}

} // verus!
