//! The values that a column of a row, or a parameter of a statement, can hold.

use vstd::prelude::*;

verus! {

/// One SQL value. A real number is recorded without its magnitude: no column
/// of the notes table holds one.
#[derive(Debug)]
pub enum Value {
    Null,
    Integer(i64),
    Real,
    Text(String),
    Blob(Vec<u8>),
}

/// What a `Value` stands for.
pub enum ValueView {
    Null,
    Integer(int),
    Real,
    Text(Seq<char>),
    Blob(Seq<u8>),
}

impl View for Value {
    type V = ValueView;

    open spec fn view(&self) -> ValueView {
        match self {
            Value::Null => ValueView::Null,
            Value::Integer(i) => ValueView::Integer(*i as int),
            Value::Real => ValueView::Real,
            Value::Text(s) => ValueView::Text(s@),
            Value::Blob(b) => ValueView::Blob(b@),
        }
    }
}

/// The views of the values of a row, in column order.
pub open spec fn row_view(row: Seq<Value>) -> Seq<ValueView> {
    row.map_values(|v: Value| v@)
}

/// The views of the rows of a result, in the order in which they came.
pub open spec fn rows_view(rows: Seq<Vec<Value>>) -> Seq<Seq<ValueView>> {
    rows.map_values(|r: Vec<Value>| row_view(r@))
}

/// The largest timestamp that an SQL integer can hold.
pub open spec fn max_timestamp() -> int {
    0x7fff_ffff_ffff_ffff
}

/// The SQL integer for a timestamp, where it has one: SQL integers are
/// signed, so the upper half of `u64` has none.
pub fn timestamp_value(seconds: u64) -> (value: Option<Value>)
    ensures
        seconds <= max_timestamp() ==> value is Some && value->0@ == ValueView::Integer(
            seconds as int,
        ),
        seconds > max_timestamp() ==> value is None,
{
    if seconds > 0x7fff_ffff_ffff_ffff {
        None
    } else {
        Some(Value::Integer(seconds as i64))
    }
}

/// The timestamp that an SQL value holds, where it is a non-negative integer.
pub fn value_timestamp(value: &Value) -> (seconds: Option<u64>)
    ensures
        seconds == timestamp_in(value@),
{
    match value {
        Value::Integer(i) => {
            if *i >= 0 {
                Some(*i as u64)
            } else {
                None
            }
        },
        _ => None,
    }
}

/// The timestamp in a value: present for a non-negative integer only.
pub open spec fn timestamp_in(value: ValueView) -> Option<u64> {
    match value {
        ValueView::Integer(i) => if 0 <= i <= max_timestamp() {
            Some(i as u64)
        } else {
            None
        },
        _ => None,
    }
}

/// The text in a value: present for a text value only.
pub open spec fn text_in(value: ValueView) -> Option<Seq<char>> {
    match value {
        ValueView::Text(s) => Some(s),
        _ => None,
    }
}

/// A copy of the text that an SQL value holds, where it is a text.
pub fn value_text(value: &Value) -> (text: Option<String>)
    ensures
        text is Some == text_in(value@) is Some,
        text is Some ==> text->0@ == text_in(value@)->0,
{
    match value {
        Value::Text(s) => Some(s.clone()),
        _ => None,
    }
}

} // verus!
