//! Wire-level values: what one column of a stored row holds.
use vstd::prelude::*;

verus! {

/// The declared type of a column at the wire level.
#[derive(Clone, Copy, Debug, PartialEq, Eq, Structural)]
pub enum WireType {
    Text,
    Float8,
    Bool,
    Int4,
    Timestamp,
    Date,
}

/// A 64-bit floating-point value, carried as its IEEE-754 bit pattern.
///
/// Monetary amounts travel as `FLOAT8` at the wire level; the library never
/// computes with them, it only moves them between records and rows.
#[derive(Clone, Copy, Debug, PartialEq, Eq, Structural)]
pub struct Float8 {
    pub bits: u64,
}

/// A calendar timestamp without time zone.
///
/// `day` counts days in the proleptic Gregorian calendar with January 1 of
/// year 1 as day 1; `micros` counts microseconds since midnight of that day.
#[derive(Clone, Copy, Debug, PartialEq, Eq, Structural)]
pub struct Timestamp {
    pub day: i32,
    pub micros: u64,
}

/// One value of a row: either a present scalar or the explicit null marker.
#[derive(Clone, Debug, PartialEq)]
pub enum WireValue {
    Null,
    Text(String),
    Float8(Float8),
    Bool(bool),
    Int4(i32),
    Timestamp(Timestamp),
    /// A calendar day, numbered as in [`Timestamp::day`].
    Date(i32),
}

/// The mathematical value of a [`WireValue`].
pub enum Cell {
    Null,
    Text(Seq<char>),
    Float8(Float8),
    Bool(bool),
    Int4(i32),
    Timestamp(Timestamp),
    Date(i32),
}

impl View for WireValue {
    type V = Cell;

    open spec fn view(&self) -> Cell {
        match self {
            WireValue::Null => Cell::Null,
            WireValue::Text(s) => Cell::Text(s@),
            WireValue::Float8(f) => Cell::Float8(*f),
            WireValue::Bool(b) => Cell::Bool(*b),
            WireValue::Int4(n) => Cell::Int4(*n),
            WireValue::Timestamp(t) => Cell::Timestamp(*t),
            WireValue::Date(d) => Cell::Date(*d),
        }
    }
}

/// The cells of a row of wire values.
pub open spec fn cells_of(row: Seq<WireValue>) -> Seq<Cell> {
    row.map_values(|v: WireValue| v@)
}

/// The wire type of a present cell; `None` for the null marker.
pub open spec fn type_of(c: Cell) -> Option<WireType> {
    match c {
        Cell::Null => None,
        Cell::Text(_) => Some(WireType::Text),
        Cell::Float8(_) => Some(WireType::Float8),
        Cell::Bool(_) => Some(WireType::Bool),
        Cell::Int4(_) => Some(WireType::Int4),
        Cell::Timestamp(_) => Some(WireType::Timestamp),
        Cell::Date(_) => Some(WireType::Date),
    }
}

/// The wire type of a present value; `None` for the null marker.
pub fn value_type(v: &WireValue) -> (r: Option<WireType>)
    ensures
        r == type_of(v@),
{
    match v {
        WireValue::Null => None,
        WireValue::Text(_) => Some(WireType::Text),
        WireValue::Float8(_) => Some(WireType::Float8),
        WireValue::Bool(_) => Some(WireType::Bool),
        WireValue::Int4(_) => Some(WireType::Int4),
        WireValue::Timestamp(_) => Some(WireType::Timestamp),
        WireValue::Date(_) => Some(WireType::Date),
    }
}

} // verus!
