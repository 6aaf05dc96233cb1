//! The record codec: typed records to positional wire rows and back.
use vstd::prelude::*;
use crate::schema::{Column, DecodeError, cell_at, conforms, first_fault, padded};
use crate::wire::{Cell, Float8, Timestamp, WireValue, cells_of, type_of};

verus! {

/// A record whose fields map one for one, in declared order, onto the
/// columns of a table.
pub trait WireRecord: Sized {
    /// The declared columns, in the order in which `encode` emits values.
    spec fn columns() -> Seq<Column>;

    /// The record as a sequence of cells, one per declared column.
    spec fn cells(&self) -> Seq<Cell>;

    /// The declared columns, as values.
    fn column_list() -> (r: Vec<Column>)
        ensures
            r@ == Self::columns(),
    ;

    /// Encodes the record as a row of wire values, one per declared column.
    fn encode(&self) -> (r: Vec<WireValue>)
        ensures
            cells_of(r@) == self.cells(),
    ;

    /// Decodes a stored row. A row that does not conform to the declared
    /// columns yields the fault of its first non-conforming column; a
    /// conforming row yields the record whose cells are the row's.
    fn decode(row: &Vec<WireValue>) -> (r: Result<Self, DecodeError>)
        ensures
            r is Ok <==> conforms(Self::columns(), cells_of(row@)),
            r is Err ==> first_fault(Self::columns(), cells_of(row@)) == Some(r->Err_0),
            r is Ok ==> r->Ok_0.cells() == padded(cells_of(row@), Self::columns().len()),
    ;

    /// Every record has one cell per declared column, and each present cell
    /// has the column's declared wire type.
    proof fn lemma_aligned(&self)
        ensures
            self.cells().len() == Self::columns().len(),
            forall|i: int|
                0 <= i < self.cells().len() ==> #[trigger] self.cells()[i] is Null || type_of(
                    self.cells()[i],
                ) == Some(Self::columns()[i].wire_type),
    ;
}

/// The cell of a text field.
pub open spec fn text_cell(s: String) -> Cell {
    Cell::Text(s@)
}

/// The cell of a nullable text field.
pub open spec fn opt_text_cell(o: Option<String>) -> Cell {
    match o {
        Some(s) => text_cell(s),
        None => Cell::Null,
    }
}

/// The cell of a 64-bit float field.
pub open spec fn float_cell(s: Float8) -> Cell {
    Cell::Float8(s)
}

/// The cell of a nullable 64-bit float field.
pub open spec fn opt_float_cell(o: Option<Float8>) -> Cell {
    match o {
        Some(s) => float_cell(s),
        None => Cell::Null,
    }
}

/// The cell of a boolean field.
pub open spec fn bool_cell(s: bool) -> Cell {
    Cell::Bool(s)
}

/// The cell of a nullable boolean field.
pub open spec fn opt_bool_cell(o: Option<bool>) -> Cell {
    match o {
        Some(s) => bool_cell(s),
        None => Cell::Null,
    }
}

/// The cell of a 32-bit integer field.
pub open spec fn int4_cell(s: i32) -> Cell {
    Cell::Int4(s)
}

/// The cell of a nullable 32-bit integer field.
pub open spec fn opt_int4_cell(o: Option<i32>) -> Cell {
    match o {
        Some(s) => int4_cell(s),
        None => Cell::Null,
    }
}

/// The cell of a timestamp field.
pub open spec fn ts_cell(s: Timestamp) -> Cell {
    Cell::Timestamp(s)
}

/// The cell of a nullable timestamp field.
pub open spec fn opt_ts_cell(o: Option<Timestamp>) -> Cell {
    match o {
        Some(s) => ts_cell(s),
        None => Cell::Null,
    }
}

/// The cell of a calendar day field.
pub open spec fn date_cell(s: i32) -> Cell {
    Cell::Date(s)
}

/// The cell of a nullable calendar day field.
pub open spec fn opt_date_cell(o: Option<i32>) -> Cell {
    match o {
        Some(s) => date_cell(s),
        None => Cell::Null,
    }
}

/// The wire value of a text field.
pub fn text_value(s: &String) -> (r: WireValue)
    ensures
        r@ == text_cell(*s),
{
    WireValue::Text(s.clone())
}

/// The wire value of a nullable text field.
pub fn opt_text_value(o: &Option<String>) -> (r: WireValue)
    ensures
        r@ == opt_text_cell(*o),
{
    match o {
        Some(s) => WireValue::Text(s.clone()),
        None => WireValue::Null,
    }
}

/// The text held at position `i` of a row.
pub fn text_at(row: &Vec<WireValue>, i: usize) -> (r: String)
    requires
        cell_at(cells_of(row@), i as int) is Text,
    ensures
        text_cell(r) == cell_at(cells_of(row@), i as int),
{
    assert(cells_of(row@)[i as int] == row@[i as int]@);
    match &row[i] {
        WireValue::Text(s) => s.clone(),
        _ => String::new(),
    }
}

/// The text or null held at position `i` of a row; an absent column is null.
pub fn opt_text_at(row: &Vec<WireValue>, i: usize) -> (r: Option<String>)
    requires
        cell_at(cells_of(row@), i as int) is Text || cell_at(cells_of(row@), i as int) is Null,
    ensures
        opt_text_cell(r) == cell_at(cells_of(row@), i as int),
{
    if i >= row.len() {
        return None;
    }
    assert(cells_of(row@)[i as int] == row@[i as int]@);
    match &row[i] {
        WireValue::Text(s) => Some(s.clone()),
        _ => None,
    }
}

/// The wire value of a 64-bit float field.
pub fn float_value(s: &Float8) -> (r: WireValue)
    ensures
        r@ == float_cell(*s),
{
    WireValue::Float8(*s)
}

/// The wire value of a nullable 64-bit float field.
pub fn opt_float_value(o: &Option<Float8>) -> (r: WireValue)
    ensures
        r@ == opt_float_cell(*o),
{
    match o {
        Some(s) => WireValue::Float8(*s),
        None => WireValue::Null,
    }
}

/// The 64-bit float held at position `i` of a row.
pub fn float_at(row: &Vec<WireValue>, i: usize) -> (r: Float8)
    requires
        cell_at(cells_of(row@), i as int) is Float8,
    ensures
        float_cell(r) == cell_at(cells_of(row@), i as int),
{
    assert(cells_of(row@)[i as int] == row@[i as int]@);
    match &row[i] {
        WireValue::Float8(s) => *s,
        _ => Float8 { bits: 0 },
    }
}

/// The 64-bit float or null held at position `i` of a row; an absent column is null.
pub fn opt_float_at(row: &Vec<WireValue>, i: usize) -> (r: Option<Float8>)
    requires
        cell_at(cells_of(row@), i as int) is Float8 || cell_at(cells_of(row@), i as int) is Null,
    ensures
        opt_float_cell(r) == cell_at(cells_of(row@), i as int),
{
    if i >= row.len() {
        return None;
    }
    assert(cells_of(row@)[i as int] == row@[i as int]@);
    match &row[i] {
        WireValue::Float8(s) => Some(*s),
        _ => None,
    }
}

/// The wire value of a boolean field.
pub fn bool_value(s: &bool) -> (r: WireValue)
    ensures
        r@ == bool_cell(*s),
{
    WireValue::Bool(*s)
}

/// The wire value of a nullable boolean field.
pub fn opt_bool_value(o: &Option<bool>) -> (r: WireValue)
    ensures
        r@ == opt_bool_cell(*o),
{
    match o {
        Some(s) => WireValue::Bool(*s),
        None => WireValue::Null,
    }
}

/// The boolean held at position `i` of a row.
pub fn bool_at(row: &Vec<WireValue>, i: usize) -> (r: bool)
    requires
        cell_at(cells_of(row@), i as int) is Bool,
    ensures
        bool_cell(r) == cell_at(cells_of(row@), i as int),
{
    assert(cells_of(row@)[i as int] == row@[i as int]@);
    match &row[i] {
        WireValue::Bool(s) => *s,
        _ => false,
    }
}

/// The boolean or null held at position `i` of a row; an absent column is null.
pub fn opt_bool_at(row: &Vec<WireValue>, i: usize) -> (r: Option<bool>)
    requires
        cell_at(cells_of(row@), i as int) is Bool || cell_at(cells_of(row@), i as int) is Null,
    ensures
        opt_bool_cell(r) == cell_at(cells_of(row@), i as int),
{
    if i >= row.len() {
        return None;
    }
    assert(cells_of(row@)[i as int] == row@[i as int]@);
    match &row[i] {
        WireValue::Bool(s) => Some(*s),
        _ => None,
    }
}

/// The wire value of a 32-bit integer field.
pub fn int4_value(s: &i32) -> (r: WireValue)
    ensures
        r@ == int4_cell(*s),
{
    WireValue::Int4(*s)
}

/// The wire value of a nullable 32-bit integer field.
pub fn opt_int4_value(o: &Option<i32>) -> (r: WireValue)
    ensures
        r@ == opt_int4_cell(*o),
{
    match o {
        Some(s) => WireValue::Int4(*s),
        None => WireValue::Null,
    }
}

/// The 32-bit integer held at position `i` of a row.
pub fn int4_at(row: &Vec<WireValue>, i: usize) -> (r: i32)
    requires
        cell_at(cells_of(row@), i as int) is Int4,
    ensures
        int4_cell(r) == cell_at(cells_of(row@), i as int),
{
    assert(cells_of(row@)[i as int] == row@[i as int]@);
    match &row[i] {
        WireValue::Int4(s) => *s,
        _ => 0,
    }
}

/// The 32-bit integer or null held at position `i` of a row; an absent column is null.
pub fn opt_int4_at(row: &Vec<WireValue>, i: usize) -> (r: Option<i32>)
    requires
        cell_at(cells_of(row@), i as int) is Int4 || cell_at(cells_of(row@), i as int) is Null,
    ensures
        opt_int4_cell(r) == cell_at(cells_of(row@), i as int),
{
    if i >= row.len() {
        return None;
    }
    assert(cells_of(row@)[i as int] == row@[i as int]@);
    match &row[i] {
        WireValue::Int4(s) => Some(*s),
        _ => None,
    }
}

/// The wire value of a timestamp field.
pub fn ts_value(s: &Timestamp) -> (r: WireValue)
    ensures
        r@ == ts_cell(*s),
{
    WireValue::Timestamp(*s)
}

/// The wire value of a nullable timestamp field.
pub fn opt_ts_value(o: &Option<Timestamp>) -> (r: WireValue)
    ensures
        r@ == opt_ts_cell(*o),
{
    match o {
        Some(s) => WireValue::Timestamp(*s),
        None => WireValue::Null,
    }
}

/// The timestamp held at position `i` of a row.
pub fn ts_at(row: &Vec<WireValue>, i: usize) -> (r: Timestamp)
    requires
        cell_at(cells_of(row@), i as int) is Timestamp,
    ensures
        ts_cell(r) == cell_at(cells_of(row@), i as int),
{
    assert(cells_of(row@)[i as int] == row@[i as int]@);
    match &row[i] {
        WireValue::Timestamp(s) => *s,
        _ => Timestamp { day: 0, micros: 0 },
    }
}

/// The timestamp or null held at position `i` of a row; an absent column is null.
pub fn opt_ts_at(row: &Vec<WireValue>, i: usize) -> (r: Option<Timestamp>)
    requires
        cell_at(cells_of(row@), i as int) is Timestamp || cell_at(cells_of(row@), i as int) is Null,
    ensures
        opt_ts_cell(r) == cell_at(cells_of(row@), i as int),
{
    if i >= row.len() {
        return None;
    }
    assert(cells_of(row@)[i as int] == row@[i as int]@);
    match &row[i] {
        WireValue::Timestamp(s) => Some(*s),
        _ => None,
    }
}

/// The wire value of a calendar day field.
pub fn date_value(s: &i32) -> (r: WireValue)
    ensures
        r@ == date_cell(*s),
{
    WireValue::Date(*s)
}

/// The wire value of a nullable calendar day field.
pub fn opt_date_value(o: &Option<i32>) -> (r: WireValue)
    ensures
        r@ == opt_date_cell(*o),
{
    match o {
        Some(s) => WireValue::Date(*s),
        None => WireValue::Null,
    }
}

/// The calendar day held at position `i` of a row.
pub fn date_at(row: &Vec<WireValue>, i: usize) -> (r: i32)
    requires
        cell_at(cells_of(row@), i as int) is Date,
    ensures
        date_cell(r) == cell_at(cells_of(row@), i as int),
{
    assert(cells_of(row@)[i as int] == row@[i as int]@);
    match &row[i] {
        WireValue::Date(s) => *s,
        _ => 0,
    }
}

/// The calendar day or null held at position `i` of a row; an absent column is null.
pub fn opt_date_at(row: &Vec<WireValue>, i: usize) -> (r: Option<i32>)
    requires
        cell_at(cells_of(row@), i as int) is Date || cell_at(cells_of(row@), i as int) is Null,
    ensures
        opt_date_cell(r) == cell_at(cells_of(row@), i as int),
{
    if i >= row.len() {
        return None;
    }
    assert(cells_of(row@)[i as int] == row@[i as int]@);
    match &row[i] {
        WireValue::Date(s) => Some(*s),
        _ => None,
    }
}

/// Decodes a retrieved result set in order. The first row that does not
/// conform to the declared columns fails the whole set with its fault; no
/// partly decoded set is returned.
pub fn decode_rows<T: WireRecord>(rows: &Vec<Vec<WireValue>>) -> (r: Result<Vec<T>, DecodeError>)
    ensures
        r is Ok <==> forall|i: int|
            0 <= i < rows@.len() ==> conforms(T::columns(), cells_of(#[trigger] rows@[i]@)),
        r is Err ==> exists|i: int|
            0 <= i < rows@.len() && !conforms(T::columns(), cells_of(#[trigger] rows@[i]@))
                && first_fault(T::columns(), cells_of(rows@[i]@)) == Some(r->Err_0)
                && forall|j: int| 0 <= j < i ==> conforms(T::columns(), cells_of(#[trigger] rows@[j]@)),
        r is Ok ==> r->Ok_0@.len() == rows@.len() && forall|i: int|
            0 <= i < rows@.len() ==> (#[trigger] r->Ok_0@[i]).cells() == padded(
                cells_of(rows@[i]@),
                T::columns().len(),
            ),
{
    let mut out: Vec<T> = Vec::with_capacity(rows.len());
    let mut i: usize = 0;
    while i < rows.len()
        invariant
            i <= rows@.len(),
            out@.len() == i,
            forall|j: int| 0 <= j < i ==> conforms(T::columns(), cells_of(#[trigger] rows@[j]@)),
            forall|j: int|
                0 <= j < i ==> (#[trigger] out@[j]).cells() == padded(
                    cells_of(rows@[j]@),
                    T::columns().len(),
                ),
        decreases rows@.len() - i,
    {
        match T::decode(&rows[i]) {
            Ok(rec) => {
                out.push(rec);
            },
            Err(e) => {
                return Err(e);
            },
        }
        i = i + 1;
    }
    Ok(out)
}

} // verus!
