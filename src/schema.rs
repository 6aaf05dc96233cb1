//! Column declarations and the check of a row against them.
use vstd::prelude::*;
use crate::wire::{Cell, WireType, WireValue, cells_of, type_of, value_type};

verus! {

/// One declared column: its name, wire type and whether it may hold null.
#[derive(Clone, Copy, Debug)]
pub struct Column {
    pub name: &'static str,
    pub wire_type: WireType,
    pub nullable: bool,
}

/// Why a row does not fit its declared columns.
#[derive(Clone, Copy, Debug, PartialEq, Eq)]
pub enum DecodeError {
    /// The named column is absent or null, and the schema marks it non-nullable.
    MissingRequiredField(&'static str),
    /// The named column holds a value of another wire type than declared.
    TypeMismatch(&'static str),
}

/// The cell at position `i` of a row; a column past the row's end is absent,
/// which reads as null.
pub open spec fn cell_at(row: Seq<Cell>, i: int) -> Cell {
    if 0 <= i < row.len() {
        row[i]
    } else {
        Cell::Null
    }
}

/// The first `n` cells of a row, absent ones read as null.
pub open spec fn padded(row: Seq<Cell>, n: nat) -> Seq<Cell> {
    Seq::new(n, |i: int| cell_at(row, i))
}

/// What is wrong with one cell under its column's declaration, if anything.
pub open spec fn cell_fault(col: Column, c: Cell) -> Option<DecodeError> {
    match c {
        Cell::Null => if col.nullable {
            None
        } else {
            Some(DecodeError::MissingRequiredField(col.name))
        },
        _ => if type_of(c) == Some(col.wire_type) {
            None
        } else {
            Some(DecodeError::TypeMismatch(col.name))
        },
    }
}

/// The fault of the first column at or after `i` whose cell does not fit.
pub open spec fn fault_from(cols: Seq<Column>, row: Seq<Cell>, i: int) -> Option<DecodeError>
    decreases cols.len() - i,
{
    if i < 0 || i >= cols.len() {
        None
    } else {
        match cell_fault(cols[i], cell_at(row, i)) {
            Some(e) => Some(e),
            None => fault_from(cols, row, i + 1),
        }
    }
}

/// The fault of the first column, in declared order, whose cell does not fit.
pub open spec fn first_fault(cols: Seq<Column>, row: Seq<Cell>) -> Option<DecodeError> {
    fault_from(cols, row, 0)
}

/// A row conforms to its columns when no cell has a fault.
pub open spec fn conforms(cols: Seq<Column>, row: Seq<Cell>) -> bool {
    first_fault(cols, row) is None
}

proof fn lemma_fault_from(cols: Seq<Column>, row: Seq<Cell>, i: int)
    requires
        0 <= i <= cols.len(),
        fault_from(cols, row, i) is None,
    ensures
        forall|j: int| i <= j < cols.len() ==> cell_fault(cols[j], cell_at(row, j)) is None,
    decreases cols.len() - i,
{
    if i < cols.len() {
        lemma_fault_from(cols, row, i + 1);
    }
}

/// In a conforming row every column's cell fits its declaration.
pub proof fn lemma_conforms(cols: Seq<Column>, row: Seq<Cell>)
    requires
        conforms(cols, row),
    ensures
        forall|j: int| 0 <= j < cols.len() ==> cell_fault(cols[j], cell_at(row, j)) is None,
{
    lemma_fault_from(cols, row, 0);
}

/// A row whose cells all fit their columns conforms.
pub proof fn lemma_fits_conforms(cols: Seq<Column>, row: Seq<Cell>)
    requires
        forall|j: int| 0 <= j < cols.len() ==> cell_fault(cols[j], cell_at(row, j)) is None,
    ensures
        conforms(cols, row),
{
    lemma_fits_from(cols, row, 0);
}

proof fn lemma_fits_from(cols: Seq<Column>, row: Seq<Cell>, i: int)
    requires
        0 <= i,
        forall|j: int| 0 <= j < cols.len() ==> cell_fault(cols[j], cell_at(row, j)) is None,
    ensures
        fault_from(cols, row, i) is None,
    decreases cols.len() - i,
{
    if i < cols.len() {
        lemma_fits_from(cols, row, i + 1);
    }
}

/// The fault of one cell under its column's declaration.
pub fn check_cell(col: &Column, v: &WireValue) -> (r: Option<DecodeError>)
    ensures
        r == cell_fault(*col, v@),
{
    match value_type(v) {
        None => if col.nullable {
            None
        } else {
            Some(DecodeError::MissingRequiredField(col.name))
        },
        Some(t) => if t == col.wire_type {
            None
        } else {
            Some(DecodeError::TypeMismatch(col.name))
        },
    }
}

/// Checks a row against its declared columns and reports the first fault.
pub fn check_row(cols: &Vec<Column>, row: &Vec<WireValue>) -> (r: Result<(), DecodeError>)
    ensures
        r is Ok <==> conforms(cols@, cells_of(row@)),
        r is Err ==> first_fault(cols@, cells_of(row@)) == Some(r->Err_0),
{
    let ghost cells = cells_of(row@);
    assert(cells.len() == row@.len());
    let mut i: usize = 0;
    while i < cols.len()
        invariant
            i <= cols.len(),
            cells == cells_of(row@),
            first_fault(cols@, cells) == fault_from(cols@, cells, i as int),
            cells.len() == row@.len(),
        decreases cols.len() - i,
    {
        let fault = if i < row.len() {
            assert(cells[i as int] == row@[i as int]@);
            let f = check_cell(&cols[i], &row[i]);
            f
        } else {
            check_cell(&cols[i], &WireValue::Null)
        };
        assert(fault == cell_fault(cols@[i as int], cell_at(cells, i as int)));
        if let Some(e) = fault {
            return Err(e);
        }
        i = i + 1;
    }
    Ok(())
}

} // verus!
