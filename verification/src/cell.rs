//! The generic spreadsheet cell, as the scanner reads it.
//!
//! The workbook boundary hands cells over as plain values. A numeric cell
//! carries both renderings the scanner can ask for: its text form and its
//! whole-number form, both fixed at the boundary, since the engine itself
//! never works on fractional numbers.

use vstd::prelude::*;

verus! {

/// Spec-level mirror of [`CellValue`], with text as character sequences.
pub enum CellV {
    Empty,
    Text(Seq<char>),
    Int(i64),
    Float { repr: Seq<char>, whole: u64 },
    DateTime { repr: Seq<char>, whole: u64 },
    Other,
}

/// One cell of the input grid: the closed union of shapes a spreadsheet cell
/// can take. `Other` stands for any further cell shape (an error cell, a
/// boolean), which no coercion accepts.
pub enum CellValue {
    Empty,
    Text(String),
    /// An integer cell.
    Int(i64),
    /// A fractional cell: `repr` is its standard text rendering, `whole` its
    /// saturating whole-number cast.
    Float { repr: String, whole: u64 },
    /// A date/time cell, carried as its serial number's renderings.
    DateTime { repr: String, whole: u64 },
    Other,
}

impl View for CellValue {
    type V = CellV;

    open spec fn view(&self) -> CellV {
        match self {
            CellValue::Empty => CellV::Empty,
            CellValue::Text(s) => CellV::Text(s@),
            CellValue::Int(i) => CellV::Int(*i),
            CellValue::Float { repr, whole } => CellV::Float { repr: repr@, whole: *whole },
            CellValue::DateTime { repr, whole } => CellV::DateTime { repr: repr@, whole: *whole },
            CellValue::Other => CellV::Other,
        }
    }
}

impl DeepView for CellValue {
    type V = CellV;

    open spec fn deep_view(&self) -> CellV {
        self.view()
    }
}

} // verus!
