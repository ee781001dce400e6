//! Extraction of a form-field schema from a spreadsheet-shaped grid of cells,
//! with synthesis of per-field validation rules.
//!
//! The grid arrives as plain rows of [`cell::CellValue`]; the scanner in
//! [`reader`] classifies each row's label against the closed vocabulary in
//! [`subject`], coerces cells through the functions in [`field`], and builds
//! one [`field::Field`] per contiguous field block, whose validator list is
//! generated in [`validators`]. Every failure surfaces as one
//! [`error::ConvertError`], and the first one aborts the whole conversion.
//!
//! Each executable function carries a contract tying it to a spec-level model
//! of the scan; the laws in [`laws`] state the engine-wide guarantees over
//! that model.

pub mod cell;
pub mod error;
pub mod field;
pub mod laws;
pub mod reader;
pub mod subject;
pub mod subtypes;
pub mod text;
pub mod validators;
