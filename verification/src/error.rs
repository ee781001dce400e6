//! The single error surface of the conversion: every failure anywhere in the
//! scan or synthesis pipeline is one of these values, carrying the offending
//! string where there is one.

use vstd::prelude::*;
use vstd::string::*;

verus! {

/// Spec-level mirror of [`ConvertError`], with string payloads as character
/// sequences.
pub enum ErrorV {
    NoWorksheet,
    ReadError(Seq<char>),
    DeserializeError(Seq<char>),
    XlsxError(Seq<char>),
    IncorrectSubject(Seq<char>),
    IncorrectFieldVariant(Seq<char>),
    IncorrectRequired(Seq<char>),
    IncorrectInputSpecificationError(Seq<char>),
    IncorrectNumInputSpecificationError(Seq<char>),
    ExpectedString,
    ExpectedInt,
    ExpectedIntOrString,
    UnparseableFieldNumber,
    UnparseableCell,
    PlaceholderNotInOptions,
    SerializeError(Seq<char>),
    IOError(Seq<char>),
}

/// Why a conversion failed. The first error aborts the whole conversion;
/// nothing is retried or recovered locally.
#[derive(Debug, PartialEq, Eq)]
pub enum ConvertError {
    NoWorksheet,
    ReadError(String),
    DeserializeError(String),
    XlsxError(String),
    IncorrectSubject(String),
    IncorrectFieldVariant(String),
    IncorrectRequired(String),
    IncorrectInputSpecificationError(String),
    IncorrectNumInputSpecificationError(String),
    ExpectedString,
    ExpectedInt,
    ExpectedIntOrString,
    UnparseableFieldNumber,
    UnparseableCell,
    PlaceholderNotInOptions,
    SerializeError(String),
    IOError(String),
}

impl View for ConvertError {
    type V = ErrorV;

    open spec fn view(&self) -> ErrorV {
        match self {
            ConvertError::NoWorksheet => ErrorV::NoWorksheet,
            ConvertError::ReadError(s) => ErrorV::ReadError(s@),
            ConvertError::DeserializeError(s) => ErrorV::DeserializeError(s@),
            ConvertError::XlsxError(s) => ErrorV::XlsxError(s@),
            ConvertError::IncorrectSubject(s) => ErrorV::IncorrectSubject(s@),
            ConvertError::IncorrectFieldVariant(s) => ErrorV::IncorrectFieldVariant(s@),
            ConvertError::IncorrectRequired(s) => ErrorV::IncorrectRequired(s@),
            ConvertError::IncorrectInputSpecificationError(s) => ErrorV::IncorrectInputSpecificationError(s@),
            ConvertError::IncorrectNumInputSpecificationError(s) => ErrorV::IncorrectNumInputSpecificationError(s@),
            ConvertError::ExpectedString => ErrorV::ExpectedString,
            ConvertError::ExpectedInt => ErrorV::ExpectedInt,
            ConvertError::ExpectedIntOrString => ErrorV::ExpectedIntOrString,
            ConvertError::UnparseableFieldNumber => ErrorV::UnparseableFieldNumber,
            ConvertError::UnparseableCell => ErrorV::UnparseableCell,
            ConvertError::PlaceholderNotInOptions => ErrorV::PlaceholderNotInOptions,
            ConvertError::SerializeError(s) => ErrorV::SerializeError(s@),
            ConvertError::IOError(s) => ErrorV::IOError(s@),
        }
    }
}

/// The human-readable text of each error, with the offending value embedded.
pub open spec fn error_message(e: ErrorV) -> Seq<char> {
    match e {
        ErrorV::NoWorksheet => "No worksheet in selected Xlsx file"@,
        ErrorV::ReadError(s) => "ReadError: "@ + s,
        ErrorV::DeserializeError(s) => "DeserializeError: "@ + s,
        ErrorV::XlsxError(s) => "XlsxError: "@ + s,
        ErrorV::IncorrectSubject(s) => "Wrong subject format \""@ + s + "\""@,
        ErrorV::IncorrectFieldVariant(s) => "Wrong field type \""@ + s + "\""@,
        ErrorV::IncorrectRequired(s) => "Wrong required format \""@ + s + "\""@,
        ErrorV::IncorrectInputSpecificationError(s) => "Wrong input specification format \""@ + s
            + "\""@,
        ErrorV::IncorrectNumInputSpecificationError(s) => "Wrong number input specification format \""@
            + s + "\""@,
        ErrorV::ExpectedString => "Expected string, found something else"@,
        ErrorV::ExpectedInt => "Expected whole number, found something else"@,
        ErrorV::ExpectedIntOrString => "Expected whole number or string, found something else"@,
        ErrorV::UnparseableFieldNumber => "Couldn't parse string to get field number"@,
        ErrorV::UnparseableCell => "Could not parse cell"@,
        ErrorV::PlaceholderNotInOptions => "Placeholder for multiselect not in options"@,
        ErrorV::SerializeError(s) => "Error while trying to serialize: "@ + s,
        ErrorV::IOError(s) => "IO Error: "@ + s,
    }
}

fn prefixed(prefix: &str, s: &String) -> (m: String)
    ensures
        m@ == prefix@ + s@,
{
    let mut m = prefix.to_owned();
    m.append(s.as_str());
    m
}

fn quoted(prefix: &str, s: &String) -> (m: String)
    ensures
        m@ == prefix@ + s@ + "\""@,
{
    let mut m = prefix.to_owned();
    m.append(s.as_str());
    m.append("\"");
    m
}

impl ConvertError {
    /// The human-readable text of this error.
    pub fn message(&self) -> (m: String)
        ensures
            m@ == error_message(self@),
    {
        match self {
            ConvertError::NoWorksheet => "No worksheet in selected Xlsx file".to_owned(),
            ConvertError::ReadError(s) => prefixed("ReadError: ", s),
            ConvertError::DeserializeError(s) => prefixed("DeserializeError: ", s),
            ConvertError::XlsxError(s) => prefixed("XlsxError: ", s),
            ConvertError::IncorrectSubject(s) => quoted("Wrong subject format \"", s),
            ConvertError::IncorrectFieldVariant(s) => quoted("Wrong field type \"", s),
            ConvertError::IncorrectRequired(s) => quoted("Wrong required format \"", s),
            ConvertError::IncorrectInputSpecificationError(s) => quoted(
                "Wrong input specification format \"",
                s,
            ),
            ConvertError::IncorrectNumInputSpecificationError(s) => quoted(
                "Wrong number input specification format \"",
                s,
            ),
            ConvertError::ExpectedString => "Expected string, found something else".to_owned(),
            ConvertError::ExpectedInt => "Expected whole number, found something else".to_owned(),
            ConvertError::ExpectedIntOrString => "Expected whole number or string, found something else".to_owned(),
            ConvertError::UnparseableFieldNumber => "Couldn't parse string to get field number".to_owned(),
            ConvertError::UnparseableCell => "Could not parse cell".to_owned(),
            ConvertError::PlaceholderNotInOptions => "Placeholder for multiselect not in options".to_owned(),
            ConvertError::SerializeError(s) => prefixed("Error while trying to serialize: ", s),
            ConvertError::IOError(s) => prefixed("IO Error: ", s),
        }
    }
}

} // verus!
