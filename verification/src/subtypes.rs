//! The field's constituent types: its variant, input specifications, options
//! and synthesized validators.

use vstd::prelude::*;

use crate::error::ConvertError;
use crate::error::ErrorV;
use crate::text;

verus! {

/// The closed set of form-field kinds; determines which validators apply and
/// how the placeholder is interpreted.
#[derive(Clone, Copy, Debug, PartialEq, Eq, Structural)]
pub enum FieldVariant {
    Dropdown,
    Text,
    TextArea,
    Radio,
    Multiselect,
}

impl Default for FieldVariant {
    /// A field whose type row never arrives is a single-line text field.
    fn default() -> (r: Self)
        ensures
            r == FieldVariant::Text,
    {
        FieldVariant::Text
    }
}

/// Which field variant a type cell names, or the offending text.
pub open spec fn variant_of_label(l: Seq<char>) -> Result<FieldVariant, ErrorV> {
    if l == "プルダウン"@ {
        Ok(FieldVariant::Dropdown)
    } else if l == "テキスト一行"@ {
        Ok(FieldVariant::Text)
    } else if l == "テキストエリア"@ {
        Ok(FieldVariant::TextArea)
    } else if l == "マルチセレクト"@ {
        Ok(FieldVariant::Multiselect)
    } else if l == "ラジオボタン"@ {
        Ok(FieldVariant::Radio)
    } else {
        Err(ErrorV::IncorrectFieldVariant(l))
    }
}

impl FieldVariant {
    /// Parses a type cell's text against the closed variant vocabulary.
    pub fn from_label(s: &str) -> (r: Result<FieldVariant, ConvertError>)
        ensures
            match r {
                Ok(v) => variant_of_label(s@) == Ok::<FieldVariant, ErrorV>(v),
                Err(e) => variant_of_label(s@) == Err::<FieldVariant, ErrorV>(e@),
            },
    {
        if text::str_eq(s, "プルダウン") {
            Ok(FieldVariant::Dropdown)
        } else if text::str_eq(s, "テキスト一行") {
            Ok(FieldVariant::Text)
        } else if text::str_eq(s, "テキストエリア") {
            Ok(FieldVariant::TextArea)
        } else if text::str_eq(s, "マルチセレクト") {
            Ok(FieldVariant::Multiselect)
        } else if text::str_eq(s, "ラジオボタン") {
            Ok(FieldVariant::Radio)
        } else {
            Err(ConvertError::IncorrectFieldVariant(s.to_owned()))
        }
    }
}

/// Orthogonal refinement of text fields, driving pattern validators.
#[derive(Clone, Copy, Debug, PartialEq, Eq, Structural)]
pub enum InputSpec {
    HalfWidthNumber,
    HalfWidthKanji,
}

/// Which input specification a cell names, or the offending text.
pub open spec fn input_spec_of_label(l: Seq<char>) -> Result<InputSpec, ErrorV> {
    if l == "半角数字"@ {
        Ok(InputSpec::HalfWidthNumber)
    } else if l == "半角英字"@ {
        Ok(InputSpec::HalfWidthKanji)
    } else {
        Err(ErrorV::IncorrectInputSpecificationError(l))
    }
}

impl InputSpec {
    /// Parses an input-specification cell's text.
    pub fn from_label(s: &str) -> (r: Result<InputSpec, ConvertError>)
        ensures
            match r {
                Ok(v) => input_spec_of_label(s@) == Ok::<InputSpec, ErrorV>(v),
                Err(e) => input_spec_of_label(s@) == Err::<InputSpec, ErrorV>(e@),
            },
    {
        if text::str_eq(s, "半角数字") {
            Ok(InputSpec::HalfWidthNumber)
        } else if text::str_eq(s, "半角英字") {
            Ok(InputSpec::HalfWidthKanji)
        } else {
            Err(ConvertError::IncorrectInputSpecificationError(s.to_owned()))
        }
    }
}

/// A numeric range written `"<min>~<max>"`, paired with a custom error text to
/// produce a range-check validator.
#[derive(Clone, Copy, Debug, PartialEq, Eq, Structural)]
pub struct NumInputSpec {
    pub max: u32,
    pub min: u32,
}

/// What parsing a `"<min>~<max>"` cell yields: exactly two parts around a
/// tilde, each an unsigned number, or the offending text.
pub open spec fn num_input_spec_of(l: Seq<char>) -> Result<NumInputSpec, ErrorV> {
    let parts = text::split_on(l, '~');
    if parts.len() == 2 {
        match (text::parse_u32_spec(parts[0]), text::parse_u32_spec(parts[1])) {
            (Some(mn), Some(mx)) => Ok(NumInputSpec { min: mn, max: mx }),
            _ => Err(ErrorV::IncorrectNumInputSpecificationError(l)),
        }
    } else {
        Err(ErrorV::IncorrectNumInputSpecificationError(l))
    }
}

impl NumInputSpec {
    /// Parses a numeric-range cell of the form `"<min>~<max>"`.
    pub fn from_text(s: &str) -> (r: Result<NumInputSpec, ConvertError>)
        ensures
            match r {
                Ok(v) => num_input_spec_of(s@) == Ok::<NumInputSpec, ErrorV>(v),
                Err(e) => num_input_spec_of(s@) == Err::<NumInputSpec, ErrorV>(e@),
            },
    {
        let parts = text::split_str(s, '~');
        if parts.len() == 2 {
            proof {
                assert(parts.deep_view()[0] == parts@[0]@);
                assert(parts.deep_view()[1] == parts@[1]@);
            }
            let mn = text::parse_u32_str(parts[0].as_str());
            let mx = text::parse_u32_str(parts[1].as_str());
            match (mn, mx) {
                (Some(mn), Some(mx)) => Ok(NumInputSpec { min: mn, max: mx }),
                _ => Err(ConvertError::IncorrectNumInputSpecificationError(s.to_owned())),
            }
        } else {
            Err(ConvertError::IncorrectNumInputSpecificationError(s.to_owned()))
        }
    }
}

/// Spec-level mirror of [`OptionType`].
pub struct OptionV {
    pub value: Seq<char>,
    pub label: Seq<char>,
}

/// One selectable option: a value/label pair. Both sides carry the same text
/// when read from the template; equality is over `value` only.
#[derive(Debug)]
pub struct OptionType {
    pub value: String,
    pub label: String,
}

impl View for OptionType {
    type V = OptionV;

    open spec fn view(&self) -> OptionV {
        OptionV { value: self.value@, label: self.label@ }
    }
}

impl DeepView for OptionType {
    type V = OptionV;

    open spec fn deep_view(&self) -> OptionV {
        self.view()
    }
}

impl OptionType {
    /// An option whose value and label are both `val`.
    pub fn new(val: String) -> (r: Self)
        ensures
            r@.value == val@,
            r@.label == val@,
    {
        OptionType { label: val.clone(), value: val }
    }

    /// Is this option's value exactly `v`?
    pub fn is_val(&self, v: &str) -> (r: bool)
        ensures
            r == (self@.value == v@),
    {
        text::str_eq(self.value.as_str(), v)
    }
}

/// The kind of a synthesized validation rule.
#[derive(Clone, Copy, Debug, PartialEq, Eq, Structural)]
pub enum ValidatorType {
    Text,
    Expression,
    AnswerCount,
}

/// Spec-level mirror of [`Validator`].
pub struct ValidatorV {
    pub validator_type: ValidatorType,
    pub text: Seq<char>,
    pub expression: Option<Seq<char>>,
    pub min_length: Option<u64>,
    pub max_length: Option<u64>,
}

/// One synthesized client-side validation rule with its human-readable
/// message; attached to exactly one field and never mutated afterwards.
#[derive(Debug)]
pub struct Validator {
    pub validator_type: ValidatorType,
    pub text: String,
    pub expression: Option<String>,
    pub min_length: Option<u64>,
    pub max_length: Option<u64>,
}

/// The view of an optional string.
pub open spec fn view_opt_string(o: Option<String>) -> Option<Seq<char>> {
    match o {
        Some(s) => Some(s@),
        None => None,
    }
}

impl View for Validator {
    type V = ValidatorV;

    open spec fn view(&self) -> ValidatorV {
        ValidatorV {
            validator_type: self.validator_type,
            text: self.text@,
            expression: view_opt_string(self.expression),
            min_length: self.min_length,
            max_length: self.max_length,
        }
    }
}

impl DeepView for Validator {
    type V = ValidatorV;

    open spec fn deep_view(&self) -> ValidatorV {
        self.view()
    }
}

/// Spec-level mirror of [`ProcessedData`].
pub struct ProcessedV {
    pub placeholder: Option<Seq<char>>,
    pub options_caption: Option<Seq<char>>,
    pub validators: Option<Seq<ValidatorV>>,
    pub price_max: Option<u64>,
    pub visible: Option<Seq<char>>,
}

/// The attributes derived once at field construction: the placeholder or
/// options caption (mutually exclusive by variant), the synthesized validator
/// list, the price ceiling and the visibility expression.
#[derive(Debug)]
pub struct ProcessedData {
    pub placeholder: Option<String>,
    pub options_caption: Option<String>,
    pub validators: Option<Vec<Validator>>,
    pub price_max: Option<u64>,
    pub visible: Option<String>,
}

/// The view of an optional validator list.
pub open spec fn view_opt_validators(o: Option<Vec<Validator>>) -> Option<Seq<ValidatorV>> {
    match o {
        Some(v) => Some(v.deep_view()),
        None => None,
    }
}

impl View for ProcessedData {
    type V = ProcessedV;

    open spec fn view(&self) -> ProcessedV {
        ProcessedV {
            placeholder: view_opt_string(self.placeholder),
            options_caption: view_opt_string(self.options_caption),
            validators: view_opt_validators(self.validators),
            price_max: self.price_max,
            visible: view_opt_string(self.visible),
        }
    }
}

} // verus!
