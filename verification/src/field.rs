//! The central entity: one scanned form field, its raw attributes and the
//! attributes derived once at construction, plus the page that owns the
//! ordered field sequence.

use vstd::prelude::*;
use vstd::string::*;

use crate::cell::CellV;
use crate::cell::CellValue;
use crate::error::ConvertError;
use crate::error::ErrorV;
use crate::subtypes::FieldVariant;
use crate::subtypes::InputSpec;
use crate::subtypes::NumInputSpec;
use crate::subtypes::OptionType;
use crate::subtypes::OptionV;
use crate::subtypes::ProcessedData;
use crate::subtypes::ProcessedV;
use crate::subtypes::Validator;
use crate::subtypes::ValidatorV;
use crate::subtypes::input_spec_of_label;
use crate::subtypes::num_input_spec_of;
use crate::subtypes::variant_of_label;
use crate::subtypes::view_opt_string;
use crate::text;
use crate::validators::spec_multiselect_validators;
use crate::validators::spec_text_validators;
use crate::validators::spec_textarea_validators;

verus! {

/// The view of an optional string list.
pub open spec fn view_opt_vec_string(o: Option<Vec<String>>) -> Option<Seq<Seq<char>>> {
    match o {
        Some(v) => Some(v.deep_view()),
        None => None,
    }
}

/// The view of an optional option list.
pub open spec fn view_opt_options(o: Option<Vec<OptionType>>) -> Option<Seq<OptionV>> {
    match o {
        Some(v) => Some(v.deep_view()),
        None => None,
    }
}

/// Spec-level mirror of [`Field`].
pub struct FieldV {
    pub field_name: Seq<char>,
    pub is_required: bool,
    pub variant: FieldVariant,
    pub label: Seq<char>,
    pub placeholder_text: Option<Seq<char>>,
    pub input_spec: Option<InputSpec>,
    pub num_input_spec: Option<NumInputSpec>,
    pub num_input_spec_error: Option<Seq<char>>,
    pub options: Option<Seq<OptionV>>,
    pub options_from_key: Option<Seq<char>>,
    pub max: Option<u64>,
    pub min: Option<u64>,
    pub display_condition_first: Option<Seq<Seq<char>>>,
    pub display_condition_second: Option<Seq<Seq<char>>>,
    pub display_condition_third: Option<Seq<Seq<char>>>,
    pub processed: ProcessedV,
}

/// One form field. Immutable once constructed: every derived attribute in
/// `processed` is computed exactly once, from the raw scan results.
#[derive(Debug)]
pub struct Field {
    pub field_name: String,
    pub is_required: bool,
    pub variant: FieldVariant,
    pub label: String,
    pub placeholder_text: Option<String>,
    pub input_spec: Option<InputSpec>,
    pub num_input_spec: Option<NumInputSpec>,
    pub num_input_spec_error: Option<String>,
    pub options: Option<Vec<OptionType>>,
    pub options_from_key: Option<String>,
    pub max: Option<u64>,
    pub min: Option<u64>,
    pub display_condition_first: Option<Vec<String>>,
    pub display_condition_second: Option<Vec<String>>,
    pub display_condition_third: Option<Vec<String>>,
    pub processed: ProcessedData,
}

impl View for Field {
    type V = FieldV;

    open spec fn view(&self) -> FieldV {
        FieldV {
            field_name: self.field_name@,
            is_required: self.is_required,
            variant: self.variant,
            label: self.label@,
            placeholder_text: view_opt_string(self.placeholder_text),
            input_spec: self.input_spec,
            num_input_spec: self.num_input_spec,
            num_input_spec_error: view_opt_string(self.num_input_spec_error),
            options: view_opt_options(self.options),
            options_from_key: view_opt_string(self.options_from_key),
            max: self.max,
            min: self.min,
            display_condition_first: view_opt_vec_string(self.display_condition_first),
            display_condition_second: view_opt_vec_string(self.display_condition_second),
            display_condition_third: view_opt_vec_string(self.display_condition_third),
            processed: self.processed@,
        }
    }
}

impl DeepView for Field {
    type V = FieldV;

    open spec fn deep_view(&self) -> FieldV {
        self.view()
    }
}

/// The ordered field sequence of one converted template; insertion order is
/// field position in the source grid and is preserved end-to-end.
#[derive(Debug)]
pub struct Page {
    pub elements: Vec<Field>,
}

impl View for Page {
    type V = Seq<FieldV>;

    open spec fn view(&self) -> Seq<FieldV> {
        self.elements.deep_view()
    }
}

impl Page {
    /// A page owning exactly the given fields, in order.
    pub fn new(elements: Vec<Field>) -> (r: Self)
        ensures
            r@ == elements.deep_view(),
    {
        Page { elements }
    }
}

/// What coercing a cell to a field-number reference yields: a string has a
/// fixed `field` prefix stripped and is parsed as an unsigned number, an
/// integer cell is cast directly, anything else is rejected.
pub open spec fn spec_field_number(c: CellV) -> Result<usize, ErrorV> {
    match c {
        CellV::Text(s) => match text::parse_usize_spec(text::trim_prefix_spec(s, "field"@)) {
            Some(n) => Ok(n),
            None => Err(ErrorV::UnparseableFieldNumber),
        },
        CellV::Int(i) => Ok(i as usize),
        _ => Err(ErrorV::ExpectedIntOrString),
    }
}

/// What coercing a cell to the required flag yields: emptiness signals the
/// field boundary, two fixed tokens mean required/optional, any other string
/// is rejected.
pub open spec fn spec_required(c: CellV) -> Result<Option<bool>, ErrorV> {
    match c {
        CellV::Empty => Ok(None),
        CellV::Text(s) => if s.len() == 0 {
            Ok(None)
        } else if s == "表示(必須)"@ {
            Ok(Some(true))
        } else if s == "表示(任意)"@ {
            Ok(Some(false))
        } else {
            Err(ErrorV::IncorrectRequired(s))
        },
        _ => Err(ErrorV::ExpectedString),
    }
}

/// What coercing a cell to a field variant yields.
pub open spec fn spec_variant(c: CellV) -> Result<FieldVariant, ErrorV> {
    match c {
        CellV::Text(s) => variant_of_label(s),
        _ => Err(ErrorV::ExpectedString),
    }
}

/// What coercing a cell to the label yields: the string verbatim.
pub open spec fn spec_label(c: CellV) -> Result<Seq<char>, ErrorV> {
    match c {
        CellV::Text(s) => Ok(s),
        _ => Err(ErrorV::ExpectedString),
    }
}

/// What coercing a cell to an optional input specification yields.
pub open spec fn spec_input_spec(c: CellV) -> Result<Option<InputSpec>, ErrorV> {
    match c {
        CellV::Empty => Ok(None),
        CellV::Text(s) => if s.len() == 0 {
            Ok(None)
        } else {
            match input_spec_of_label(s) {
                Ok(v) => Ok(Some(v)),
                Err(e) => Err(e),
            }
        },
        _ => Err(ErrorV::ExpectedString),
    }
}

/// What coercing a cell to an optional numeric range yields.
pub open spec fn spec_num_input_spec(c: CellV) -> Result<Option<NumInputSpec>, ErrorV> {
    match c {
        CellV::Empty => Ok(None),
        CellV::Text(s) => if s.len() == 0 {
            Ok(None)
        } else {
            match num_input_spec_of(s) {
                Ok(v) => Ok(Some(v)),
                Err(e) => Err(e),
            }
        },
        _ => Err(ErrorV::ExpectedString),
    }
}

/// What coercing a cell to an optional string yields: empty cells are absent,
/// strings are verbatim, numeric and date cells are their fixed text
/// rendering, anything else is rejected.
pub open spec fn spec_optional_string(c: CellV) -> Result<Option<Seq<char>>, ErrorV> {
    match c {
        CellV::Empty => Ok(None),
        CellV::Text(s) => if s.len() == 0 {
            Ok(None)
        } else {
            Ok(Some(s))
        },
        CellV::Float { repr, whole } => Ok(Some(repr)),
        CellV::Int(i) => Ok(Some(text::dec_rep_signed(i as int))),
        CellV::DateTime { repr, whole } => Ok(Some(repr)),
        _ => Err(ErrorV::UnparseableCell),
    }
}

/// What coercing a cell to an optional unsigned bound yields: empty cells are
/// absent, strings are parsed, numeric and date cells are their whole-number
/// cast, anything else is rejected.
pub open spec fn spec_optional_u64(c: CellV) -> Result<Option<u64>, ErrorV> {
    match c {
        CellV::Empty => Ok(None),
        CellV::Text(s) => if s.len() == 0 {
            Ok(None)
        } else {
            match text::parse_u64_spec(s) {
                Some(v) => Ok(Some(v)),
                None => Err(ErrorV::ExpectedInt),
            }
        },
        CellV::Float { repr, whole } => Ok(Some(whole)),
        CellV::Int(i) => Ok(Some(i as u64)),
        CellV::DateTime { repr, whole } => Ok(Some(whole)),
        _ => Err(ErrorV::UnparseableCell),
    }
}

/// `"${key} && ${key}.length > 1"`: the referenced field's value is non-empty
/// and longer than one.
pub open spec fn spec_visible_expr(k: Seq<char>) -> Seq<char> {
    "${"@ + k + "} && ${"@ + k + "}.length > 1"@
}

/// What assembling a field from its raw attributes yields: the
/// placeholder/options-caption split by variant, the price ceiling carried
/// from `max` for text areas only, the synthesized validator list (an empty
/// one collapsing to an absent one), and the visibility expression derived
/// from a back-reference.
pub open spec fn spec_field_new(
    is_required: bool,
    field_name: Seq<char>,
    variant: FieldVariant,
    label: Seq<char>,
    placeholder_text: Option<Seq<char>>,
    input_spec: Option<InputSpec>,
    num_input_spec: Option<NumInputSpec>,
    num_input_spec_error: Option<Seq<char>>,
    options: Option<Seq<OptionV>>,
    options_from_key: Option<Seq<char>>,
    max: Option<u64>,
    min: Option<u64>,
    dc1: Option<Seq<Seq<char>>>,
    dc2: Option<Seq<Seq<char>>>,
    dc3: Option<Seq<Seq<char>>>,
) -> Result<FieldV, ErrorV> {
    let placeholder = match placeholder_text {
        Some(p) => match variant {
            FieldVariant::Text | FieldVariant::TextArea => Some(p),
            _ => None,
        },
        None => None,
    };
    let options_caption = match placeholder_text {
        Some(p) => match variant {
            FieldVariant::Dropdown => Some(p),
            _ => None,
        },
        None => None,
    };
    let price_max = match variant {
        FieldVariant::TextArea => max,
        _ => None,
    };
    let validators_r: Result<Option<Seq<ValidatorV>>, ErrorV> = match variant {
        FieldVariant::Text => Ok(
            Some(
                spec_text_validators(
                    field_name,
                    min,
                    max,
                    input_spec,
                    num_input_spec,
                    num_input_spec_error,
                ),
            ),
        ),
        FieldVariant::TextArea => Ok(Some(spec_textarea_validators(min))),
        FieldVariant::Multiselect => match spec_multiselect_validators(
            field_name,
            min,
            max,
            placeholder_text,
            options,
        ) {
            Ok(vs) => Ok(Some(vs)),
            Err(e) => Err(e),
        },
        _ => Ok(None),
    };
    match validators_r {
        Err(e) => Err(e),
        Ok(vals0) => {
            let validators = match vals0 {
                Some(vs) => if vs.len() == 0 {
                    None
                } else {
                    Some(vs)
                },
                None => None,
            };
            let visible = match options_from_key {
                Some(k) => Some(spec_visible_expr(k)),
                None => None,
            };
            Ok(
                FieldV {
                    field_name,
                    is_required,
                    variant,
                    label,
                    placeholder_text,
                    input_spec,
                    num_input_spec,
                    num_input_spec_error,
                    options,
                    options_from_key,
                    max,
                    min,
                    display_condition_first: dc1,
                    display_condition_second: dc2,
                    display_condition_third: dc3,
                    processed: ProcessedV {
                        placeholder,
                        options_caption,
                        validators,
                        price_max,
                        visible,
                    },
                },
            )
        }
    }
}

impl Field {
    /// Coerces a cell to a field-number back-reference.
    pub fn field_number_from_datatype(dt: &CellValue) -> (r: Result<usize, ConvertError>)
        ensures
            match r {
                Ok(n) => spec_field_number(dt@) == Ok::<usize, ErrorV>(n),
                Err(e) => spec_field_number(dt@) == Err::<usize, ErrorV>(e@),
            },
    {
        match dt {
            CellValue::Text(s) => {
                proof {
                    reveal_strlit("field");
                }
                let stripped = text::trim_prefix(s.as_str(), "field");
                match text::parse_usize_str(stripped) {
                    Some(n) => Ok(n),
                    None => Err(ConvertError::UnparseableFieldNumber),
                }
            }
            CellValue::Int(i) => Ok(#[verifier::truncate] (*i as usize)),
            _ => Err(ConvertError::ExpectedIntOrString),
        }
    }

    /// Coerces a cell to the required flag; `Ok(None)` is the field boundary.
    pub fn required_from_datatype(dt: &CellValue) -> (r: Result<Option<bool>, ConvertError>)
        ensures
            match r {
                Ok(v) => spec_required(dt@) == Ok::<Option<bool>, ErrorV>(v),
                Err(e) => spec_required(dt@) == Err::<Option<bool>, ErrorV>(e@),
            },
    {
        match dt {
            CellValue::Empty => Ok(None),
            CellValue::Text(s) => {
                if s.as_str().is_empty() {
                    Ok(None)
                } else if text::str_eq(s.as_str(), "表示(必須)") {
                    Ok(Some(true))
                } else if text::str_eq(s.as_str(), "表示(任意)") {
                    Ok(Some(false))
                } else {
                    Err(ConvertError::IncorrectRequired(s.clone()))
                }
            }
            _ => Err(ConvertError::ExpectedString),
        }
    }

    /// Coerces a cell to a field variant.
    pub fn variant_from_datatype(dt: &CellValue) -> (r: Result<FieldVariant, ConvertError>)
        ensures
            match r {
                Ok(v) => spec_variant(dt@) == Ok::<FieldVariant, ErrorV>(v),
                Err(e) => spec_variant(dt@) == Err::<FieldVariant, ErrorV>(e@),
            },
    {
        match dt {
            CellValue::Text(s) => FieldVariant::from_label(s.as_str()),
            _ => Err(ConvertError::ExpectedString),
        }
    }

    /// Coerces a cell to the field's label.
    pub fn label_from_datatype(dt: &CellValue) -> (r: Result<String, ConvertError>)
        ensures
            match r {
                Ok(s) => spec_label(dt@) == Ok::<Seq<char>, ErrorV>(s@),
                Err(e) => spec_label(dt@) == Err::<Seq<char>, ErrorV>(e@),
            },
    {
        match dt {
            CellValue::Text(s) => Ok(s.clone()),
            _ => Err(ConvertError::ExpectedString),
        }
    }

    /// Coerces a cell to an optional input specification.
    pub fn input_specification_from_datatype(dt: &CellValue) -> (r: Result<
        Option<InputSpec>,
        ConvertError,
    >)
        ensures
            match r {
                Ok(v) => spec_input_spec(dt@) == Ok::<Option<InputSpec>, ErrorV>(v),
                Err(e) => spec_input_spec(dt@) == Err::<Option<InputSpec>, ErrorV>(e@),
            },
    {
        match dt {
            CellValue::Empty => Ok(None),
            CellValue::Text(s) => {
                if s.as_str().is_empty() {
                    Ok(None)
                } else {
                    match InputSpec::from_label(s.as_str()) {
                        Ok(v) => Ok(Some(v)),
                        Err(e) => Err(e),
                    }
                }
            }
            _ => Err(ConvertError::ExpectedString),
        }
    }

    /// Coerces a cell to an optional numeric range specification.
    pub fn num_input_specification_from_datatype(dt: &CellValue) -> (r: Result<
        Option<NumInputSpec>,
        ConvertError,
    >)
        ensures
            match r {
                Ok(v) => spec_num_input_spec(dt@) == Ok::<Option<NumInputSpec>, ErrorV>(v),
                Err(e) => spec_num_input_spec(dt@) == Err::<Option<NumInputSpec>, ErrorV>(e@),
            },
    {
        match dt {
            CellValue::Empty => Ok(None),
            CellValue::Text(s) => {
                if s.as_str().is_empty() {
                    Ok(None)
                } else {
                    match NumInputSpec::from_text(s.as_str()) {
                        Ok(v) => Ok(Some(v)),
                        Err(e) => Err(e),
                    }
                }
            }
            _ => Err(ConvertError::ExpectedString),
        }
    }

    /// Coerces a cell to an optional string.
    pub fn optional_string_from_datatype(dt: &CellValue) -> (r: Result<
        Option<String>,
        ConvertError,
    >)
        ensures
            match r {
                Ok(v) => spec_optional_string(dt@) == Ok::<Option<Seq<char>>, ErrorV>(
                    view_opt_string(v),
                ),
                Err(e) => spec_optional_string(dt@) == Err::<Option<Seq<char>>, ErrorV>(e@),
            },
    {
        match dt {
            CellValue::Empty => Ok(None),
            CellValue::Text(s) => {
                if s.as_str().is_empty() {
                    Ok(None)
                } else {
                    Ok(Some(s.clone()))
                }
            }
            CellValue::Float { repr, whole } => Ok(Some(repr.clone())),
            CellValue::Int(i) => {
                let mut s = String::new();
                text::append_dec_i64(&mut s, *i);
                proof {
                    assert(Seq::<char>::empty() + text::dec_rep_signed(*i as int)
                        =~= text::dec_rep_signed(*i as int));
                }
                Ok(Some(s))
            }
            CellValue::DateTime { repr, whole } => Ok(Some(repr.clone())),
            _ => Err(ConvertError::UnparseableCell),
        }
    }

    /// Coerces a cell to an optional unsigned bound.
    pub fn optional_u64_from_datatype(dt: &CellValue) -> (r: Result<Option<u64>, ConvertError>)
        ensures
            match r {
                Ok(v) => spec_optional_u64(dt@) == Ok::<Option<u64>, ErrorV>(v),
                Err(e) => spec_optional_u64(dt@) == Err::<Option<u64>, ErrorV>(e@),
            },
    {
        match dt {
            CellValue::Empty => Ok(None),
            CellValue::Text(s) => {
                if s.as_str().is_empty() {
                    Ok(None)
                } else {
                    match text::parse_u64_str(s.as_str()) {
                        Some(v) => Ok(Some(v)),
                        None => Err(ConvertError::ExpectedInt),
                    }
                }
            }
            CellValue::Float { repr, whole } => Ok(Some(*whole)),
            CellValue::Int(i) => Ok(Some(#[verifier::truncate] (*i as u64))),
            CellValue::DateTime { repr, whole } => Ok(Some(*whole)),
            _ => Err(ConvertError::UnparseableCell),
        }
    }

    /// Assembles the scanned raw attributes into one normalized field,
    /// resolving the derived attributes and synthesizing the validator list.
    /// Fails only when validator synthesis fails.
    pub fn new(
        is_required: bool,
        field_name: String,
        variant: FieldVariant,
        label: String,
        placeholder_text: Option<String>,
        input_spec: Option<InputSpec>,
        num_input_spec: Option<NumInputSpec>,
        num_input_spec_error: Option<String>,
        options: Option<Vec<OptionType>>,
        options_from_key: Option<String>,
        max: Option<u64>,
        min: Option<u64>,
        display_condition_first: Option<Vec<String>>,
        display_condition_second: Option<Vec<String>>,
        display_condition_third: Option<Vec<String>>,
    ) -> (r: Result<Field, ConvertError>)
        ensures
            ({
                let m = spec_field_new(
                    is_required,
                    field_name@,
                    variant,
                    label@,
                    view_opt_string(placeholder_text),
                    input_spec,
                    num_input_spec,
                    view_opt_string(num_input_spec_error),
                    view_opt_options(options),
                    view_opt_string(options_from_key),
                    max,
                    min,
                    view_opt_vec_string(display_condition_first),
                    view_opt_vec_string(display_condition_second),
                    view_opt_vec_string(display_condition_third),
                );
                match r {
                    Ok(f) => m == Ok::<FieldV, ErrorV>(f@),
                    Err(e) => m == Err::<FieldV, ErrorV>(e@),
                }
            }),
    {
        let mut placeholder: Option<String> = None;
        let mut options_key: Option<String> = None;
        if let Some(plc_text) = &placeholder_text {
            match variant {
                FieldVariant::Text | FieldVariant::TextArea => {
                    placeholder = Some(plc_text.clone());
                }
                FieldVariant::Dropdown => {
                    options_key = Some(plc_text.clone());
                }
                _ => {}
            }
        }
        let mut price_max: Option<u64> = None;
        if let FieldVariant::TextArea = variant {
            price_max = max;
        }
        let mut validators: Option<Vec<Validator>>;
        match variant {
            FieldVariant::Text => {
                validators = Some(
                    Self::text_validators(
                        field_name.as_str(),
                        &min,
                        &max,
                        &input_spec,
                        &num_input_spec,
                        &num_input_spec_error,
                    ),
                );
            }
            FieldVariant::TextArea => {
                validators = Some(Self::textarea_validators(&min));
            }
            FieldVariant::Multiselect => {
                match Self::multiselect_validators(
                    field_name.as_str(),
                    &min,
                    &max,
                    &placeholder_text,
                    &options,
                ) {
                    Ok(vs) => {
                        validators = Some(vs);
                    }
                    Err(e) => {
                        return Err(e);
                    }
                }
            }
            _ => {
                validators = None;
            }
        }
        let mut collapse = false;
        if let Some(vlds) = &validators {
            if vlds.len() == 0 {
                collapse = true;
            }
        }
        if collapse {
            validators = None;
        }
        let mut visible: Option<String> = None;
        if let Some(opt_from_key) = &options_from_key {
            let mut v = "${".to_owned();
            v.append(opt_from_key.as_str());
            v.append("} && ${");
            v.append(opt_from_key.as_str());
            v.append("}.length > 1");
            visible = Some(v);
        }
        Ok(
            Field {
                is_required,
                field_name,
                variant,
                label,
                placeholder_text,
                input_spec,
                num_input_spec,
                num_input_spec_error,
                options,
                options_from_key,
                max,
                min,
                display_condition_first,
                display_condition_second,
                display_condition_third,
                processed: ProcessedData {
                    validators,
                    price_max,
                    placeholder,
                    options_caption: options_key,
                    visible,
                },
            },
        )
    }

    /// An empty list collapses to an absent one, to keep the output payload
    /// minimal.
    pub fn vec_to_optional_vec<T>(v: Vec<T>) -> (r: Option<Vec<T>>)
        ensures
            r == if v@.len() == 0 {
                None::<Vec<T>>
            } else {
                Some(v)
            },
    {
        if v.len() == 0 {
            None
        } else {
            Some(v)
        }
    }
}

} // verus!
