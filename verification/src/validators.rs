//! Validator synthesis: the per-variant generation of ordered validation
//! rules and their message templates.
//!
//! The generated boolean-expression strings are an output contract of their
//! own: their exact textual form matters to the downstream consumer, so each
//! template is pinned down character for character.

use vstd::prelude::*;
use vstd::string::*;

use crate::error::ConvertError;
use crate::error::ErrorV;
use crate::field::Field;
use crate::subtypes::InputSpec;
use crate::subtypes::NumInputSpec;
use crate::subtypes::OptionType;
use crate::subtypes::OptionV;
use crate::subtypes::Validator;
use crate::subtypes::ValidatorType;
use crate::subtypes::ValidatorV;
use crate::subtypes::view_opt_string;
use crate::text;
use crate::text::dec_rep;
use crate::text::join_with;
use crate::text::split_on;

verus! {

/// `"${name} && ${name} >= min && ${name} < max"`: the field's numeric value
/// lies in the half-open range.
pub open spec fn spec_expr_num_range(n: Seq<char>, mn: u32, mx: u32) -> Seq<char> {
    "${"@ + n + "} && ${"@ + n + "} >= "@ + dec_rep(mn as nat) + " && ${"@ + n + "} < "@ + dec_rep(
        mx as nat,
    )
}

fn expr_num_range(n: &str, mn: u32, mx: u32) -> (s: String)
    ensures
        s@ == spec_expr_num_range(n@, mn, mx),
{
    let mut s = "${".to_owned();
    s.append(n);
    s.append("} && ${");
    s.append(n);
    s.append("} >= ");
    text::append_dec_u64(&mut s, mn as u64);
    s.append(" && ${");
    s.append(n);
    s.append("} < ");
    text::append_dec_u64(&mut s, mx as u64);
    s
}

/// `"${name} && ${name}.match(/^[0-9]+$/)"`: digits only.
pub open spec fn spec_expr_digits_only(n: Seq<char>) -> Seq<char> {
    "${"@ + n + "} && ${"@ + n + "}.match(/^[0-9]+$/)"@
}

fn expr_digits_only(n: &str) -> (s: String)
    ensures
        s@ == spec_expr_digits_only(n@),
{
    let mut s = "${".to_owned();
    s.append(n);
    s.append("} && ${");
    s.append(n);
    s.append("}.match(/^[0-9]+$/)");
    s
}

/// `"${name} && ${name}.match(/^([a-zA-Z])+$/)"`: Latin letters only.
pub open spec fn spec_expr_letters_only(n: Seq<char>) -> Seq<char> {
    "${"@ + n + "} && ${"@ + n + "}.match(/^([a-zA-Z])+$/)"@
}

fn expr_letters_only(n: &str) -> (s: String)
    ensures
        s@ == spec_expr_letters_only(n@),
{
    let mut s = "${".to_owned();
    s.append(n);
    s.append("} && ${");
    s.append(n);
    s.append("}.match(/^([a-zA-Z])+$/)");
    s
}

/// `"${name}.includes('e')`-style mutual-exclusivity expression for a single
/// exception value.
pub open spec fn spec_expr_single_exception(n: Seq<char>, e: Seq<char>) -> Seq<char> {
    "${"@ + n + "} && (${"@ + n + "}.includes('"@ + e + "') && ${"@ + n + "}.length === 1) || !${"@
        + n + "}.includes('"@ + e + "')"@
}

fn expr_single_exception(n: &str, e: &str) -> (s: String)
    ensures
        s@ == spec_expr_single_exception(n@, e@),
{
    let mut s = "${".to_owned();
    s.append(n);
    s.append("} && (${");
    s.append(n);
    s.append("}.includes('");
    s.append(e);
    s.append("') && ${");
    s.append(n);
    s.append("}.length === 1) || !${");
    s.append(n);
    s.append("}.includes('");
    s.append(e);
    s.append("')");
    s
}

/// An exception value in its message form: `"[e]"`.
pub open spec fn spec_bracketed(e: Seq<char>) -> Seq<char> {
    "["@ + e + "]"@
}

/// An exception value in its expression-list form: `"'e'"`.
pub open spec fn spec_quoted(e: Seq<char>) -> Seq<char> {
    "'"@ + e + "'"@
}

/// The mutual-exclusivity expression over a whole exception list.
pub open spec fn spec_expr_multi_exception(n: Seq<char>, es: Seq<Seq<char>>) -> Seq<char> {
    let l = join_with(es.map_values(|e: Seq<char>| spec_quoted(e)), ", "@);
    "${"@ + n + "} && (${"@ + n + "}.some(item => ["@ + l + "].includes(item)) && ${"@ + n
        + "}.length === 1) || !${"@ + n + "}.some(item => ["@ + l + "].includes(item))"@
}

/// The message text for a whole exception list: the bracketed values joined
/// with an "or" word.
pub open spec fn spec_msg_multi_exception(es: Seq<Seq<char>>) -> Seq<char> {
    join_with(es.map_values(|e: Seq<char>| spec_bracketed(e)), "または"@) + "が選択されています。"@
}

fn join_bracketed(parts: &Vec<String>) -> (s: String)
    requires
        parts@.len() >= 1,
    ensures
        s@ == join_with(parts.deep_view().map_values(|e: Seq<char>| spec_bracketed(e)), "または"@),
{
    let ghost dv = parts.deep_view();
    let ghost f = |e: Seq<char>| spec_bracketed(e);
    let mut s = "[".to_owned();
    s.append(parts[0].as_str());
    s.append("]");
    proof {
        assert(dv.take(1).map_values(f) =~= seq![spec_bracketed(dv[0])]);
        assert(join_with(seq![spec_bracketed(dv[0])], "または"@) == spec_bracketed(dv[0]));
        assert(dv[0] == parts@[0]@);
    }
    let mut i: usize = 1;
    while i < parts.len()
        invariant
            1 <= i <= dv.len(),
            dv == parts.deep_view(),
            dv.len() == parts@.len(),
            s@ == join_with(dv.take(i as int).map_values(f), "または"@),
            f == (|e: Seq<char>| spec_bracketed(e)),
        decreases dv.len() - i,
    {
        let ghost s_old = s@;
        s.append("または");
        s.append("[");
        s.append(parts[i].as_str());
        s.append("]");
        proof {
            assert(dv[i as int] == parts@[i as int]@);
            assert(dv.take(i + 1).map_values(f) =~= dv.take(i as int).map_values(f).push(
                spec_bracketed(dv[i as int]),
            ));
            text::lemma_join_push(dv.take(i as int).map_values(f), "または"@, spec_bracketed(dv[i as int]));
            assert(s@ =~= join_with(dv.take(i as int).map_values(f), "または"@) + "または"@
                + spec_bracketed(dv[i as int]));
        }
        i = i + 1;
    }
    proof {
        assert(dv.take(dv.len() as int) =~= dv);
    }
    s
}

fn join_quoted(parts: &Vec<String>) -> (s: String)
    requires
        parts@.len() >= 1,
    ensures
        s@ == join_with(parts.deep_view().map_values(|e: Seq<char>| spec_quoted(e)), ", "@),
{
    let ghost dv = parts.deep_view();
    let ghost f = |e: Seq<char>| spec_quoted(e);
    let mut s = "'".to_owned();
    s.append(parts[0].as_str());
    s.append("'");
    proof {
        assert(dv.take(1).map_values(f) =~= seq![spec_quoted(dv[0])]);
        assert(join_with(seq![spec_quoted(dv[0])], ", "@) == spec_quoted(dv[0]));
        assert(dv[0] == parts@[0]@);
    }
    let mut i: usize = 1;
    while i < parts.len()
        invariant
            1 <= i <= dv.len(),
            dv == parts.deep_view(),
            dv.len() == parts@.len(),
            s@ == join_with(dv.take(i as int).map_values(f), ", "@),
            f == (|e: Seq<char>| spec_quoted(e)),
        decreases dv.len() - i,
    {
        let ghost s_old = s@;
        s.append(", ");
        s.append("'");
        s.append(parts[i].as_str());
        s.append("'");
        proof {
            assert(dv[i as int] == parts@[i as int]@);
            assert(dv.take(i + 1).map_values(f) =~= dv.take(i as int).map_values(f).push(
                spec_quoted(dv[i as int]),
            ));
            text::lemma_join_push(dv.take(i as int).map_values(f), ", "@, spec_quoted(dv[i as int]));
            assert(s@ =~= join_with(dv.take(i as int).map_values(f), ", "@) + ", "@ + spec_quoted(
                dv[i as int],
            ));
        }
        i = i + 1;
    }
    proof {
        assert(dv.take(dv.len() as int) =~= dv);
    }
    s
}

/// The exact-length rule of a text field whose bounds agree.
pub open spec fn spec_exact_length_validator(mn: u64, mx: u64) -> ValidatorV {
    ValidatorV {
        validator_type: ValidatorType::Text,
        text: dec_rep(mx as nat) + "文字で入力してください"@,
        expression: None,
        min_length: Some(mn),
        max_length: Some(mx),
    }
}

/// The numeric-range rule generated from a range spec and its error text.
pub open spec fn spec_num_range_validator(n: Seq<char>, v: NumInputSpec, et: Seq<char>) -> ValidatorV {
    ValidatorV {
        validator_type: ValidatorType::Expression,
        text: et,
        expression: Some(spec_expr_num_range(n, v.min, v.max)),
        min_length: None,
        max_length: None,
    }
}

/// The digit-only pattern rule.
pub open spec fn spec_digits_only_validator(n: Seq<char>) -> ValidatorV {
    ValidatorV {
        validator_type: ValidatorType::Expression,
        text: "入力できるのは半角数字のみです"@,
        expression: Some(spec_expr_digits_only(n)),
        min_length: None,
        max_length: None,
    }
}

/// The Latin-letter-only pattern rule.
pub open spec fn spec_letters_only_validator(n: Seq<char>) -> ValidatorV {
    ValidatorV {
        validator_type: ValidatorType::Expression,
        text: "入力できるのは半角英字のみです"@,
        expression: Some(spec_expr_letters_only(n)),
        min_length: None,
        max_length: None,
    }
}

/// The rules a text field carries: an exact-length rule when the bounds agree,
/// a numeric-range rule when a range spec and its error text are both present
/// (both only under present bounds), a digit-only rule under the narrow
/// `min = 1, max = 2` guard, and a letter-only rule whenever asked for.
pub open spec fn spec_text_validators(
    n: Seq<char>,
    min: Option<u64>,
    max: Option<u64>,
    input_spec: Option<InputSpec>,
    nis: Option<NumInputSpec>,
    nis_err: Option<Seq<char>>,
) -> Seq<ValidatorV> {
    let vs1 = match (min, max) {
        (Some(mn), Some(mx)) => if mn == mx {
            Seq::<ValidatorV>::empty().push(spec_exact_length_validator(mn, mx))
        } else {
            Seq::<ValidatorV>::empty()
        },
        _ => Seq::<ValidatorV>::empty(),
    };
    let vs2 = match (min, max, nis, nis_err) {
        (Some(mn), Some(mx), Some(v), Some(et)) => vs1.push(spec_num_range_validator(n, v, et)),
        _ => vs1,
    };
    let vs3 = match (input_spec, min, max) {
        (Some(InputSpec::HalfWidthNumber), Some(mn), Some(mx)) => if mx == 2 && mn == 1 {
            vs2.push(spec_digits_only_validator(n))
        } else {
            vs2
        },
        _ => vs2,
    };
    match input_spec {
        Some(InputSpec::HalfWidthKanji) => vs3.push(spec_letters_only_validator(n)),
        _ => vs3,
    }
}

/// The single rule a text-area field carries: a minimum-length rule when a
/// minimum is present; never a maximum-length rule.
pub open spec fn spec_textarea_validators(min: Option<u64>) -> Seq<ValidatorV> {
    match min {
        Some(mn) => Seq::<ValidatorV>::empty().push(
            ValidatorV {
                validator_type: ValidatorType::Text,
                text: dec_rep(mn as nat) + "文字以上で入力してください"@,
                expression: None,
                min_length: Some(mn),
                max_length: None,
            },
        ),
        None => Seq::<ValidatorV>::empty(),
    }
}

/// The answer-count rule of a multiselect field, as far as bounds are present.
pub open spec fn spec_count_validators(min: Option<u64>, max: Option<u64>) -> Seq<ValidatorV> {
    match (min, max) {
        (Some(mn), Some(mx)) => Seq::<ValidatorV>::empty().push(
            ValidatorV {
                validator_type: ValidatorType::AnswerCount,
                text: "選択肢は"@ + dec_rep(mn as nat) + "個以上"@ + dec_rep(mx as nat) + "以下"@,
                expression: None,
                min_length: Some(mn),
                max_length: Some(mx),
            },
        ),
        (Some(mn), None) => Seq::<ValidatorV>::empty().push(
            ValidatorV {
                validator_type: ValidatorType::AnswerCount,
                text: "選択肢は"@ + dec_rep(mn as nat) + "個以上"@,
                expression: None,
                min_length: Some(mn),
                max_length: None,
            },
        ),
        (None, Some(mx)) => Seq::<ValidatorV>::empty().push(
            ValidatorV {
                validator_type: ValidatorType::AnswerCount,
                text: "選択肢は"@ + dec_rep(mx as nat) + "個以下"@,
                expression: None,
                min_length: None,
                max_length: Some(mx),
            },
        ),
        (None, None) => Seq::<ValidatorV>::empty(),
    }
}

/// Some option in the list carries exactly this value.
pub open spec fn spec_value_in(opts: Seq<OptionV>, e: Seq<char>) -> bool {
    exists|i: int| 0 <= i < opts.len() && opts[i].value == e
}

/// The exception value occurs in the option list.
pub open spec fn spec_exception_in_options(e: Seq<char>, options: Option<Seq<OptionV>>) -> bool {
    match options {
        Some(opts) => spec_value_in(opts, e),
        None => false,
    }
}

/// Every exception value occurs in the option list.
pub open spec fn spec_exceptions_ok(es: Seq<Seq<char>>, options: Option<Seq<OptionV>>) -> bool {
    forall|i: int| 0 <= i < es.len() ==> spec_exception_in_options(#[trigger] es[i], options)
}

/// The mutual-exclusivity rule for a single exception value.
pub open spec fn spec_single_exception_validator(n: Seq<char>, e: Seq<char>) -> ValidatorV {
    ValidatorV {
        validator_type: ValidatorType::Expression,
        text: spec_bracketed(e) + "が選択されています。"@,
        expression: Some(spec_expr_single_exception(n, e)),
        min_length: None,
        max_length: None,
    }
}

/// The combined mutual-exclusivity rule for several exception values.
pub open spec fn spec_multi_exception_validator(n: Seq<char>, es: Seq<Seq<char>>) -> ValidatorV {
    ValidatorV {
        validator_type: ValidatorType::Expression,
        text: spec_msg_multi_exception(es),
        expression: Some(spec_expr_multi_exception(n, es)),
        min_length: None,
        max_length: None,
    }
}

/// The rules a multiselect field carries: an answer-count rule as far as
/// bounds are present, then a mutual-exclusivity rule over the placeholder's
/// comma-separated exception values. An exception value missing from the
/// option list aborts the whole conversion.
pub open spec fn spec_multiselect_validators(
    n: Seq<char>,
    min: Option<u64>,
    max: Option<u64>,
    placeholder: Option<Seq<char>>,
    options: Option<Seq<OptionV>>,
) -> Result<Seq<ValidatorV>, ErrorV> {
    let base = spec_count_validators(min, max);
    match placeholder {
        None => Ok(base),
        Some(p) => {
            let es = split_on(p, ',');
            if !spec_exceptions_ok(es, options) {
                Err(ErrorV::PlaceholderNotInOptions)
            } else if es.len() == 0 {
                Ok(base)
            } else if es.len() == 1 {
                Ok(base.push(spec_single_exception_validator(n, es[0])))
            } else {
                Ok(base.push(spec_multi_exception_validator(n, es)))
            }
        }
    }
}

fn contains_value(opts: &Vec<OptionType>, v: &str) -> (r: bool)
    ensures
        r == spec_value_in(opts.deep_view(), v@),
{
    let mut i: usize = 0;
    while i < opts.len()
        invariant
            i <= opts@.len(),
            opts@.len() == opts.deep_view().len(),
            forall|j: int| 0 <= j < i ==> opts.deep_view()[j].value != v@,
        decreases opts@.len() - i,
    {
        proof {
            assert(opts.deep_view()[i as int] == opts@[i as int].deep_view());
        }
        if opts[i].is_val(v) {
            proof {
                assert(0 <= (i as int) && (i as int) < opts.deep_view().len()
                    && opts.deep_view()[i as int].value == v@);
            }
            return true;
        }
        i = i + 1;
    }
    false
}

impl Field {
    /// The validator list of a text field.
    pub fn text_validators(
        field_name: &str,
        min: &Option<u64>,
        max: &Option<u64>,
        input_spec: &Option<InputSpec>,
        num_input_spec: &Option<NumInputSpec>,
        num_input_spec_error: &Option<String>,
    ) -> (v: Vec<Validator>)
        ensures
            v.deep_view() == spec_text_validators(
                field_name@,
                *min,
                *max,
                *input_spec,
                *num_input_spec,
                view_opt_string(*num_input_spec_error),
            ),
    {
        let ghost n = field_name@;
        let mut validators: Vec<Validator> = Vec::new();
        proof {
            assert(validators.deep_view() =~= Seq::<ValidatorV>::empty());
        }
        if let (Some(mn), Some(mx)) = (min, max) {
            if *mn == *mx {
                let ghost before = validators.deep_view();
                let mut text = text::u64_to_dec(*mx);
                text.append("文字で入力してください");
                validators.push(
                    Validator {
                        validator_type: ValidatorType::Text,
                        text,
                        min_length: *min,
                        max_length: *max,
                        expression: None,
                    },
                );
                proof {
                    assert(validators.deep_view() =~= before.push(
                        spec_exact_length_validator(*mn, *mx),
                    ));
                }
            }
            if let (Some(val), Some(error_text)) = (num_input_spec, num_input_spec_error) {
                let ghost before = validators.deep_view();
                validators.push(
                    Validator {
                        validator_type: ValidatorType::Expression,
                        text: error_text.clone(),
                        min_length: None,
                        max_length: None,
                        expression: Some(expr_num_range(field_name, val.min, val.max)),
                    },
                );
                proof {
                    assert(validators.deep_view() =~= before.push(
                        spec_num_range_validator(n, *val, error_text@),
                    ));
                }
            }
        }
        if let Some(inp_spec) = input_spec {
            match inp_spec {
                InputSpec::HalfWidthNumber => {
                    if let (Some(mn), Some(mx)) = (min, max) {
                        if *mx == 2 && *mn == 1 {
                            let ghost before = validators.deep_view();
                            validators.push(
                                Validator {
                                    validator_type: ValidatorType::Expression,
                                    text: "入力できるのは半角数字のみです".to_owned(),
                                    min_length: None,
                                    max_length: None,
                                    expression: Some(expr_digits_only(field_name)),
                                },
                            );
                            proof {
                                assert(validators.deep_view() =~= before.push(
                                    spec_digits_only_validator(n),
                                ));
                            }
                        }
                    }
                }
                InputSpec::HalfWidthKanji => {
                    let ghost before = validators.deep_view();
                    validators.push(
                        Validator {
                            validator_type: ValidatorType::Expression,
                            text: "入力できるのは半角英字のみです".to_owned(),
                            min_length: None,
                            max_length: None,
                            expression: Some(expr_letters_only(field_name)),
                        },
                    );
                    proof {
                        assert(validators.deep_view() =~= before.push(
                            spec_letters_only_validator(n),
                        ));
                    }
                }
            }
        }
        validators
    }

    /// The validator list of a text-area field.
    pub fn textarea_validators(min: &Option<u64>) -> (v: Vec<Validator>)
        ensures
            v.deep_view() == spec_textarea_validators(*min),
    {
        let mut validators: Vec<Validator> = Vec::new();
        proof {
            assert(validators.deep_view() =~= Seq::<ValidatorV>::empty());
        }
        if let Some(mn) = min {
            let ghost before = validators.deep_view();
            let mut text = text::u64_to_dec(*mn);
            text.append("文字以上で入力してください");
            validators.push(
                Validator {
                    validator_type: ValidatorType::Text,
                    text,
                    min_length: *min,
                    max_length: None,
                    expression: None,
                },
            );
            proof {
                assert(validators.deep_view() =~= spec_textarea_validators(*min));
            }
        }
        validators
    }

    /// The validator list of a multiselect field, or the fatal error when an
    /// exception value is missing from the option list.
    pub fn multiselect_validators(
        field_name: &str,
        min: &Option<u64>,
        max: &Option<u64>,
        placeholder_text: &Option<String>,
        options: &Option<Vec<OptionType>>,
    ) -> (r: Result<Vec<Validator>, ConvertError>)
        ensures
            match r {
                Ok(v) => spec_multiselect_validators(
                    field_name@,
                    *min,
                    *max,
                    view_opt_string(*placeholder_text),
                    crate::field::view_opt_options(*options),
                ) == Ok::<Seq<ValidatorV>, ErrorV>(v.deep_view()),
                Err(e) => spec_multiselect_validators(
                    field_name@,
                    *min,
                    *max,
                    view_opt_string(*placeholder_text),
                    crate::field::view_opt_options(*options),
                ) == Err::<Seq<ValidatorV>, ErrorV>(e@),
            },
    {
        let ghost n = field_name@;
        let mut validators: Vec<Validator> = Vec::new();
        proof {
            assert(validators.deep_view() =~= Seq::<ValidatorV>::empty());
        }
        match (min, max) {
            (Some(mn), Some(mx)) => {
                let mut text = "選択肢は".to_owned();
                text::append_dec_u64(&mut text, *mn);
                text.append("個以上");
                text::append_dec_u64(&mut text, *mx);
                text.append("以下");
                validators.push(
                    Validator {
                        validator_type: ValidatorType::AnswerCount,
                        text,
                        min_length: *min,
                        max_length: *max,
                        expression: None,
                    },
                );
                proof {
                    assert(validators.deep_view() =~= spec_count_validators(*min, *max));
                }
            }
            (Some(mn), None) => {
                let mut text = "選択肢は".to_owned();
                text::append_dec_u64(&mut text, *mn);
                text.append("個以上");
                validators.push(
                    Validator {
                        validator_type: ValidatorType::AnswerCount,
                        text,
                        min_length: *min,
                        max_length: *max,
                        expression: None,
                    },
                );
                proof {
                    assert(validators.deep_view() =~= spec_count_validators(*min, *max));
                }
            }
            (None, Some(mx)) => {
                let mut text = "選択肢は".to_owned();
                text::append_dec_u64(&mut text, *mx);
                text.append("個以下");
                validators.push(
                    Validator {
                        validator_type: ValidatorType::AnswerCount,
                        text,
                        min_length: *min,
                        max_length: *max,
                        expression: None,
                    },
                );
                proof {
                    assert(validators.deep_view() =~= spec_count_validators(*min, *max));
                }
            }
            _ => {
                proof {
                    assert(validators.deep_view() =~= spec_count_validators(*min, *max));
                }
            }
        }
        if let Some(placeholder) = placeholder_text {
            let exceptions = text::split_str(placeholder.as_str(), ',');
            let ghost es = split_on(placeholder@, ',');
            let ghost opts_v = crate::field::view_opt_options(*options);
            let mut k: usize = 0;
            while k < exceptions.len()
                invariant
                    k <= exceptions@.len(),
                    exceptions.deep_view() == es,
                    exceptions@.len() == es.len(),
                    opts_v == crate::field::view_opt_options(*options),
                    view_opt_string(*placeholder_text) == Some(placeholder@),
                    es == split_on(placeholder@, ','),
                    validators.deep_view() == spec_count_validators(*min, *max),
                    forall|j: int| 0 <= j < k ==> spec_exception_in_options(#[trigger] es[j], opts_v),
                decreases exceptions@.len() - k,
            {
                proof {
                    assert(es[k as int] == exceptions@[k as int]@);
                }
                let exc: &String = &exceptions[k];
                match options {
                    Some(opts) => {
                        if opts.len() == 0 || !contains_value(opts, exc.as_str()) {
                            proof {
                                assert(!spec_exception_in_options(es[k as int], opts_v));
                                assert(!spec_exceptions_ok(es, opts_v));
                            }
                            return Err(ConvertError::PlaceholderNotInOptions);
                        }
                    }
                    None => {
                        proof {
                            assert(!spec_exception_in_options(es[k as int], opts_v));
                            assert(!spec_exceptions_ok(es, opts_v));
                        }
                        return Err(ConvertError::PlaceholderNotInOptions);
                    }
                }
                k = k + 1;
            }
            proof {
                assert(spec_exceptions_ok(es, opts_v));
            }
            if exceptions.len() == 0 {
            } else if exceptions.len() == 1 {
                let ghost before = validators.deep_view();
                proof {
                    assert(es[0] == exceptions@[0]@);
                }
                let exc: &String = &exceptions[0];
                let mut text = "[".to_owned();
                text.append(exc.as_str());
                text.append("]");
                text.append("が選択されています。");
                proof {
                    assert(text@ == spec_bracketed(es[0]) + "が選択されています。"@);
                }
                validators.push(
                    Validator {
                        validator_type: ValidatorType::Expression,
                        text,
                        min_length: None,
                        max_length: None,
                        expression: Some(expr_single_exception(field_name, exc.as_str())),
                    },
                );
                proof {
                    assert(validators.deep_view() =~= before.push(
                        spec_single_exception_validator(n, es[0]),
                    ));
                }
            } else {
                let ghost before = validators.deep_view();
                let mut text = join_bracketed(&exceptions);
                text.append("が選択されています。");
                let l = join_quoted(&exceptions);
                let mut expression = "${".to_owned();
                expression.append(field_name);
                expression.append("} && (${");
                expression.append(field_name);
                expression.append("}.some(item => [");
                expression.append(l.as_str());
                expression.append("].includes(item)) && ${");
                expression.append(field_name);
                expression.append("}.length === 1) || !${");
                expression.append(field_name);
                expression.append("}.some(item => [");
                expression.append(l.as_str());
                expression.append("].includes(item))");
                proof {
                    assert(text@ == spec_msg_multi_exception(es));
                    assert(expression@ == spec_expr_multi_exception(n, es));
                }
                validators.push(
                    Validator {
                        validator_type: ValidatorType::Expression,
                        text,
                        min_length: None,
                        max_length: None,
                        expression: Some(expression),
                    },
                );
                proof {
                    assert(validators.deep_view() =~= before.push(
                        spec_multi_exception_validator(n, es),
                    ));
                }
            }
        }
        Ok(validators)
    }
}

} // verus!
