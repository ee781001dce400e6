//! The library-wide laws: statements that relate several functions of the
//! engine, proved once and for all over the spec-level scan model.

use vstd::prelude::*;

use crate::cell::CellV;
use crate::error::ErrorV;
use crate::field::FieldV;
use crate::reader::RawV;
use crate::reader::RowOutcome;
use crate::reader::spec_apply_row;
use crate::reader::spec_cell_at;
use crate::reader::spec_col_of;
use crate::reader::spec_field_name;
use crate::reader::spec_init_raw;
use crate::reader::spec_parse;
use crate::reader::spec_scan_fields;
use crate::reader::spec_scan_rows;
use crate::field::spec_field_number;
use crate::field::spec_required;
use crate::subject::Subject;
use crate::subject::subject_of_label;
use crate::subtypes::NumInputSpec;
use crate::subtypes::InputSpec;
use crate::subtypes::OptionV;
use crate::subtypes::ValidatorType;
use crate::subtypes::ValidatorV;
use crate::text::dec_rep;
use crate::text::split_on;
use crate::validators::spec_exact_length_validator;
use crate::validators::spec_exceptions_ok;
use crate::validators::spec_multiselect_validators;
use crate::validators::spec_text_validators;

verus! {

/// Re-running the extraction on an unmodified grid yields the identical
/// result: the scan is a pure function of the grid alone, so two runs can
/// only differ if the grid does.
pub proof fn lemma_extraction_deterministic(
    rows: Seq<Seq<CellV>>,
    r1: Result<Seq<FieldV>, ErrorV>,
    r2: Result<Seq<FieldV>, ErrorV>,
)
    requires
        r1 == spec_parse(rows),
        r2 == spec_parse(rows),
    ensures
        r1 == r2,
{
}

/// The field block at index `i` ends the whole scan (its required cell is
/// empty).
pub open spec fn spec_block_terminated(rows: Seq<Seq<CellV>>, i: int) -> bool {
    match spec_scan_rows(rows, 0, spec_col_of(i as nat) as int, spec_init_raw(i as nat)) {
        Ok((st, t)) => t,
        Err(_) => false,
    }
}

proof fn lemma_scan_rows_keeps_name(rows: Seq<Seq<CellV>>, i: int, col: int, st: RawV)
    ensures
        match spec_scan_rows(rows, i, col, st) {
            Ok((st2, t)) => st2.field_name == st.field_name,
            Err(_) => true,
        },
    decreases rows.len() - i,
{
    if 0 <= i < rows.len() {
        match spec_cell_at(rows[i], 0) {
            CellV::Text(label) => match subject_of_label(label) {
                Ok(subj) => match spec_apply_row(
                    st,
                    subj,
                    spec_cell_at(rows[i], col),
                    spec_cell_at(rows[i], col + 1),
                ) {
                    Ok((st2, RowOutcome::Proceed)) => {
                        lemma_scan_rows_keeps_name(rows, i + 1, col, st2);
                    }
                    _ => {}
                },
                _ => {}
            },
            _ => {
                lemma_scan_rows_keeps_name(rows, i + 1, col, st);
            }
        }
    }
}

proof fn lemma_scan_fields_shape(rows: Seq<Seq<CellV>>, idx: int)
    requires
        1 <= idx <= 100,
    ensures
        match spec_scan_fields(rows, idx) {
            Ok(fields) => {
                &&& fields.len() <= 100 - idx
                &&& (forall|k: int|
                    0 <= k < fields.len() ==> (#[trigger] fields[k].field_name)
                        == spec_field_name((idx + k) as nat))
                &&& (forall|j: int|
                    idx <= j < idx + fields.len() ==> !(#[trigger] spec_block_terminated(rows, j)))
                &&& (idx + fields.len() < 100 ==> spec_block_terminated(rows, idx + fields.len()))
            },
            Err(_) => true,
        },
    decreases 100 - idx,
{
    if idx < 100 {
        match spec_scan_rows(rows, 0, spec_col_of(idx as nat) as int, spec_init_raw(idx as nat)) {
            Ok((st, t)) => {
                lemma_scan_rows_keeps_name(rows, 0, spec_col_of(idx as nat) as int, spec_init_raw(idx as nat));
                if !t {
                    lemma_scan_fields_shape(rows, idx + 1);
                }
            }
            Err(_) => {}
        }
    }
}

/// The number of fields produced equals the number of contiguous field blocks
/// before the first one whose required marker is empty, and the field names
/// are exactly `field1..fieldN` in scan order.
pub proof fn lemma_field_count_and_names(rows: Seq<Seq<CellV>>)
    ensures
        match spec_parse(rows) {
            Ok(fields) => {
                &&& fields.len() <= 99
                &&& (forall|k: int|
                    0 <= k < fields.len() ==> (#[trigger] fields[k].field_name)
                        == spec_field_name((k + 1) as nat))
                &&& (forall|j: int|
                    1 <= j <= fields.len() ==> !(#[trigger] spec_block_terminated(rows, j)))
                &&& (fields.len() < 99 ==> spec_block_terminated(rows, fields.len() as int + 1))
            },
            Err(_) => true,
        },
{
    lemma_scan_fields_shape(rows, 1);
}

/// A text field whose bounds agree on `k` always carries, first, a validator
/// of kind `Text` whose message embeds `k` and whose length bounds are both
/// `k`, whatever the other attributes say.
pub proof fn lemma_exact_length_rule(
    name: Seq<char>,
    k: u64,
    input_spec: Option<InputSpec>,
    nis: Option<NumInputSpec>,
    nis_err: Option<Seq<char>>,
)
    ensures
        ({
            let vs = spec_text_validators(name, Some(k), Some(k), input_spec, nis, nis_err);
            &&& vs.len() >= 1
            &&& vs[0] == spec_exact_length_validator(k, k)
            &&& vs[0].validator_type == ValidatorType::Text
            &&& vs[0].min_length == Some(k)
            &&& vs[0].max_length == Some(k)
            &&& vs[0].text == dec_rep(k as nat) + "文字で入力してください"@
        }),
{
}

/// A multiselect field whose placeholder lists a value missing from its
/// option list always fails with the placeholder-not-in-options error,
/// regardless of its other attributes.
pub proof fn lemma_placeholder_exception_missing(
    name: Seq<char>,
    min: Option<u64>,
    max: Option<u64>,
    p: Seq<char>,
    options: Option<Seq<OptionV>>,
)
    requires
        !spec_exceptions_ok(split_on(p, ','), options),
    ensures
        spec_multiselect_validators(name, min, max, Some(p), options) == Err::<
            Seq<ValidatorV>,
            ErrorV,
        >(ErrorV::PlaceholderNotInOptions),
{
}

/// The subject the row's first cell names, where it names one.
pub open spec fn spec_row_subject(rows: Seq<Seq<CellV>>, j: int) -> Option<Subject> {
    match spec_cell_at(rows[j], 0) {
        CellV::Text(l) => match subject_of_label(l) {
            Ok(s) => Some(s),
            Err(_) => None,
        },
        _ => None,
    }
}

proof fn lemma_scan_post_back_reference(rows: Seq<Seq<CellV>>, i: int, col: int, st: RawV, rp: int)
    requires
        rp < i,
        st.options_from_key is Some,
        st.placeholder_text is None,
        st.options.len() == 0,
        st.ignore_options,
        forall|j: int|
            0 <= j < rows.len() && j != rp ==> spec_row_subject(rows, j) != Some(
                Subject::Placeholder,
            ),
        spec_scan_rows(rows, i, col, st) is Ok,
    ensures
        ({
            let (st2, t) = spec_scan_rows(rows, i, col, st)->Ok_0;
            &&& st2.options_from_key == st.options_from_key
            &&& st2.placeholder_text is None
            &&& st2.options.len() == 0
            &&& st2.ignore_options
        }),
    decreases rows.len() - i,
{
    if 0 <= i < rows.len() {
        match spec_cell_at(rows[i], 0) {
            CellV::Text(label) => match subject_of_label(label) {
                Ok(subj) => {
                    assert(spec_row_subject(rows, i) == Some(subj));
                    match spec_apply_row(
                        st,
                        subj,
                        spec_cell_at(rows[i], col),
                        spec_cell_at(rows[i], col + 1),
                    ) {
                        Ok((st2, RowOutcome::Proceed)) => {
                            lemma_scan_post_back_reference(rows, i + 1, col, st2, rp);
                        }
                        _ => {}
                    }
                }
                Err(_) => {}
            },
            _ => {
                lemma_scan_post_back_reference(rows, i + 1, col, st, rp);
            }
        }
    }
}

proof fn lemma_scan_pre_back_reference(
    rows: Seq<Seq<CellV>>,
    i: int,
    col: int,
    st: RawV,
    rp: int,
    n: usize,
)
    requires
        0 <= i <= rp < rows.len(),
        st.options_from_key is None,
        st.placeholder_text is None,
        st.options.len() == 0,
        spec_row_subject(rows, rp) == Some(Subject::Placeholder),
        spec_field_number(spec_cell_at(rows[rp], col + 1)) == Ok::<usize, ErrorV>(n),
        forall|j: int|
            0 <= j < rows.len() && j != rp ==> spec_row_subject(rows, j) != Some(
                Subject::Placeholder,
            ),
        forall|j: int| 0 <= j < rp ==> spec_row_subject(rows, j) != Some(Subject::Options),
        forall|j: int|
            0 <= j < rp && spec_row_subject(rows, j) == Some(Subject::Required)
                ==> spec_required(spec_cell_at(rows[j], col)) != Ok::<Option<bool>, ErrorV>(None),
        spec_scan_rows(rows, i, col, st) is Ok,
    ensures
        ({
            let (st2, t) = spec_scan_rows(rows, i, col, st)->Ok_0;
            &&& st2.options_from_key == Some(spec_field_name(n as nat))
            &&& st2.placeholder_text is None
            &&& st2.options.len() == 0
            &&& st2.ignore_options
        }),
    decreases rp - i,
{
    match spec_cell_at(rows[i], 0) {
        CellV::Text(label) => match subject_of_label(label) {
            Ok(subj) => {
                assert(spec_row_subject(rows, i) == Some(subj));
                match spec_apply_row(
                    st,
                    subj,
                    spec_cell_at(rows[i], col),
                    spec_cell_at(rows[i], col + 1),
                ) {
                    Ok((st2, RowOutcome::Proceed)) => {
                        if i == rp {
                            lemma_scan_post_back_reference(rows, i + 1, col, st2, rp);
                        } else {
                            lemma_scan_pre_back_reference(rows, i + 1, col, st2, rp, n);
                        }
                    }
                    Ok((st2, RowOutcome::OptionsExhausted)) => {
                        assert(subj == Subject::Options);
                        assert(false);
                    }
                    Ok((st2, RowOutcome::FieldBoundary)) => {
                        assert(subj == Subject::Required);
                        assert(false);
                    }
                    Err(_) => {}
                }
            }
            Err(_) => {}
        },
        _ => {
            if i == rp {
                assert(false);
            } else {
                lemma_scan_pre_back_reference(rows, i + 1, col, st, rp, n);
            }
        }
    }
}

/// A field block whose single placeholder row has a companion cell that
/// parses as a field-number reference, with no options row before it and no
/// earlier field boundary, always scans to a state wired to `field<n>`: the
/// back-reference is set, the placeholder stays absent and the option list
/// stays empty, so the built field can never carry both a placeholder and a
/// back-reference.
pub proof fn lemma_back_reference(rows: Seq<Seq<CellV>>, idx: nat, rp: int, n: usize)
    requires
        1 <= idx,
        spec_scan_rows(rows, 0, spec_col_of(idx) as int, spec_init_raw(idx)) is Ok,
        0 <= rp < rows.len(),
        spec_row_subject(rows, rp) == Some(Subject::Placeholder),
        spec_field_number(spec_cell_at(rows[rp], spec_col_of(idx) as int + 1)) == Ok::<
            usize,
            ErrorV,
        >(n),
        forall|j: int|
            0 <= j < rows.len() && j != rp ==> spec_row_subject(rows, j) != Some(
                Subject::Placeholder,
            ),
        forall|j: int| 0 <= j < rp ==> spec_row_subject(rows, j) != Some(Subject::Options),
        forall|j: int|
            0 <= j < rp && spec_row_subject(rows, j) == Some(Subject::Required)
                ==> spec_required(spec_cell_at(rows[j], spec_col_of(idx) as int)) != Ok::<
                Option<bool>,
                ErrorV,
            >(None),
    ensures
        ({
            let (st, t) = spec_scan_rows(rows, 0, spec_col_of(idx) as int, spec_init_raw(idx))->Ok_0;
            &&& st.options_from_key == Some(spec_field_name(n as nat))
            &&& st.placeholder_text is None
            &&& st.options.len() == 0
            &&& st.ignore_options
        }),
{
    lemma_scan_pre_back_reference(
        rows,
        0,
        spec_col_of(idx) as int,
        spec_init_raw(idx),
        rp,
        n,
    );
}

/// A field built from a back-referenced raw state carries the reference and
/// nothing of what it suppressed: no placeholder, no options, no options
/// caption, and a visibility expression derived from the referenced key.
pub proof fn lemma_back_reference_field(st: RawV, k: Seq<char>)
    requires
        st.options_from_key == Some(k),
        st.placeholder_text is None,
        st.options.len() == 0,
    ensures
        ({
            let built = crate::field::spec_field_new(
                st.is_required,
                st.field_name,
                st.variant,
                st.label,
                st.placeholder_text,
                st.input_spec,
                st.num_input_spec,
                st.num_input_spec_error,
                if st.options.len() == 0 {
                    None
                } else {
                    Some(st.options)
                },
                st.options_from_key,
                st.max,
                st.min,
                None,
                None,
                None,
            );
            built is Ok ==> {
                let f = built->Ok_0;
                &&& f.options_from_key == Some(k)
                &&& f.placeholder_text is None
                &&& f.options is None
                &&& f.processed.placeholder is None
                &&& f.processed.options_caption is None
                &&& f.processed.visible == Some(crate::field::spec_visible_expr(k))
            }
        }),
{
}

} // verus!
