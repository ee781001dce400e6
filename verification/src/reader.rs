//! The tabular field scanner: drives the row-by-row, field-by-field scan of
//! the grid, owning the loop-termination and column-addressing policy.
//!
//! For field `i` the data columns are `(i-1)*2+1` and its companion one to the
//! right. Rows whose first cell is not a recognized subject label are skipped;
//! an empty required cell ends the whole scan, an exhausted option list only
//! ends the current field's row scan. A cell addressed beyond a row's width
//! reads as an empty cell.

use vstd::prelude::*;
use vstd::string::*;

use crate::cell::CellV;
use crate::cell::CellValue;
use crate::error::ConvertError;
use crate::error::ErrorV;
use crate::field::Field;
use crate::field::FieldV;
use crate::field::Page;
use crate::field::spec_field_new;
use crate::field::spec_field_number;
use crate::field::spec_input_spec;
use crate::field::spec_label;
use crate::field::spec_num_input_spec;
use crate::field::spec_optional_string;
use crate::field::spec_optional_u64;
use crate::field::spec_required;
use crate::field::spec_variant;
use crate::field::view_opt_options;
use crate::field::view_opt_vec_string;
use crate::subtypes::view_opt_string;
use crate::subject::Subject;
use crate::subject::subject_of_label;
use crate::subtypes::FieldVariant;
use crate::subtypes::InputSpec;
use crate::subtypes::NumInputSpec;
use crate::subtypes::OptionType;
use crate::subtypes::OptionV;
use crate::text;
use crate::text::dec_rep;

verus! {

/// The hard safety cap on the outer field index: the scan never reads more
/// field blocks than this, whatever the grid holds.
pub const MAX_FIELD_COUNT: usize = 100;

/// The derived name of the field at position `n`: `"field<n>"`.
pub open spec fn spec_field_name(n: nat) -> Seq<char> {
    "field"@ + dec_rep(n)
}

fn field_name_of(n: u64) -> (s: String)
    ensures
        s@ == spec_field_name(n as nat),
{
    let mut s = "field".to_owned();
    text::append_dec_u64(&mut s, n);
    s
}

/// The value column of field `i`; its companion is one to the right.
pub open spec fn spec_col_of(i: nat) -> nat {
    if i == 1 {
        1
    } else {
        ((i - 1) * 2 + 1) as nat
    }
}

/// The cell at column `c`, an empty cell when the row is narrower.
pub open spec fn spec_cell_at(row: Seq<CellV>, c: int) -> CellV {
    if 0 <= c < row.len() {
        row[c]
    } else {
        CellV::Empty
    }
}

/// Spec-level mirror of [`RawField`].
pub struct RawV {
    pub field_name: Seq<char>,
    pub is_required: bool,
    pub variant: FieldVariant,
    pub min: Option<u64>,
    pub max: Option<u64>,
    pub label: Seq<char>,
    pub placeholder_text: Option<Seq<char>>,
    pub input_spec: Option<InputSpec>,
    pub num_input_spec: Option<NumInputSpec>,
    pub num_input_spec_error: Option<Seq<char>>,
    pub options_from_key: Option<Seq<char>>,
    pub options: Seq<OptionV>,
    pub ignore_options: bool,
}

/// The transient raw state of one field's scan; it exists only for the
/// duration of that scan and is consumed by the field builder.
pub struct RawField {
    pub field_name: String,
    pub is_required: bool,
    pub variant: FieldVariant,
    pub min: Option<u64>,
    pub max: Option<u64>,
    pub label: String,
    pub placeholder_text: Option<String>,
    pub input_spec: Option<InputSpec>,
    pub num_input_spec: Option<NumInputSpec>,
    pub num_input_spec_error: Option<String>,
    pub options_from_key: Option<String>,
    pub options: Vec<OptionType>,
    pub ignore_options: bool,
}

impl View for RawField {
    type V = RawV;

    open spec fn view(&self) -> RawV {
        RawV {
            field_name: self.field_name@,
            is_required: self.is_required,
            variant: self.variant,
            min: self.min,
            max: self.max,
            label: self.label@,
            placeholder_text: view_opt_string(self.placeholder_text),
            input_spec: self.input_spec,
            num_input_spec: self.num_input_spec,
            num_input_spec_error: view_opt_string(self.num_input_spec_error),
            options_from_key: view_opt_string(self.options_from_key),
            options: self.options.deep_view(),
            ignore_options: self.ignore_options,
        }
    }
}

/// The raw state a field's scan starts from.
pub open spec fn spec_init_raw(idx: nat) -> RawV {
    RawV {
        field_name: spec_field_name(idx),
        is_required: false,
        variant: FieldVariant::Text,
        min: None,
        max: None,
        label: Seq::empty(),
        placeholder_text: None,
        input_spec: None,
        num_input_spec: None,
        num_input_spec_error: None,
        options_from_key: None,
        options: Seq::empty(),
        ignore_options: false,
    }
}

/// What one recognized row does to the scan: most rows update the raw state
/// and the scan proceeds; an exhausted option list ends the current field's
/// row scan; an empty required cell is the boundary that ends the whole field
/// scan.
#[derive(Clone, Copy, Debug, PartialEq, Eq, Structural)]
pub enum RowOutcome {
    Proceed,
    OptionsExhausted,
    FieldBoundary,
}

/// What dispatching one recognized subject row over the raw state yields.
pub open spec fn spec_apply_row(st: RawV, subject: Subject, c: CellV, cn: CellV) -> Result<
    (RawV, RowOutcome),
    ErrorV,
> {
    match subject {
        Subject::Required => match spec_required(c) {
            Ok(Some(b)) => Ok((RawV { is_required: b, ..st }, RowOutcome::Proceed)),
            Ok(None) => Ok((st, RowOutcome::FieldBoundary)),
            Err(e) => Err(e),
        },
        Subject::Type => match spec_variant(c) {
            Ok(v) => Ok(
                (
                    RawV {
                        variant: v,
                        ignore_options: match v {
                            FieldVariant::TextArea | FieldVariant::Text => true,
                            _ => st.ignore_options,
                        },
                        ..st
                    },
                    RowOutcome::Proceed,
                ),
            ),
            Err(e) => Err(e),
        },
        Subject::Max => match spec_optional_u64(c) {
            Ok(m) => Ok((RawV { max: m, ..st }, RowOutcome::Proceed)),
            Err(e) => Err(e),
        },
        Subject::Min => match spec_optional_u64(c) {
            Ok(m) => Ok((RawV { min: m, ..st }, RowOutcome::Proceed)),
            Err(e) => Err(e),
        },
        Subject::Label => match spec_label(c) {
            Ok(l) => Ok((RawV { label: l, ..st }, RowOutcome::Proceed)),
            Err(e) => Err(e),
        },
        Subject::Placeholder => match spec_field_number(cn) {
            Ok(m) => Ok(
                (
                    RawV {
                        options_from_key: Some(spec_field_name(m as nat)),
                        ignore_options: true,
                        ..st
                    },
                    RowOutcome::Proceed,
                ),
            ),
            Err(_) => match spec_optional_string(c) {
                Ok(p) => Ok((RawV { placeholder_text: p, ..st }, RowOutcome::Proceed)),
                Err(e) => Err(e),
            },
        },
        Subject::InputSpec => match spec_input_spec(c) {
            Ok(v) => Ok((RawV { input_spec: v, ..st }, RowOutcome::Proceed)),
            Err(e) => Err(e),
        },
        Subject::NumInputSpec => match spec_num_input_spec(c) {
            Ok(v) => Ok((RawV { num_input_spec: v, ..st }, RowOutcome::Proceed)),
            Err(e) => Err(e),
        },
        Subject::NumInputSpecError => match spec_optional_string(c) {
            Ok(v) => Ok((RawV { num_input_spec_error: v, ..st }, RowOutcome::Proceed)),
            Err(e) => Err(e),
        },
        Subject::Options => if st.ignore_options {
            Ok((st, RowOutcome::OptionsExhausted))
        } else {
            match spec_optional_string(c) {
                Ok(Some(s)) => Ok(
                    (
                        RawV { options: st.options.push(OptionV { value: s, label: s }), ..st },
                        RowOutcome::Proceed,
                    ),
                ),
                Ok(None) => Ok((st, RowOutcome::OptionsExhausted)),
                Err(e) => Err(e),
            }
        },
        _ => Ok((st, RowOutcome::Proceed)),
    }
}

/// Dispatches one recognized subject row over the raw state.
fn apply_row(st: &mut RawField, subject: Subject, dt: &CellValue, dt_next: &CellValue) -> (r:
    Result<RowOutcome, ConvertError>)
    ensures
        match r {
            Ok(oc) => spec_apply_row(old(st)@, subject, dt@, dt_next@) == Ok::<
                (RawV, RowOutcome),
                ErrorV,
            >((final(st)@, oc)),
            Err(e) => spec_apply_row(old(st)@, subject, dt@, dt_next@) == Err::<
                (RawV, RowOutcome),
                ErrorV,
            >(e@),
        },
{
    match subject {
        Subject::Required => {
            match Field::required_from_datatype(dt)? {
                Some(b) => {
                    st.is_required = b;
                    Ok(RowOutcome::Proceed)
                }
                None => Ok(RowOutcome::FieldBoundary),
            }
        }
        Subject::Type => {
            let v = Field::variant_from_datatype(dt)?;
            st.variant = v;
            st.ignore_options = match v {
                FieldVariant::TextArea | FieldVariant::Text => true,
                _ => st.ignore_options,
            };
            Ok(RowOutcome::Proceed)
        }
        Subject::Max => {
            st.max = Field::optional_u64_from_datatype(dt)?;
            Ok(RowOutcome::Proceed)
        }
        Subject::Min => {
            st.min = Field::optional_u64_from_datatype(dt)?;
            Ok(RowOutcome::Proceed)
        }
        Subject::Label => {
            st.label = Field::label_from_datatype(dt)?;
            Ok(RowOutcome::Proceed)
        }
        Subject::Placeholder => {
            match Field::field_number_from_datatype(dt_next) {
                Ok(field_number) => {
                    st.options_from_key = Some(field_name_of(field_number as u64));
                    st.ignore_options = true;
                    Ok(RowOutcome::Proceed)
                }
                Err(_) => {
                    st.placeholder_text = Field::optional_string_from_datatype(dt)?;
                    Ok(RowOutcome::Proceed)
                }
            }
        }
        Subject::InputSpec => {
            st.input_spec = Field::input_specification_from_datatype(dt)?;
            Ok(RowOutcome::Proceed)
        }
        Subject::NumInputSpec => {
            st.num_input_spec = Field::num_input_specification_from_datatype(dt)?;
            Ok(RowOutcome::Proceed)
        }
        Subject::NumInputSpecError => {
            st.num_input_spec_error = Field::optional_string_from_datatype(dt)?;
            Ok(RowOutcome::Proceed)
        }
        Subject::Options => {
            if st.ignore_options {
                return Ok(RowOutcome::OptionsExhausted);
            }
            match Field::optional_string_from_datatype(dt)? {
                Some(s) => {
                    let ghost before = st.options.deep_view();
                    let ghost sv = s@;
                    st.options.push(OptionType::new(s));
                    proof {
                        assert(st.options.deep_view() =~= before.push(
                            OptionV { value: sv, label: sv },
                        ));
                    }
                    Ok(RowOutcome::Proceed)
                }
                None => Ok(RowOutcome::OptionsExhausted),
            }
        }
        _ => Ok(RowOutcome::Proceed),
    }
}

/// What scanning one field's rows from row `i` on yields: the raw state when
/// the rows run out or the option list is exhausted, paired with whether the
/// field boundary was reached instead.
pub open spec fn spec_scan_rows(rows: Seq<Seq<CellV>>, i: int, col: int, st: RawV) -> Result<
    (RawV, bool),
    ErrorV,
>
    decreases rows.len() - i,
{
    if i < 0 || i >= rows.len() {
        Ok((st, false))
    } else {
        match spec_cell_at(rows[i], 0) {
            CellV::Text(label) => match subject_of_label(label) {
                Err(e) => Err(e),
                Ok(subj) => match spec_apply_row(
                    st,
                    subj,
                    spec_cell_at(rows[i], col),
                    spec_cell_at(rows[i], col + 1),
                ) {
                    Err(e) => Err(e),
                    Ok((st2, RowOutcome::Proceed)) => spec_scan_rows(rows, i + 1, col, st2),
                    Ok((st2, RowOutcome::OptionsExhausted)) => Ok((st2, false)),
                    Ok((st2, RowOutcome::FieldBoundary)) => Ok((st2, true)),
                },
            },
            _ => spec_scan_rows(rows, i + 1, col, st),
        }
    }
}

/// What scanning field blocks from index `idx` on yields: the fields of all
/// blocks up to the first one whose required cell is empty, newest last.
pub open spec fn spec_scan_fields(rows: Seq<Seq<CellV>>, idx: int) -> Result<Seq<FieldV>, ErrorV>
    decreases MAX_FIELD_COUNT - idx,
{
    if idx < 1 || idx >= MAX_FIELD_COUNT {
        Ok(Seq::empty())
    } else {
        match spec_scan_rows(rows, 0, spec_col_of(idx as nat) as int, spec_init_raw(idx as nat)) {
            Err(e) => Err(e),
            Ok((st, true)) => Ok(Seq::empty()),
            Ok((st, false)) => match spec_field_new(
                st.is_required,
                st.field_name,
                st.variant,
                st.label,
                st.placeholder_text,
                st.input_spec,
                st.num_input_spec,
                st.num_input_spec_error,
                if st.options.len() == 0 {
                    None
                } else {
                    Some(st.options)
                },
                st.options_from_key,
                st.max,
                st.min,
                None,
                None,
                None,
            ) {
                Err(e) => Err(e),
                Ok(f) => match spec_scan_fields(rows, idx + 1) {
                    Err(e) => Err(e),
                    Ok(rest) => Ok(seq![f] + rest),
                },
            },
        }
    }
}

/// What extracting a whole grid yields.
pub open spec fn spec_parse(rows: Seq<Seq<CellV>>) -> Result<Seq<FieldV>, ErrorV> {
    spec_scan_fields(rows, 1)
}

/// Scans the grid and assembles the page: the whole extraction, from rows of
/// cells to the ordered field list, failing on the first classification,
/// coercion or synthesis error.
#[verifier::loop_isolation(false)]
pub fn parse(grid: &Vec<Vec<CellValue>>) -> (r: Result<Page, ConvertError>)
    ensures
        match r {
            Ok(p) => spec_parse(grid.deep_view()) == Ok::<Seq<FieldV>, ErrorV>(p@),
            Err(e) => spec_parse(grid.deep_view()) == Err::<Seq<FieldV>, ErrorV>(e@),
        },
{
    let ghost g = grid.deep_view();
    let empty_cell = CellValue::Empty;
    let mut fields: Vec<Field> = Vec::new();
    let mut field_index: usize = 1;
    proof {
        assert(fields.deep_view() =~= Seq::<FieldV>::empty());
        if spec_scan_fields(g, 1) is Ok {
            assert(Seq::<FieldV>::empty() + spec_scan_fields(g, 1)->Ok_0 =~= spec_scan_fields(
                g,
                1,
            )->Ok_0);
        }
    }
    while field_index < MAX_FIELD_COUNT
        invariant
            1 <= field_index <= MAX_FIELD_COUNT,
            match spec_scan_fields(g, field_index as int) {
                Ok(rest) => spec_scan_fields(g, 1) == Ok::<Seq<FieldV>, ErrorV>(
                    fields.deep_view() + rest,
                ),
                Err(e) => spec_scan_fields(g, 1) == Err::<Seq<FieldV>, ErrorV>(e),
            },
        decreases MAX_FIELD_COUNT - field_index,
    {
        let field_name = field_name_of(field_index as u64);
        let mut st = RawField {
            field_name,
            is_required: false,
            variant: FieldVariant::Text,
            min: None,
            max: None,
            label: String::new(),
            placeholder_text: None,
            input_spec: None,
            num_input_spec: None,
            num_input_spec_error: None,
            options_from_key: None,
            options: Vec::new(),
            ignore_options: false,
        };
        proof {
            assert(st.options.deep_view() =~= Seq::<OptionV>::empty());
            assert(st@ == spec_init_raw(field_index as nat));
        }
        let ghost st0 = st@;
        let col_index: usize = if field_index == 1 {
            1
        } else {
            (field_index - 1) * 2 + 1
        };
        proof {
            assert(col_index as int == spec_col_of(field_index as nat) as int);
        }
        let ghost col = col_index as int;
        let mut row_i: usize = 0;
        let mut rows_done = false;
        let mut terminated = false;
        while row_i < grid.len() && !rows_done && !terminated
            invariant
                row_i <= grid@.len(),
                !(rows_done && terminated),
                !rows_done && !terminated ==> spec_scan_rows(g, 0, col, st0) == spec_scan_rows(
                    g,
                    row_i as int,
                    col,
                    st@,
                ),
                rows_done && !terminated ==> spec_scan_rows(g, 0, col, st0) == Ok::<
                    (RawV, bool),
                    ErrorV,
                >((st@, false)),
                terminated ==> spec_scan_rows(g, 0, col, st0) == Ok::<(RawV, bool), ErrorV>(
                    (st@, true),
                ),
            decreases grid@.len() - row_i + (if rows_done || terminated {
                0int
            } else {
                1int
            }),
        {
            let row: &Vec<CellValue> = &grid[row_i];
            proof {
                assert(g[row_i as int] == row.deep_view());
            }
            let mut subject_opt: Option<Subject> = None;
            if 0 < row.len() {
                if let CellValue::Text(s) = &row[0] {
                    proof {
                        assert(row.deep_view()[0] == row@[0]@);
                        assert(spec_cell_at(g[row_i as int], 0) == CellV::Text(s@));
                    }
                    match Subject::from_label(s.as_str()) {
                        Ok(sub) => {
                            subject_opt = Some(sub);
                        }
                        Err(e) => {
                            return Err(e);
                        }
                    }
                }
            }
            match subject_opt {
                None => {
                    proof {
                        assert(spec_scan_rows(g, row_i as int, col, st@) == spec_scan_rows(
                            g,
                            row_i + 1,
                            col,
                            st@,
                        ));
                    }
                    row_i = row_i + 1;
                }
                Some(subject) => {
                    let dt: &CellValue = if col_index < row.len() {
                        &row[col_index]
                    } else {
                        &empty_cell
                    };
                    let dt_next: &CellValue = if col_index + 1 < row.len() {
                        &row[col_index + 1]
                    } else {
                        &empty_cell
                    };
                    proof {
                        if col_index < row@.len() {
                            assert(row.deep_view()[col] == row@[col]@);
                        }
                        if col_index + 1 < row@.len() {
                            assert(row.deep_view()[col + 1] == row@[col + 1]@);
                        }
                        assert(dt@ == spec_cell_at(g[row_i as int], col));
                        assert(dt_next@ == spec_cell_at(g[row_i as int], col + 1));
                    }
                    let ghost st_before = st@;
                    match apply_row(&mut st, subject, dt, dt_next) {
                        Ok(RowOutcome::Proceed) => {
                            proof {
                                assert(spec_scan_rows(g, row_i as int, col, st_before)
                                    == spec_scan_rows(g, row_i + 1, col, st@));
                            }
                            row_i = row_i + 1;
                        }
                        Ok(RowOutcome::OptionsExhausted) => {
                            proof {
                                assert(spec_scan_rows(g, row_i as int, col, st_before) == Ok::<
                                    (RawV, bool),
                                    ErrorV,
                                >((st@, false)));
                            }
                            rows_done = true;
                        }
                        Ok(RowOutcome::FieldBoundary) => {
                            proof {
                                assert(spec_scan_rows(g, row_i as int, col, st_before) == Ok::<
                                    (RawV, bool),
                                    ErrorV,
                                >((st@, true)));
                            }
                            terminated = true;
                        }
                        Err(e) => {
                            proof {
                                assert(spec_scan_rows(g, row_i as int, col, st_before) == Err::<
                                    (RawV, bool),
                                    ErrorV,
                                >(e@));
                            }
                            return Err(e);
                        }
                    }
                }
            }
        }
        proof {
            if !rows_done && !terminated {
                assert(spec_scan_rows(g, row_i as int, col, st@) == Ok::<(RawV, bool), ErrorV>(
                    (st@, false),
                ));
            }
        }
        if terminated {
            proof {
                assert(spec_scan_fields(g, field_index as int) == Ok::<Seq<FieldV>, ErrorV>(
                    Seq::empty(),
                ));
                assert(fields.deep_view() + Seq::<FieldV>::empty() =~= fields.deep_view());
            }
            return Ok(Page::new(fields));
        }
        let ghost st_v = st@;
        let RawField {
            field_name,
            is_required,
            variant,
            min,
            max,
            label,
            placeholder_text,
            input_spec,
            num_input_spec,
            num_input_spec_error,
            options_from_key,
            options,
            ignore_options,
        } = st;
        let options = Field::vec_to_optional_vec(options);
        let display_condition_first = Field::vec_to_optional_vec(Vec::<String>::new());
        let display_condition_second = Field::vec_to_optional_vec(Vec::<String>::new());
        let display_condition_third = Field::vec_to_optional_vec(Vec::<String>::new());
        proof {
            assert(view_opt_options(options) == (if st_v.options.len() == 0 {
                None::<Seq<OptionV>>
            } else {
                Some(st_v.options)
            }));
            assert(view_opt_vec_string(display_condition_first) is None);
            assert(view_opt_vec_string(display_condition_second) is None);
            assert(view_opt_vec_string(display_condition_third) is None);
        }
        let ghost fields_before = fields.deep_view();
        match Field::new(
            is_required,
            field_name,
            variant,
            label,
            placeholder_text,
            input_spec,
            num_input_spec,
            num_input_spec_error,
            options,
            options_from_key,
            max,
            min,
            display_condition_first,
            display_condition_second,
            display_condition_third,
        ) {
            Ok(f) => {
                fields.push(f);
                proof {
                    assert(fields.deep_view() =~= fields_before.push(f@));
                    let rest = spec_scan_fields(g, field_index + 1);
                    if rest is Ok {
                        assert(fields_before + (seq![f@] + rest->Ok_0) =~= fields_before.push(f@)
                            + rest->Ok_0);
                    }
                }
                field_index = field_index + 1;
            }
            Err(e) => {
                return Err(e);
            }
        }
    }
    proof {
        assert(fields.deep_view() + Seq::<FieldV>::empty() =~= fields.deep_view());
    }
    Ok(Page::new(fields))
}

} // verus!
