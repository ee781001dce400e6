use sheetform::cell::CellValue;
use sheetform::error::ConvertError;
use sheetform::field::Field;
use sheetform::reader::parse;
use sheetform::subtypes::InputSpec;
use sheetform::subtypes::NumInputSpec;
use sheetform::subtypes::OptionType;
use sheetform::subtypes::ValidatorType;

fn t(s: &str) -> CellValue {
    CellValue::Text(s.to_string())
}

fn e() -> CellValue {
    CellValue::Empty
}

#[test]
fn equal_bounds_always_give_the_exact_length_rule() {
    for k in [0u64, 1, 7, 25, 1000] {
        let vs = Field::text_validators("field3", &Some(k), &Some(k), &None, &None, &None);
        assert!(vs.len() >= 1);
        assert!(matches!(vs[0].validator_type, ValidatorType::Text));
        assert_eq!(vs[0].text, format!("{}文字で入力してください", k));
        assert_eq!(vs[0].min_length, Some(k));
        assert_eq!(vs[0].max_length, Some(k));
        assert!(vs[0].expression.is_none());
    }
}

#[test]
fn narrow_guard_emits_range_and_digit_rules() {
    let vs = Field::text_validators(
        "field1",
        &Some(1),
        &Some(2),
        &Some(InputSpec::HalfWidthNumber),
        &Some(NumInputSpec { min: 1, max: 100 }),
        &Some("1歳以上100歳未満で入力してください。".to_string()),
    );
    assert_eq!(vs.len(), 2);
    assert!(matches!(vs[0].validator_type, ValidatorType::Expression));
    assert_eq!(vs[0].text, "1歳以上100歳未満で入力してください。");
    assert_eq!(
        vs[0].expression.as_deref(),
        Some("${field1} && ${field1} >= 1 && ${field1} < 100")
    );
    assert!(matches!(vs[1].validator_type, ValidatorType::Expression));
    assert_eq!(vs[1].text, "入力できるのは半角数字のみです");
    assert_eq!(
        vs[1].expression.as_deref(),
        Some("${field1} && ${field1}.match(/^[0-9]+$/)")
    );
}

#[test]
fn narrow_guard_requires_exactly_one_and_two() {
    // other bounds emit no digit-only rule, even with the same input spec
    let vs = Field::text_validators(
        "field1",
        &Some(2),
        &Some(3),
        &Some(InputSpec::HalfWidthNumber),
        &None,
        &None,
    );
    assert_eq!(vs.len(), 0);
}

#[test]
fn letters_rule_needs_no_bounds() {
    let vs = Field::text_validators(
        "field9",
        &None,
        &None,
        &Some(InputSpec::HalfWidthKanji),
        &None,
        &None,
    );
    assert_eq!(vs.len(), 1);
    assert_eq!(vs[0].text, "入力できるのは半角英字のみです");
    assert_eq!(
        vs[0].expression.as_deref(),
        Some("${field9} && ${field9}.match(/^([a-zA-Z])+$/)")
    );
}

#[test]
fn range_rule_needs_both_bounds_present() {
    // the numeric-range spec alone emits nothing while a bound is missing
    let vs = Field::text_validators(
        "field1",
        &Some(1),
        &None,
        &None,
        &Some(NumInputSpec { min: 1, max: 100 }),
        &Some("範囲外です".to_string()),
    );
    assert_eq!(vs.len(), 0);
}

#[test]
fn textarea_minimum_rule_only() {
    let vs = Field::textarea_validators(&Some(12));
    assert_eq!(vs.len(), 1);
    assert!(matches!(vs[0].validator_type, ValidatorType::Text));
    assert_eq!(vs[0].text, "12文字以上で入力してください");
    assert_eq!(vs[0].min_length, Some(12));
    assert_eq!(vs[0].max_length, None);
    assert_eq!(Field::textarea_validators(&None).len(), 0);
}

fn opts(vals: &[&str]) -> Option<Vec<OptionType>> {
    Some(vals.iter().map(|v| OptionType::new(v.to_string())).collect())
}

#[test]
fn answer_count_rule_message_by_present_bounds() {
    let both = Field::multiselect_validators("field2", &Some(1), &Some(3), &None, &None).unwrap();
    assert_eq!(both.len(), 1);
    assert!(matches!(both[0].validator_type, ValidatorType::AnswerCount));
    assert_eq!(both[0].text, "選択肢は1個以上3以下");
    assert_eq!(both[0].min_length, Some(1));
    assert_eq!(both[0].max_length, Some(3));

    let lo = Field::multiselect_validators("field2", &Some(2), &None, &None, &None).unwrap();
    assert_eq!(lo.len(), 1);
    assert_eq!(lo[0].text, "選択肢は2個以上");
    assert_eq!(lo[0].min_length, Some(2));
    assert_eq!(lo[0].max_length, None);

    let hi = Field::multiselect_validators("field2", &None, &Some(4), &None, &None).unwrap();
    assert_eq!(hi.len(), 1);
    assert_eq!(hi[0].text, "選択肢は4個以下");
    assert_eq!(hi[0].min_length, None);
    assert_eq!(hi[0].max_length, Some(4));

    let none = Field::multiselect_validators("field2", &None, &None, &None, &None).unwrap();
    assert_eq!(none.len(), 0);
}

#[test]
fn single_exception_rule_encodes_sole_selection() {
    let vs = Field::multiselect_validators(
        "field1",
        &None,
        &None,
        &Some("B".to_string()),
        &opts(&["A", "B", "C"]),
    )
    .unwrap();
    assert_eq!(vs.len(), 1);
    assert!(matches!(vs[0].validator_type, ValidatorType::Expression));
    assert_eq!(vs[0].text, "[B]が選択されています。");
    assert_eq!(
        vs[0].expression.as_deref(),
        Some("${field1} && (${field1}.includes('B') && ${field1}.length === 1) || !${field1}.includes('B')")
    );
}

#[test]
fn several_exceptions_combine_into_one_rule() {
    let vs = Field::multiselect_validators(
        "field4",
        &None,
        &None,
        &Some("A,C".to_string()),
        &opts(&["A", "B", "C"]),
    )
    .unwrap();
    assert_eq!(vs.len(), 1);
    assert_eq!(vs[0].text, "[A]または[C]が選択されています。");
    assert_eq!(
        vs[0].expression.as_deref(),
        Some(
            "${field4} && (${field4}.some(item => ['A', 'C'].includes(item)) && ${field4}.length === 1) || !${field4}.some(item => ['A', 'C'].includes(item))"
        )
    );
}

#[test]
fn missing_exception_value_always_fails() {
    let r = Field::multiselect_validators(
        "field1",
        &Some(1),
        &Some(2),
        &Some("D".to_string()),
        &opts(&["A", "B", "C"]),
    );
    assert!(matches!(r, Err(ConvertError::PlaceholderNotInOptions)));

    // one bad value among good ones is still fatal
    let r = Field::multiselect_validators(
        "field1",
        &None,
        &None,
        &Some("A,D".to_string()),
        &opts(&["A", "B", "C"]),
    );
    assert!(matches!(r, Err(ConvertError::PlaceholderNotInOptions)));

    // an empty option list can hold nothing
    let r = Field::multiselect_validators("field1", &None, &None, &Some("A".to_string()), &Some(vec![]));
    assert!(matches!(r, Err(ConvertError::PlaceholderNotInOptions)));

    // an absent option list can hold nothing either
    let r = Field::multiselect_validators("field1", &None, &None, &Some("A".to_string()), &None);
    assert!(matches!(r, Err(ConvertError::PlaceholderNotInOptions)));
}

#[test]
fn missing_exception_value_aborts_the_whole_scan() {
    let grid = vec![
        vec![t("表示"), t("表示(必須)")],
        vec![t("タイプ"), t("マルチセレクト")],
        vec![t("ラベル"), t("Q")],
        vec![t("プレースホルダ"), t("D"), e()],
        vec![t("プルダウン1"), t("A"), e()],
        vec![t("プルダウン2"), t("B"), e()],
    ];
    match parse(&grid) {
        Err(ConvertError::PlaceholderNotInOptions) => {}
        other => panic!("expected PlaceholderNotInOptions, got {:?}", other),
    }
}

#[test]
fn narrow_guard_scenario_through_full_extraction() {
    let grid = vec![
        vec![t("表示"), t("表示(必須)")],
        vec![t("タイプ"), t("テキスト一行")],
        vec![t("ラベル"), t("年齢")],
        vec![t("最小"), t("1")],
        vec![t("最大"), t("2")],
        vec![t("入力指定"), t("半角数字")],
        vec![t("数字入力指定範囲(例：10~90)"), t("1~100")],
        vec![t("入力指定エラー文言"), t("1歳以上100歳未満で入力してください。")],
    ];
    let page = parse(&grid).unwrap();
    let f = &page.elements[0];
    assert_eq!(f.num_input_spec, Some(NumInputSpec { min: 1, max: 100 }));
    let vs = f.processed.validators.as_ref().unwrap();
    assert_eq!(vs.len(), 2);
    assert_eq!(
        vs[0].expression.as_deref(),
        Some("${field1} && ${field1} >= 1 && ${field1} < 100")
    );
    assert_eq!(
        vs[1].expression.as_deref(),
        Some("${field1} && ${field1}.match(/^[0-9]+$/)")
    );
}

#[test]
fn sole_selection_scenario_through_full_extraction() {
    let grid = vec![
        vec![t("表示"), t("表示(必須)")],
        vec![t("タイプ"), t("マルチセレクト")],
        vec![t("ラベル"), t("Q")],
        vec![t("プレースホルダ"), t("B"), e()],
        vec![t("プルダウン1"), t("A"), e()],
        vec![t("プルダウン2"), t("B"), e()],
        vec![t("プルダウン3"), t("C"), e()],
    ];
    let page = parse(&grid).unwrap();
    let f = &page.elements[0];
    let vs = f.processed.validators.as_ref().unwrap();
    assert_eq!(vs.len(), 1);
    assert!(matches!(vs[0].validator_type, ValidatorType::Expression));
    assert_eq!(
        vs[0].expression.as_deref(),
        Some("${field1} && (${field1}.includes('B') && ${field1}.length === 1) || !${field1}.includes('B')")
    );
}
