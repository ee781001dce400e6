use sheetform::cell::CellValue;
use sheetform::error::ConvertError;
use sheetform::field::Field;
use sheetform::subject::Subject;
use sheetform::subtypes::FieldVariant;
use sheetform::subtypes::InputSpec;
use sheetform::subtypes::NumInputSpec;
use sheetform::subtypes::OptionType;

fn t(s: &str) -> CellValue {
    CellValue::Text(s.to_string())
}

#[test]
fn subject_labels_match_exactly() {
    assert!(matches!(Subject::from_label("ページング"), Ok(Subject::Paging)));
    assert!(matches!(Subject::from_label("表示"), Ok(Subject::Required)));
    assert!(matches!(Subject::from_label("表示条件1"), Ok(Subject::DisplayConditionFirst)));
    assert!(matches!(Subject::from_label("表示条件2"), Ok(Subject::DisplayConditionSecond)));
    assert!(matches!(Subject::from_label("表示条件3"), Ok(Subject::DisplayConditionThird)));
    assert!(matches!(Subject::from_label("タイプ"), Ok(Subject::Type)));
    assert!(matches!(Subject::from_label("最大"), Ok(Subject::Max)));
    assert!(matches!(Subject::from_label("最小"), Ok(Subject::Min)));
    assert!(matches!(Subject::from_label("ラベル"), Ok(Subject::Label)));
    assert!(matches!(Subject::from_label("プレースホルダ"), Ok(Subject::Placeholder)));
    assert!(matches!(Subject::from_label("入力指定"), Ok(Subject::InputSpec)));
    assert!(matches!(Subject::from_label("数字入力指定範囲(例：10~90)"), Ok(Subject::NumInputSpec)));
    assert!(matches!(Subject::from_label("入力指定エラー文言"), Ok(Subject::NumInputSpecError)));
}

#[test]
fn options_label_matches_by_prefix() {
    assert!(matches!(Subject::from_label("プルダウン"), Ok(Subject::Options)));
    assert!(matches!(Subject::from_label("プルダウン12"), Ok(Subject::Options)));
    assert!(matches!(Subject::from_label("プルダウン(その他)"), Ok(Subject::Options)));
    match Subject::from_label("プルダウ") {
        Err(ConvertError::IncorrectSubject(s)) => assert_eq!(s, "プルダウ"),
        other => panic!("expected IncorrectSubject, got {:?}", other),
    }
}

#[test]
fn variant_labels_form_a_closed_vocabulary() {
    assert!(matches!(FieldVariant::from_label("プルダウン"), Ok(FieldVariant::Dropdown)));
    assert!(matches!(FieldVariant::from_label("テキスト一行"), Ok(FieldVariant::Text)));
    assert!(matches!(FieldVariant::from_label("テキストエリア"), Ok(FieldVariant::TextArea)));
    assert!(matches!(FieldVariant::from_label("マルチセレクト"), Ok(FieldVariant::Multiselect)));
    assert!(matches!(FieldVariant::from_label("ラジオボタン"), Ok(FieldVariant::Radio)));
    match FieldVariant::from_label("チェックボックス") {
        Err(ConvertError::IncorrectFieldVariant(s)) => assert_eq!(s, "チェックボックス"),
        other => panic!("expected IncorrectFieldVariant, got {:?}", other),
    }
    assert!(matches!(FieldVariant::default(), FieldVariant::Text));
}

#[test]
fn input_spec_labels() {
    assert!(matches!(InputSpec::from_label("半角数字"), Ok(InputSpec::HalfWidthNumber)));
    assert!(matches!(InputSpec::from_label("半角英字"), Ok(InputSpec::HalfWidthKanji)));
    match InputSpec::from_label("全角数字") {
        Err(ConvertError::IncorrectInputSpecificationError(s)) => assert_eq!(s, "全角数字"),
        other => panic!("expected IncorrectInputSpecificationError, got {:?}", other),
    }
}

#[test]
fn num_input_spec_parses_a_tilde_range() {
    assert_eq!(NumInputSpec::from_text("10~90").unwrap(), NumInputSpec { min: 10, max: 90 });
    assert_eq!(NumInputSpec::from_text("1~100").unwrap(), NumInputSpec { min: 1, max: 100 });
    for bad in ["10-90", "10~90~5", "10~", "~90", "10", "a~b", ""] {
        match NumInputSpec::from_text(bad) {
            Err(ConvertError::IncorrectNumInputSpecificationError(s)) => assert_eq!(s, bad),
            other => panic!("expected error for {:?}, got {:?}", bad, other),
        }
    }
}

#[test]
fn field_number_coercion() {
    assert_eq!(Field::field_number_from_datatype(&t("field12")).unwrap(), 12);
    assert_eq!(Field::field_number_from_datatype(&t("7")).unwrap(), 7);
    assert_eq!(Field::field_number_from_datatype(&t("fieldfield3")).unwrap(), 3);
    assert_eq!(Field::field_number_from_datatype(&CellValue::Int(9)).unwrap(), 9);
    assert!(matches!(
        Field::field_number_from_datatype(&t("fieldX")),
        Err(ConvertError::UnparseableFieldNumber)
    ));
    assert!(matches!(
        Field::field_number_from_datatype(&t("")),
        Err(ConvertError::UnparseableFieldNumber)
    ));
    assert!(matches!(
        Field::field_number_from_datatype(&CellValue::Float { repr: "2.5".to_string(), whole: 2 }),
        Err(ConvertError::ExpectedIntOrString)
    ));
    assert!(matches!(
        Field::field_number_from_datatype(&CellValue::Empty),
        Err(ConvertError::ExpectedIntOrString)
    ));
}

#[test]
fn required_coercion() {
    assert_eq!(Field::required_from_datatype(&CellValue::Empty).unwrap(), None);
    assert_eq!(Field::required_from_datatype(&t("")).unwrap(), None);
    assert_eq!(Field::required_from_datatype(&t("表示(必須)")).unwrap(), Some(true));
    assert_eq!(Field::required_from_datatype(&t("表示(任意)")).unwrap(), Some(false));
    match Field::required_from_datatype(&t("表示する")) {
        Err(ConvertError::IncorrectRequired(s)) => assert_eq!(s, "表示する"),
        other => panic!("expected IncorrectRequired, got {:?}", other),
    }
    assert!(matches!(
        Field::required_from_datatype(&CellValue::Int(1)),
        Err(ConvertError::ExpectedString)
    ));
}

#[test]
fn optional_string_coercion() {
    assert_eq!(Field::optional_string_from_datatype(&CellValue::Empty).unwrap(), None);
    assert_eq!(Field::optional_string_from_datatype(&t("")).unwrap(), None);
    assert_eq!(Field::optional_string_from_datatype(&t("こんにちは")).unwrap(), Some("こんにちは".to_string()));
    assert_eq!(
        Field::optional_string_from_datatype(&CellValue::Int(-42)).unwrap(),
        Some("-42".to_string())
    );
    assert_eq!(
        Field::optional_string_from_datatype(&CellValue::Int(0)).unwrap(),
        Some("0".to_string())
    );
    assert_eq!(
        Field::optional_string_from_datatype(&CellValue::Float { repr: "2.5".to_string(), whole: 2 })
            .unwrap(),
        Some("2.5".to_string())
    );
    assert_eq!(
        Field::optional_string_from_datatype(&CellValue::DateTime {
            repr: "44197".to_string(),
            whole: 44197
        })
        .unwrap(),
        Some("44197".to_string())
    );
    assert!(matches!(
        Field::optional_string_from_datatype(&CellValue::Other),
        Err(ConvertError::UnparseableCell)
    ));
}

#[test]
fn optional_u64_coercion() {
    assert_eq!(Field::optional_u64_from_datatype(&CellValue::Empty).unwrap(), None);
    assert_eq!(Field::optional_u64_from_datatype(&t("")).unwrap(), None);
    assert_eq!(Field::optional_u64_from_datatype(&t("42")).unwrap(), Some(42));
    assert_eq!(Field::optional_u64_from_datatype(&t("+7")).unwrap(), Some(7));
    assert_eq!(Field::optional_u64_from_datatype(&CellValue::Int(5)).unwrap(), Some(5));
    assert_eq!(
        Field::optional_u64_from_datatype(&CellValue::Float { repr: "9.9".to_string(), whole: 9 })
            .unwrap(),
        Some(9)
    );
    assert!(matches!(
        Field::optional_u64_from_datatype(&t("4.5")),
        Err(ConvertError::ExpectedInt)
    ));
    assert!(matches!(
        Field::optional_u64_from_datatype(&t("18446744073709551616")),
        Err(ConvertError::ExpectedInt)
    ));
    assert_eq!(
        Field::optional_u64_from_datatype(&t("18446744073709551615")).unwrap(),
        Some(u64::MAX)
    );
    assert!(matches!(
        Field::optional_u64_from_datatype(&CellValue::Other),
        Err(ConvertError::UnparseableCell)
    ));
}

#[test]
fn label_coercion_takes_strings_only() {
    assert_eq!(Field::label_from_datatype(&t("氏名")).unwrap(), "氏名");
    assert_eq!(Field::label_from_datatype(&t("")).unwrap(), "");
    assert!(matches!(
        Field::label_from_datatype(&CellValue::Empty),
        Err(ConvertError::ExpectedString)
    ));
}

#[test]
fn option_equality_is_over_value_only() {
    let o = OptionType::new("はい".to_string());
    assert_eq!(o.value, "はい");
    assert_eq!(o.label, "はい");
    assert!(o.is_val("はい"));
    assert!(!o.is_val("いいえ"));
}

#[test]
fn vec_to_optional_vec_collapses_empty() {
    assert_eq!(Field::vec_to_optional_vec(Vec::<String>::new()), None);
    assert_eq!(
        Field::vec_to_optional_vec(vec![1u64, 2]),
        Some(vec![1u64, 2])
    );
}

#[test]
fn error_messages_embed_the_offending_value() {
    assert_eq!(
        ConvertError::IncorrectSubject("x".to_string()).message(),
        "Wrong subject format \"x\""
    );
    assert_eq!(
        ConvertError::IncorrectFieldVariant("y".to_string()).message(),
        "Wrong field type \"y\""
    );
    assert_eq!(
        ConvertError::IncorrectRequired("z".to_string()).message(),
        "Wrong required format \"z\""
    );
    assert_eq!(
        ConvertError::IncorrectInputSpecificationError("a".to_string()).message(),
        "Wrong input specification format \"a\""
    );
    assert_eq!(
        ConvertError::IncorrectNumInputSpecificationError("1~".to_string()).message(),
        "Wrong number input specification format \"1~\""
    );
    assert_eq!(ConvertError::NoWorksheet.message(), "No worksheet in selected Xlsx file");
    assert_eq!(ConvertError::ReadError("r".to_string()).message(), "ReadError: r");
    assert_eq!(ConvertError::DeserializeError("d".to_string()).message(), "DeserializeError: d");
    assert_eq!(ConvertError::XlsxError("x".to_string()).message(), "XlsxError: x");
    assert_eq!(ConvertError::ExpectedString.message(), "Expected string, found something else");
    assert_eq!(ConvertError::ExpectedInt.message(), "Expected whole number, found something else");
    assert_eq!(
        ConvertError::ExpectedIntOrString.message(),
        "Expected whole number or string, found something else"
    );
    assert_eq!(
        ConvertError::UnparseableFieldNumber.message(),
        "Couldn't parse string to get field number"
    );
    assert_eq!(ConvertError::UnparseableCell.message(), "Could not parse cell");
    assert_eq!(
        ConvertError::PlaceholderNotInOptions.message(),
        "Placeholder for multiselect not in options"
    );
    assert_eq!(
        ConvertError::SerializeError("s".to_string()).message(),
        "Error while trying to serialize: s"
    );
    assert_eq!(ConvertError::IOError("i".to_string()).message(), "IO Error: i");
}
