use sheetform::cell::CellValue;
use sheetform::error::ConvertError;
use sheetform::field::Page;
use sheetform::reader::parse;
use sheetform::subtypes::FieldVariant;
use sheetform::subtypes::ValidatorType;

fn t(s: &str) -> CellValue {
    CellValue::Text(s.to_string())
}

fn e() -> CellValue {
    CellValue::Empty
}

fn must_parse(grid: &Vec<Vec<CellValue>>) -> Page {
    match parse(grid) {
        Ok(p) => p,
        Err(err) => panic!("parse failed: {:?}", err),
    }
}

#[test]
fn test_dropdowns() {
    let grid = vec![
        vec![t("表示"), t("表示(必須)")],
        vec![t("タイプ"), t("プルダウン")],
        vec![t("ラベル"), t("色を選択")],
        vec![t("プルダウン1"), t("赤"), e()],
        vec![t("プルダウン2"), t("青"), e()],
        vec![t("プルダウン3"), e(), e()],
    ];
    let page = must_parse(&grid);
    assert_eq!(page.elements.len(), 1);
    let f = &page.elements[0];
    assert_eq!(f.field_name, "field1");
    assert!(f.is_required);
    assert!(matches!(f.variant, FieldVariant::Dropdown));
    assert_eq!(f.label, "色を選択");
    let opts = f.options.as_ref().expect("options expected");
    assert_eq!(opts.len(), 2);
    assert_eq!(opts[0].value, "赤");
    assert_eq!(opts[0].label, "赤");
    assert_eq!(opts[1].value, "青");
    assert!(f.processed.validators.is_none());
    assert!(f.processed.placeholder.is_none());
    assert!(f.processed.options_caption.is_none());
    assert!(f.processed.price_max.is_none());
    assert!(f.processed.visible.is_none());
}

#[test]
fn test_text() {
    let grid = vec![
        vec![t("表示"), t("表示(任意)")],
        vec![t("タイプ"), t("テキスト一行")],
        vec![t("ラベル"), t("氏名")],
        vec![t("最小"), t("5")],
        vec![t("最大"), CellValue::Int(5)],
        vec![t("プレースホルダ"), t("山田太郎"), e()],
    ];
    let page = must_parse(&grid);
    assert_eq!(page.elements.len(), 1);
    let f = &page.elements[0];
    assert!(!f.is_required);
    assert!(matches!(f.variant, FieldVariant::Text));
    assert_eq!(f.min, Some(5));
    assert_eq!(f.max, Some(5));
    assert_eq!(f.processed.placeholder.as_deref(), Some("山田太郎"));
    assert!(f.processed.options_caption.is_none());
    let vs = f.processed.validators.as_ref().expect("validators expected");
    assert_eq!(vs.len(), 1);
    assert!(matches!(vs[0].validator_type, ValidatorType::Text));
    assert_eq!(vs[0].text, "5文字で入力してください");
    assert_eq!(vs[0].min_length, Some(5));
    assert_eq!(vs[0].max_length, Some(5));
    assert!(vs[0].expression.is_none());
}

#[test]
fn test_textarea() {
    let grid = vec![
        vec![t("表示"), t("表示(必須)")],
        vec![t("タイプ"), t("テキストエリア")],
        vec![t("ラベル"), t("自己紹介")],
        vec![t("最小"), t("10")],
        vec![t("最大"), CellValue::Float { repr: "2000.5".to_string(), whole: 2000 }],
    ];
    let page = must_parse(&grid);
    let f = &page.elements[0];
    assert!(matches!(f.variant, FieldVariant::TextArea));
    assert_eq!(f.min, Some(10));
    assert_eq!(f.max, Some(2000));
    // max is routed to the price ceiling, never to a max-length rule
    assert_eq!(f.processed.price_max, Some(2000));
    let vs = f.processed.validators.as_ref().expect("validators expected");
    assert_eq!(vs.len(), 1);
    assert!(matches!(vs[0].validator_type, ValidatorType::Text));
    assert_eq!(vs[0].text, "10文字以上で入力してください");
    assert_eq!(vs[0].min_length, Some(10));
    assert_eq!(vs[0].max_length, None);
}

#[test]
fn test_multiselect() {
    let grid = vec![
        vec![t("表示"), t("表示(必須)")],
        vec![t("タイプ"), t("マルチセレクト")],
        vec![t("ラベル"), t("話せる言語")],
        vec![t("最小"), t("1")],
        vec![t("最大"), t("3")],
        vec![t("プレースホルダ"), t("なし"), e()],
        vec![t("プルダウン1"), t("日本語"), e()],
        vec![t("プルダウン2"), t("英語"), e()],
        vec![t("プルダウン3"), t("なし"), e()],
    ];
    let page = must_parse(&grid);
    let f = &page.elements[0];
    assert!(matches!(f.variant, FieldVariant::Multiselect));
    let vs = f.processed.validators.as_ref().expect("validators expected");
    assert_eq!(vs.len(), 2);
    assert!(matches!(vs[0].validator_type, ValidatorType::AnswerCount));
    assert_eq!(vs[0].text, "選択肢は1個以上3以下");
    assert_eq!(vs[0].min_length, Some(1));
    assert_eq!(vs[0].max_length, Some(3));
    assert!(matches!(vs[1].validator_type, ValidatorType::Expression));
    assert_eq!(vs[1].text, "[なし]が選択されています。");
    assert_eq!(
        vs[1].expression.as_deref(),
        Some(
            "${field1} && (${field1}.includes('なし') && ${field1}.length === 1) || !${field1}.includes('なし')"
        )
    );
    // a multiselect placeholder is exception data, not a rendered placeholder
    assert!(f.processed.placeholder.is_none());
    assert!(f.processed.options_caption.is_none());
}

#[test]
fn test_radio() {
    let grid = vec![
        vec![t("表示"), t("表示(任意)")],
        vec![t("タイプ"), t("ラジオボタン")],
        vec![t("ラベル"), t("性別")],
        vec![t("プルダウン1"), t("男性"), e()],
        vec![t("プルダウン2"), t("女性"), e()],
    ];
    let page = must_parse(&grid);
    let f = &page.elements[0];
    assert!(matches!(f.variant, FieldVariant::Radio));
    assert!(f.processed.validators.is_none());
    let opts = f.options.as_ref().expect("options expected");
    assert_eq!(opts.len(), 2);
}

#[test]
fn empty_required_at_fifth_block_keeps_four_fields() {
    // columns: field1 -> 1, field2 -> 3, field3 -> 5, field4 -> 7, field5 -> 9
    let grid = vec![
        vec![
            t("表示"),
            t("表示(必須)"),
            e(),
            t("表示(任意)"),
            e(),
            t("表示(必須)"),
            e(),
            t("表示(必須)"),
            e(),
            e(),
        ],
        vec![
            t("タイプ"),
            t("テキスト一行"),
            e(),
            t("テキスト一行"),
            e(),
            t("テキスト一行"),
            e(),
            t("テキスト一行"),
            e(),
            e(),
        ],
        vec![t("ラベル"), t("Q1"), e(), t("Q2"), e(), t("Q3"), e(), t("Q4"), e(), e()],
    ];
    let page = must_parse(&grid);
    assert_eq!(page.elements.len(), 4);
    let names: Vec<&str> = page.elements.iter().map(|f| f.field_name.as_str()).collect();
    assert_eq!(names, vec!["field1", "field2", "field3", "field4"]);
    let labels: Vec<&str> = page.elements.iter().map(|f| f.label.as_str()).collect();
    assert_eq!(labels, vec!["Q1", "Q2", "Q3", "Q4"]);
    let required: Vec<bool> = page.elements.iter().map(|f| f.is_required).collect();
    assert_eq!(required, vec![true, false, true, true]);
}

#[test]
fn empty_required_at_first_block_keeps_no_fields() {
    let grid = vec![vec![t("表示"), e()], vec![t("ラベル"), t("Q1")]];
    let page = must_parse(&grid);
    assert_eq!(page.elements.len(), 0);
}

#[test]
fn grid_without_required_rows_runs_to_the_field_cap() {
    let grid: Vec<Vec<CellValue>> = vec![];
    let page = must_parse(&grid);
    assert_eq!(page.elements.len(), 99);
    assert_eq!(page.elements[0].field_name, "field1");
    assert_eq!(page.elements[98].field_name, "field99");
    for f in page.elements.iter() {
        assert!(matches!(f.variant, FieldVariant::Text));
        assert!(!f.is_required);
        assert_eq!(f.label, "");
        assert!(f.processed.validators.is_none());
    }
}

#[test]
fn unrecognized_row_label_is_fatal() {
    let grid = vec![vec![t("表示"), t("表示(必須)")], vec![t("賞味期限"), t("x")]];
    match parse(&grid) {
        Err(ConvertError::IncorrectSubject(s)) => assert_eq!(s, "賞味期限"),
        other => panic!("expected IncorrectSubject, got {:?}", other),
    }
}

#[test]
fn non_string_first_cell_skips_the_row() {
    let grid = vec![
        vec![CellValue::Int(7), t("何でも")],
        vec![t("表示"), t("表示(必須)")],
        vec![t("ラベル"), t("Q1")],
    ];
    let page = must_parse(&grid);
    assert_eq!(page.elements.len(), 1);
    assert_eq!(page.elements[0].label, "Q1");
}

#[test]
fn exhausted_options_end_the_row_scan_of_the_block() {
    // The empty options cell ends this field's row scan: the later minimum
    // row is no longer read.
    let grid = vec![
        vec![t("表示"), t("表示(必須)")],
        vec![t("タイプ"), t("ラジオボタン")],
        vec![t("プルダウン1"), t("はい"), e()],
        vec![t("プルダウン2"), e(), e()],
        vec![t("最小"), t("2")],
    ];
    let page = must_parse(&grid);
    let f = &page.elements[0];
    assert_eq!(f.options.as_ref().unwrap().len(), 1);
    assert_eq!(f.min, None);
}

#[test]
fn extraction_is_deterministic() {
    let grid = vec![
        vec![t("表示"), t("表示(必須)")],
        vec![t("タイプ"), t("マルチセレクト")],
        vec![t("ラベル"), t("Q")],
        vec![t("最小"), t("1")],
        vec![t("プルダウン1"), t("A"), e()],
    ];
    let p1 = must_parse(&grid);
    let p2 = must_parse(&grid);
    assert_eq!(p1.elements.len(), p2.elements.len());
    for (a, b) in p1.elements.iter().zip(p2.elements.iter()) {
        assert_eq!(a.field_name, b.field_name);
        assert_eq!(a.is_required, b.is_required);
        assert_eq!(a.label, b.label);
        assert_eq!(a.min, b.min);
        assert_eq!(a.max, b.max);
        let va = a.processed.validators.as_ref().unwrap();
        let vb = b.processed.validators.as_ref().unwrap();
        assert_eq!(va.len(), vb.len());
        for (x, y) in va.iter().zip(vb.iter()) {
            assert_eq!(x.text, y.text);
            assert_eq!(x.expression, y.expression);
            assert_eq!(x.min_length, y.min_length);
            assert_eq!(x.max_length, y.max_length);
        }
    }
}

#[test]
fn back_reference_wires_options_from_key() {
    let grid = vec![
        vec![t("表示"), t("表示(必須)"), e()],
        vec![t("タイプ"), t("プルダウン"), e()],
        vec![t("ラベル"), t("市区町村"), e()],
        vec![t("プレースホルダ"), t("無視される"), t("field2")],
        vec![t("プルダウン1"), t("幻の選択肢"), e()],
    ];
    let page = must_parse(&grid);
    assert_eq!(page.elements.len(), 1);
    let f = &page.elements[0];
    assert_eq!(f.options_from_key.as_deref(), Some("field2"));
    // never both a placeholder and a back-reference
    assert!(f.placeholder_text.is_none());
    assert!(f.options.is_none());
    assert!(f.processed.placeholder.is_none());
    assert!(f.processed.options_caption.is_none());
    assert_eq!(
        f.processed.visible.as_deref(),
        Some("${field2} && ${field2}.length > 1")
    );
}

#[test]
fn back_reference_from_integer_companion_cell() {
    let grid = vec![
        vec![t("表示"), t("表示(任意)"), e()],
        vec![t("タイプ"), t("プルダウン"), e()],
        vec![t("プレースホルダ"), e(), CellValue::Int(7)],
    ];
    let page = must_parse(&grid);
    let f = &page.elements[0];
    assert_eq!(f.options_from_key.as_deref(), Some("field7"));
}

#[test]
fn dropdown_placeholder_becomes_options_caption() {
    let grid = vec![
        vec![t("表示"), t("表示(任意)"), e()],
        vec![t("タイプ"), t("プルダウン"), e()],
        vec![t("プレースホルダ"), t("選択してください"), t("そのまま")],
    ];
    let page = must_parse(&grid);
    let f = &page.elements[0];
    assert!(f.options_from_key.is_none());
    assert_eq!(f.processed.options_caption.as_deref(), Some("選択してください"));
    assert!(f.processed.placeholder.is_none());
}
