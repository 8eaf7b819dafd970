use leafy::encode::AttributeValue;
use leafy::{
    bool_text, count_text, encode_bool, encode_int, encode_required, encode_text, int_text,
};

#[test]
fn int_text_is_decimal() {
    assert_eq!(int_text(0), "0");
    assert_eq!(int_text(7), "7");
    assert_eq!(int_text(10), "10");
    assert_eq!(int_text(12), "12");
    assert_eq!(int_text(-1), "-1");
    assert_eq!(int_text(-305), "-305");
    assert_eq!(int_text(1_000_000), "1000000");
}

#[test]
fn int_text_at_the_limits() {
    assert_eq!(int_text(i32::MAX), "2147483647");
    assert_eq!(int_text(i32::MIN), "-2147483648");
}

#[test]
fn int_text_agrees_with_display() {
    let samples: [i32; 12] = [0, 1, -1, 9, 10, 11, 99, 100, -100, 65_535, i32::MAX, i32::MIN];
    for n in samples {
        assert_eq!(int_text(n), format!("{}", n));
    }
}

#[test]
fn count_text_is_decimal() {
    assert_eq!(count_text(0), "0");
    assert_eq!(count_text(5), "5");
    assert_eq!(count_text(250), "250");
    assert_eq!(count_text(u32::MAX), "4294967295");
}

#[test]
fn count_text_agrees_with_display() {
    let samples: [u32; 8] = [0, 9, 10, 19, 101, 1_000, 4_000_000_000, u32::MAX];
    for n in samples {
        assert_eq!(count_text(n), format!("{}", n));
    }
}

#[test]
fn bool_text_names_the_flag() {
    assert_eq!(bool_text(true), "true");
    assert_eq!(bool_text(false), "false");
}

#[test]
fn encode_bool_keeps_false_apart_from_absent() {
    assert_eq!(encode_bool(None), None);
    assert_eq!(encode_bool(Some(false)), Some("false".to_string()));
    assert_eq!(encode_bool(Some(true)), Some("true".to_string()));
}

#[test]
fn encode_int_omits_absent() {
    assert_eq!(encode_int(None), None);
    assert_eq!(encode_int(Some(0)), Some("0".to_string()));
    assert_eq!(encode_int(Some(-42)), Some("-42".to_string()));
    assert_eq!(encode_int(Some(13)), Some("13".to_string()));
}

#[test]
fn encode_text_keeps_the_text() {
    assert_eq!(encode_text(&None), None);
    assert_eq!(encode_text(&Some("#3388ff".to_string())), Some("#3388ff".to_string()));
    assert_eq!(encode_text(&Some(String::new())), Some(String::new()));
    assert_eq!(encode_text(&Some("5, 10".to_string())), Some("5, 10".to_string()));
}

#[test]
fn encode_required_keeps_the_text() {
    assert_eq!(encode_required("59.91"), Some("59.91".to_string()));
    assert_eq!(encode_required(""), Some(String::new()));
    assert_eq!(
        encode_required("{\"type\": \"Feature\"}"),
        Some("{\"type\": \"Feature\"}".to_string())
    );
}

#[test]
fn attribute_value_into_text() {
    assert_eq!(AttributeValue::Ignored.into_text(), None);
    assert_eq!(AttributeValue::Bare.into_text(), Some(String::new()));
    assert_eq!(AttributeValue::Text("blue".to_string()).into_text(), Some("blue".to_string()));
}
