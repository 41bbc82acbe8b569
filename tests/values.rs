use xmlgenerator::values::{generate, generate_regex, generate_type, same_text};
use xmlgenerator::FloatSource;

struct FixedFloats;

impl FloatSource for FixedFloats {
    fn decimal_text(&mut self) -> String {
        "1.5".to_string()
    }

    fn double_text(&mut self) -> String {
        "2.25".to_string()
    }
}

#[test]
fn integer_values_parse_as_i32() {
    for _ in 0..20 {
        let v = generate_type(&"integer".to_string(), &mut FixedFloats).unwrap();
        assert!(v.parse::<i32>().is_ok(), "not an i32: {}", v);
    }
}

#[test]
fn positive_integer_values_parse_as_u32() {
    for _ in 0..20 {
        let v = generate_type(&"positiveInteger".to_string(), &mut FixedFloats).unwrap();
        assert!(v.parse::<u32>().is_ok(), "not a u32: {}", v);
    }
}

#[test]
fn boolean_values_are_true_or_false() {
    for _ in 0..20 {
        let v = generate_type(&"boolean".to_string(), &mut FixedFloats).unwrap();
        assert!(v == "true" || v == "false");
    }
}

#[test]
fn float_bases_come_from_the_source() {
    assert_eq!(generate_type(&"decimal".to_string(), &mut FixedFloats).unwrap(), "1.5");
    assert_eq!(generate_type(&"double".to_string(), &mut FixedFloats).unwrap(), "2.25");
    assert!(generate_type(&"string".to_string(), &mut FixedFloats).is_some());
}

#[test]
fn unknown_base_has_no_value() {
    assert!(generate_type(&"date".to_string(), &mut FixedFloats).is_none());
    assert!(generate(&vec![], &mut FixedFloats).is_none());
    let three = vec!["string".to_string(), "a".to_string(), "b".to_string()];
    assert!(generate(&three, &mut FixedFloats).is_none());
}

#[test]
fn pattern_base_is_matched_in_any_case() {
    let v = generate_regex(&"STRING".to_string(), &"[0-9]{4}".to_string()).unwrap();
    assert_eq!(v.len(), 4);
    assert!(v.chars().all(|c| c.is_ascii_digit()));
    assert!(generate_regex(&"integer".to_string(), &"[0-9]{4}".to_string()).is_none());
}

#[test]
fn pattern_sample_is_the_same_each_time() {
    let chain = vec!["string".to_string(), "[a-z]{5}".to_string()];
    let first = generate(&chain, &mut FixedFloats).unwrap();
    let second = generate(&chain, &mut FixedFloats).unwrap();
    assert_eq!(first, second);
    assert_eq!(first.len(), 5);
}

#[test]
fn invalid_pattern_has_no_value() {
    let chain = vec!["string".to_string(), "(".to_string()];
    assert!(generate(&chain, &mut FixedFloats).is_none());
}

#[test]
fn text_comparison_is_exact() {
    assert!(same_text(&"boolean".to_string(), "boolean"));
    assert!(!same_text(&"Boolean".to_string(), "boolean"));
}

use xmlgenerator::values::pattern_is_safe;

#[test]
fn overflowing_repetitions_are_refused() {
    assert!(!pattern_is_safe(&"a{4294967295,}".to_string()));
    assert!(!pattern_is_safe(&"([ab]{65536}){65536}".to_string()));
    assert!(generate_regex(&"string".to_string(), &"a{4294967295,}".to_string()).is_none());
    assert!(generate_regex(&"string".to_string(), &"([ab]{65536}){65536}".to_string()).is_none());
    assert!(pattern_is_safe(&"[A-Z]{3}".to_string()));
    assert!(pattern_is_safe(&"\\d{3}-\\d{4}".to_string()));
}

#[test]
fn string_values_are_alphanumeric() {
    for _ in 0..20 {
        let v = generate_type(&"string".to_string(), &mut FixedFloats).unwrap();
        assert!(v.len() >= 5 && v.len() < 20);
        assert!(v.chars().all(|c| c.is_ascii_alphanumeric()));
    }
}

#[test]
fn long_counts_and_uuid_patterns_are_sampled() {
    let uuid = "[0-9a-f]{8}-[0-9a-f]{4}-[0-9a-f]{4}-[0-9a-f]{4}-[0-9a-f]{12}".to_string();
    assert!(pattern_is_safe(&uuid));
    let v = generate_regex(&"string".to_string(), &uuid).unwrap();
    assert_eq!(v.len(), 36);
    assert_eq!(v.matches('-').count(), 4);
    let long = generate(&vec!["string".to_string(), "a{111111}".to_string()], &mut FixedFloats).unwrap();
    assert_eq!(long.len(), 111111);
    assert!(long.chars().all(|c| c == 'a'));
}
