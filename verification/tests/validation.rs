use settings_manager::models::{Setting, SettingValueType};
use settings_manager::numeric::{is_valid_integer, is_valid_float, u64_to_string};

fn setting_of(value_type: SettingValueType) -> Setting {
    Setting {
        name: "k".to_string(),
        section: "S".to_string(),
        description: String::new(),
        value_type,
        current_value: "0".to_string(),
        default_value: "0".to_string(),
        min_value: None,
        max_value: None,
        impact: "Performance".to_string(),
    }
}

#[test]
fn boolean_validator_accepts_the_four_literals() {
    let s = setting_of(SettingValueType::Boolean);
    assert!(s.is_valid_value("0"));
    assert!(s.is_valid_value("1"));
    assert!(s.is_valid_value("True"));
    assert!(s.is_valid_value("False"));
}

#[test]
fn boolean_validator_rejects_other_spellings() {
    let s = setting_of(SettingValueType::Boolean);
    assert!(!s.is_valid_value("yes"));
    assert!(!s.is_valid_value("2"));
    assert!(!s.is_valid_value("true"));
    assert!(!s.is_valid_value("false"));
    assert!(!s.is_valid_value(""));
}

#[test]
fn integer_validator_matches_i64_parsing() {
    for v in [
        "0", "1", "-1", "+42", "4096", "9223372036854775807", "-9223372036854775808", "007",
    ] {
        assert_eq!(is_valid_integer(v), v.parse::<i64>().is_ok(), "case {v}");
    }
    for v in [
        "", "+", "-", "1.5", "9223372036854775808", "-9223372036854775809", "1e3", " 1", "1 ",
        "abc", "0x10",
    ] {
        assert_eq!(is_valid_integer(v), v.parse::<i64>().is_ok(), "case {v}");
    }
}

#[test]
fn float_validator_matches_f64_parsing() {
    for v in [
        "0", "0.3", "-0.3", "+1.0", ".5", "5.", "1e5", "2.5E-10", "1E+3", "inf", "-inf",
        "+infinity", "NaN", "nan", "INF", "0.0",
    ] {
        assert_eq!(is_valid_float(v), v.parse::<f64>().is_ok(), "case {v}");
    }
    for v in [
        "", ".", "+", "1e", "e5", "1e+", "1.2.3", "1,5", " 1.0", "1.0 ", "in", "infinit",
        "nanx", "--1", "1e5.5", "abc",
    ] {
        assert_eq!(is_valid_float(v), v.parse::<f64>().is_ok(), "case {v}");
    }
}

#[test]
fn integer_setting_validates_numbers_only() {
    let s = setting_of(SettingValueType::Integer);
    assert!(s.is_valid_value("12288"));
    assert!(s.is_valid_value("-3"));
    assert!(!s.is_valid_value("12288.5"));
    assert!(!s.is_valid_value("many"));
}

#[test]
fn float_setting_validates_float_literals() {
    let s = setting_of(SettingValueType::Float);
    assert!(s.is_valid_value("0.3"));
    assert!(s.is_valid_value("4"));
    assert!(!s.is_valid_value("fast"));
}

#[test]
fn string_setting_accepts_anything() {
    let s = setting_of(SettingValueType::String);
    assert!(s.is_valid_value(""));
    assert!(s.is_valid_value("Scriptwarning"));
}

#[test]
fn enumeration_requires_exact_option() {
    let s = setting_of(SettingValueType::Enum(vec![
        "True".to_string(),
        "False".to_string(),
    ]));
    assert!(s.is_valid_value("True"));
    assert!(s.is_valid_value("False"));
    assert!(!s.is_valid_value("true"));
    assert!(!s.is_valid_value("1"));
}

#[test]
fn every_catalog_default_is_valid_for_its_type() {
    let mut all: Vec<Setting> = Vec::new();
    all.extend(settings_manager::migrations::rendering_thread::unit_settings());
    all.extend(settings_manager::migrations::error_handling::unit_settings());
    all.extend(settings_manager::migrations::streaming_settings::unit_settings());
    all.extend(settings_manager::migrations::renderer_settings::unit_settings());
    all.extend(settings_manager::migrations::input_settings::unit_settings());
    all.extend(settings_manager::migrations::core_system::unit_settings());
    all.extend(settings_manager::migrations::texture_streaming::unit_settings());
    all.extend(settings_manager::migrations::engine::unit_settings());
    all.extend(settings_manager::migrations::shader_compiler::unit_settings());
    all.extend(settings_manager::migrations::garbage_collection::unit_settings());
    assert_eq!(all.len(), 37);
    for s in &all {
        let default = s.default_value.clone();
        assert!(
            s.is_valid_value(&default),
            "default {} of {}.{} must be valid",
            default,
            s.section,
            s.name
        );
    }
}

#[test]
fn decimal_rendering_matches_std() {
    for n in [0u64, 1, 9, 10, 99, 2048, 12288, 4096, u64::MAX] {
        assert_eq!(u64_to_string(n), n.to_string());
    }
}

#[test]
fn recognizers_agree_with_std_on_short_strings() {
    let alphabet = ['0', '9', '+', '-', '.', 'e', 'E', 'i', 'n', 'f', ' '];
    let mut cases: Vec<String> = vec![String::new()];
    for a in alphabet {
        cases.push(a.to_string());
        for b in alphabet {
            cases.push(format!("{a}{b}"));
            for c in alphabet {
                cases.push(format!("{a}{b}{c}"));
            }
        }
    }
    for s in &cases {
        assert_eq!(is_valid_integer(s), s.parse::<i64>().is_ok(), "integer case {s:?}");
        assert_eq!(is_valid_float(s), s.parse::<f64>().is_ok(), "float case {s:?}");
    }
}
