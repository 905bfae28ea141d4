use spef_parser::number::{is_number_text, scan_literal};
use spef_parser::spef_data::SpefFloatValue;
use spef_parser::text::{chars_of, same_text, string_of, strip_sentinels};

#[test]
fn literals_are_those_that_parse_as_floats() {
    let samples = [
        "", "0", "1", "-1", "+1", "1.", ".1", ".", "1e5", "1E5", "1e", "1e+", "1e+5", "1e-5", "e5",
        "inf", "INF", "Inf", "iNf", "infinity", "Infinity", "INFINITY", "infinit", "infinityy",
        "nan", "NaN", "NAN", "-nan", "+inf", "-infinity", "na", "in", "n", "i", "+", "-", "1.5.2",
        "1,5", " 1", "1 ", "\t1", "1\n", "0x10", "1_0", "1f", "1e5.0", "--1", "+-1", "1e--5",
        "1e+-5", ".e5", "1.e5", ".5e5", ".5e", "1e05", "007", "1.7460", "633.84", "0.242",
        "0.000520945", "1e400", "1e-400", "123456789012345678901234567890", "1.e", "1..", "..1",
        "e", "E", "1ee5", "1e5e5", "1.5e+10", "1.5E-10", "5.", "+.5", "-.5", "+.", "-e5",
        "\u{661}", "1\u{661}", "nan1", "1nan", "infe5", "inf.", "+nan", "++1", "1+", "1-1",
        "1.0.", "1e5.", "0e0", "00", "0.0", "-0", "-0.0", "i nf", "1 e5", "١٢٣", "1e٥",
        "infinitY", "iNfInItY", "ınf", "İnf", "nAn", "1E+05", "1d5", "1L", "0b1", "1.5f",
    ];
    for text in samples {
        assert_eq!(is_number_text(text), text.parse::<f64>().is_ok(), "literal {:?}", text);
        assert_eq!(SpefFloatValue::from_literal(text).is_some(), text.parse::<f64>().is_ok());
        assert_eq!(scan_literal(&text.chars().collect()), text.parse::<f64>().is_ok());
    }
}

#[test]
fn a_value_keeps_its_literal() {
    let value = SpefFloatValue::from_literal("1.7460").unwrap();
    assert_eq!(value.literal(), "1.7460");
    assert_eq!(value.literal().parse::<f64>().unwrap(), 1.7460);
    assert!(value.is_float());
    assert_eq!(value.clone(), value);
    assert!(SpefFloatValue::from_literal("*1.7460").is_none());
    assert!(SpefFloatValue::from_literal("").is_none());
    assert!(SpefFloatValue::from_literal("1e").is_none());
}

#[test]
fn zero_is_the_literal_zero() {
    let zero = SpefFloatValue::zero();
    assert_eq!(zero.literal(), "0");
    assert_eq!(zero.literal().parse::<f64>().unwrap(), 0.0);
}

#[test]
fn sentinels_are_stripped_wherever_they_stand() {
    assert_eq!(strip_sentinels("*1.7460"), "1.7460");
    assert_eq!(strip_sentinels("1.7460"), "1.7460");
    assert_eq!(strip_sentinels("**1*.*7**"), "1.7");
    assert_eq!(strip_sentinels("***"), "");
    assert_eq!(strip_sentinels(""), "");
    assert_eq!(strip_sentinels("a*b*c"), "abc");
    assert_eq!(strip_sentinels("naïve*é"), "naïveé");
}

#[test]
fn texts_and_their_characters() {
    assert_eq!(chars_of("a*é"), vec!['a', '*', 'é']);
    assert_eq!(chars_of(""), Vec::<char>::new());
    assert_eq!(string_of(&vec!['a', '*', 'é']), "a*é");
    assert_eq!(string_of(&Vec::new()), "");
    assert!(same_text("I", "I"));
    assert!(!same_text("I", "i"));
    assert!(!same_text("I", "II"));
    assert!(!same_text("", "I"));
    assert!(same_text("", ""));
}
