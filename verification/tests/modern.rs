use psoid::calculate_with;
use psoid::char_value;
use psoid::modern_section_id;
use psoid::CharacterClass;
use psoid::Dialect;
use psoid::SectionIdError;

#[test]
fn test_modern_scenario_ramar() {
    let record = calculate_with("PSO Lover", Dialect::Modern, Some(CharacterClass::RAmar)).unwrap();
    assert_eq!(record.id, 2);
    assert_eq!(record.name, "Skyly");
}

#[test]
fn test_modern_scenario_fonewearl() {
    let record =
        calculate_with("PSO Lover", Dialect::Modern, Some(CharacterClass::FOnewearl)).unwrap();
    assert_eq!(record.id, 7);
    assert_eq!(record.name, "Oran");
}

#[test]
fn test_modern_missing_class() {
    let result = calculate_with("PSO Lover", Dialect::Modern, None);
    assert_eq!(result.unwrap_err(), SectionIdError::MissingClass);
}

#[test]
fn test_modern_class_is_additive() {
    // Without a class the offset contributes zero.
    let base = modern_section_id("PSO Lover", None).unwrap();
    assert_eq!(base, 4);
    let with_class = modern_section_id("PSO Lover", Some(CharacterClass::RAmar)).unwrap();
    assert_eq!(with_class, (base + 8) % 10);
}

#[test]
fn test_modern_unsupported_character() {
    let result = modern_section_id("foo@bar", None);
    assert_eq!(result.unwrap_err(), SectionIdError::UnsupportedCharacter('@'));
    let message = modern_section_id("foo@bar", None).unwrap_err().message();
    assert_eq!(message, "Name contains an unsupported character");
}

#[test]
fn test_modern_accepts_punctuation() {
    // '!' has code 33, so it contributes 3; non-ASCII stays unsupported.
    assert!(modern_section_id("Hi there!", None).is_ok());
    assert!(modern_section_id("caf\u{c3}\u{a9}", None).is_err());
}

#[test]
fn test_modern_empty_name() {
    let result = modern_section_id("", None);
    assert_eq!(result.unwrap_err(), SectionIdError::EmptyName);
}

#[test]
fn test_modern_too_long() {
    let result = modern_section_id("abcdefghijklm", None);
    assert_eq!(result.unwrap_err(), SectionIdError::NameTooLong);
}

#[test]
fn test_calculate_with_legacy_matches_calculate() {
    let record = calculate_with("foobar", Dialect::Legacy, None).unwrap();
    assert_eq!(record.id, 3);
    assert_eq!(record.name, "Bluefull");
}

#[test]
fn test_char_value_table() {
    // The value of a supported character is the low decimal digit of its
    // code point.
    assert_eq!(char_value('A'), Some(5));
    assert_eq!(char_value('z'), Some(2));
    assert_eq!(char_value('0'), Some(8));
    assert_eq!(char_value(' '), Some(2));
    assert_eq!(char_value('!'), Some(3));
    assert_eq!(char_value('@'), None);
    assert_eq!(char_value('\u{e9}'), None);
}

#[test]
fn test_class_offsets() {
    assert_eq!(CharacterClass::HUmar.offset(), 0);
    assert_eq!(CharacterClass::RAmar.offset(), 8);
    assert_eq!(CharacterClass::FOnewearl.offset(), 3);
}
