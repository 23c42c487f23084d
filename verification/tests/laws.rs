use psoid::calculate;
use psoid::calculate_section_id;
use psoid::char_value;
use psoid::get_section_id;
use psoid::modern_section_id;
use psoid::validate_name;
use psoid::CharacterClass;
use psoid::Dialect;
use psoid::SectionID;
use psoid::SectionIdError;

#[test]
fn test_legacy_digit_is_byte_sum_mod_ten() {
    for name in ["foobar", "foo bar", "A", "abcdefghijkl", "PSO Lover"] {
        let digit = calculate_section_id(name).unwrap();
        assert!(digit < 10);
        let byte_sum: u32 = name.bytes().map(u32::from).sum();
        assert_eq!(digit, byte_sum % 10);
    }
}

#[test]
fn test_modern_digit_is_substitution_sum_mod_ten() {
    let name = "PSO Lover";
    let offset = CharacterClass::RAcast.offset();
    let digit = modern_section_id(name, Some(CharacterClass::RAcast)).unwrap();
    assert!(digit < 10);
    let weight_sum: u32 = name.chars().map(|c| char_value(c).unwrap()).sum();
    assert_eq!(digit, (weight_sum + offset) % 10);
}

#[test]
fn test_guild_names_distinct() {
    let names: Vec<&str> = (0..10)
        .map(|key| get_section_id(key).unwrap().name)
        .collect();
    for i in 0..names.len() {
        for j in 0..names.len() {
            if i != j {
                assert_ne!(names[i], names[j]);
            }
        }
    }
}

#[test]
fn test_lookup_total_over_digits() {
    for key in 0..10 {
        let record = get_section_id(key).unwrap();
        assert_eq!(record.id, key);
    }
    assert!(get_section_id(10).is_none());
    assert!(get_section_id(u32::MAX).is_none());
}

#[test]
fn test_calculate_is_idempotent() {
    let first = calculate("foobar").unwrap();
    let second = calculate("foobar").unwrap();
    assert_eq!(first, second);
    let first_err = calculate("").unwrap_err();
    let second_err = calculate("").unwrap_err();
    assert_eq!(first_err, second_err);
}

#[test]
fn test_twelve_characters_is_accepted() {
    // Sum of the codes 97..=108 is 1230, so the digit is 0.
    let record = calculate("abcdefghijkl").unwrap();
    assert_eq!(record.id, 0);
    assert_eq!(record.name, "Viridia");
}

#[test]
fn test_thirteen_characters_is_rejected() {
    let result = calculate("abcdefghijklm");
    assert_eq!(result.unwrap_err(), SectionIdError::NameTooLong);
}

#[test]
fn test_summary_exact_text() {
    let record = calculate("foobar").unwrap();
    assert_eq!(
        record.summary(),
        "Guild: Bluefull, Class: Hunter, Common: Partisans (13%), Rare: Wands (1%), MAG: B"
    );
}

#[test]
fn test_mag_type_bands() {
    // Canonical MAG types follow the index bands: 0-2 A, 3-5 B, 6-8 C, 9 D.
    let expected = ["A", "A", "A", "B", "B", "B", "C", "C", "C", "D"];
    for key in 0..10u32 {
        assert_eq!(get_section_id(key).unwrap().mag_type, expected[key as usize]);
    }
}

#[test]
fn test_validate_name_by_dialect() {
    assert!(validate_name("foobar", Dialect::Legacy).is_ok());
    assert!(validate_name("foobar", Dialect::Modern).is_ok());
    // The ASCII rule binds only the legacy dialect.
    let accented = "caf\u{c3}\u{a9}";
    assert_eq!(
        validate_name(accented, Dialect::Legacy).unwrap_err(),
        SectionIdError::NonAsciiCharacter
    );
    assert!(validate_name(accented, Dialect::Modern).is_ok());
    assert_eq!(
        validate_name("", Dialect::Modern).unwrap_err(),
        SectionIdError::EmptyName
    );
    assert_eq!(
        validate_name("abcdefghijklm", Dialect::Modern).unwrap_err(),
        SectionIdError::NameTooLong
    );
}

#[test]
fn test_accented_name_by_dialect() {
    // An accented character is outside ASCII, so the legacy dialect
    // rejects it; the modern dialect rejects it for want of a
    // substitution entry, naming the character.
    let result = calculate("caf\u{e9}");
    assert_eq!(result.unwrap_err(), SectionIdError::NonAsciiCharacter);
    let modern = modern_section_id("caf\u{e9}", None);
    assert_eq!(
        modern.unwrap_err(),
        SectionIdError::UnsupportedCharacter('\u{e9}')
    );
}

#[test]
fn test_error_messages() {
    assert_eq!(SectionIdError::EmptyName.message(), "Name cannot be empty");
    assert_eq!(
        SectionIdError::NameTooLong.message(),
        "Name must be at most 12 characters long"
    );
    assert_eq!(
        SectionIdError::NonAsciiCharacter.message(),
        "Name must contain only ASCII characters"
    );
    assert_eq!(
        SectionIdError::UnsupportedCharacter('@').message(),
        "Name contains an unsupported character"
    );
    assert_eq!(
        SectionIdError::MissingClass.message(),
        "A character class is required for the modern dialect"
    );
    assert_eq!(
        SectionIdError::InvalidKey(10).message(),
        "Invalid section ID: 10"
    );
    assert_eq!(
        SectionIdError::InvalidKey(0).message(),
        "Invalid section ID: 0"
    );
}

#[test]
fn test_drop_rates_zero_for_hand_built_record() {
    // A hand-built record with a key outside 0-9 draws the all-zero table.
    let bogus = SectionID {
        id: 10,
        name: "Nowhere",
        best_class: "Hunter",
        common_drop: ("Sabers", 1),
        rare_drop: ("Sabers", 1),
        mag_type: "A",
    };
    let rates = bogus.drop_rates();
    assert_eq!(rates.sabers, 0);
    assert_eq!(rates.wands, 0);
}
