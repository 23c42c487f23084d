use psoid::get_guild;
use psoid::get_guild_for_name;
use psoid::get_section_id;
use psoid::DropRates;

#[test]
fn test_get_guild_bluefull() {
    let guild = get_guild(3).unwrap();
    assert_eq!(guild.name, "Bluefull");
    assert_eq!(guild.section_id, 3);
    assert_eq!(guild.best_class, "Hunter");
    assert_eq!(guild.common_drop, ("Partisans", 13));
    assert_eq!(guild.rare_drop, ("Wands", 1));
}

#[test]
fn test_get_guild_pinkal() {
    let guild = get_guild(5).unwrap();
    assert_eq!(guild.name, "Pinkal");
    assert_eq!(guild.section_id, 5);
    assert_eq!(guild.best_class, "Force");
    assert_eq!(guild.common_drop, ("Wands", 13));
    assert_eq!(guild.rare_drop, ("Rifles", 1));
}

#[test]
fn test_get_guild_invalid_section_id() {
    let result = get_guild(10);
    assert!(result.is_none());
}

#[test]
fn test_get_guild_for_name_foobar() {
    let guild = get_guild_for_name("foobar").unwrap();
    assert_eq!(guild.name, "Bluefull");
    assert_eq!(guild.section_id, 3);
}

#[test]
fn test_get_guild_for_name_foo_bar() {
    let guild = get_guild_for_name("foo bar").unwrap();
    assert_eq!(guild.name, "Pinkal");
    assert_eq!(guild.section_id, 5);
}

#[test]
fn test_drop_rates_viridia() {
    let rates = DropRates::for_section_id(0).unwrap();
    assert_eq!(rates.partisans, 10);
    assert_eq!(rates.slicers, 1);
    assert_eq!(rates.shotguns, 11);
}

#[test]
fn test_drop_rates_bluefull() {
    let rates = DropRates::for_section_id(3).unwrap();
    assert_eq!(rates.partisans, 13);
    assert_eq!(rates.rods, 10);
    assert_eq!(rates.wands, 1);
}

#[test]
fn test_drop_rates_invalid_section_id() {
    let result = DropRates::for_section_id(10);
    assert!(result.is_none());
}

#[test]
fn test_all_sections_accessible() {
    for i in 0..10 {
        let section = get_section_id(i);
        assert!(section.is_some(), "Section ID {} should exist", i);
    }
}

#[test]
fn test_all_drop_rates_accessible() {
    for i in 0..10 {
        let section = get_section_id(i).unwrap();
        let rates = section.drop_rates();
        // All drop rates should be positive for valid sections
        assert!(rates.sabers > 0, "Sabers should be > 0 for section {}", i);
    }
}
