use cbl_build_parser::{parse, Class, ParseError};

fn lines(v: &[&str]) -> Vec<String> {
    let mut out = Vec::new();
    for s in v {
        out.push(s.to_string());
    }
    out
}

fn minimal_overview() -> Vec<String> {
    lines(&[
        "[Overview]",
        "Race: Human",
        "Alignment: Lawful Good",
        "MaxLevels: 1",
        "Class: Rogue",
    ])
}

#[test]
fn unknown_header() {
    let e = parse(&lines(&["[Wrong]"])).unwrap_err();
    assert!(matches!(e, ParseError::UnknownHeader(h) if h == "Wrong"));
}

#[test]
fn data_before_first_header() {
    let e = parse(&lines(&["Race: Human"])).unwrap_err();
    assert!(matches!(e, ParseError::DataBeforeFirstHeader));
}

#[test]
fn malformed_header_is_data_not_header() {
    // A bracketed line that is not `[Identifier]` is a data line; before
    // any header it is fatal.
    let e = parse(&lines(&["[not a header]"])).unwrap_err();
    assert!(matches!(e, ParseError::DataBeforeFirstHeader));
}

#[test]
fn unknown_race() {
    let e = parse(&lines(&["[Overview]", "Race: Drew"])).unwrap_err();
    assert!(matches!(e, ParseError::UnknownRace(t) if t == "Drew"));
}

#[test]
fn no_race() {
    let e = parse(&lines(&["[Overview]", "Alignment: Lawful Good", "Class: Rogue"])).unwrap_err();
    assert!(matches!(e, ParseError::NoRace));
}

#[test]
fn unknown_alignment() {
    let e = parse(&lines(&["[Overview]", "Alignment: Chaotic Evil"])).unwrap_err();
    assert!(matches!(e, ParseError::UnknownAlignment(t) if t == "Chaotic Evil"));
}

#[test]
fn no_alignment() {
    let e = parse(&lines(&["[Overview]", "Race: Human", "Class: Rogue"])).unwrap_err();
    assert!(matches!(e, ParseError::NoAlignment));
}

#[test]
fn wrong_level_number() {
    let e = parse(&lines(&[
        "[Overview]",
        "Race: Human",
        "Alignment: Lawful Good",
        "MaxLevels: 3",
        "Class: Rogue",
        "Class: Bard",
        "Level: 1 Rogue",
        "Level: 2 Bard",
    ]))
    .unwrap_err();
    assert!(matches!(e, ParseError::WrongLevelNumber(3, 2)));
}

#[test]
fn invalid_max_level() {
    let e = parse(&lines(&["[Overview]", "MaxLevels: 31"])).unwrap_err();
    assert!(matches!(e, ParseError::InvalidMaxLevel(31)));
    let e0 = parse(&lines(&["[Overview]", "MaxLevels: 00"])).unwrap_err();
    assert!(matches!(e0, ParseError::InvalidMaxLevel(0)));
}

#[test]
fn too_many_classes() {
    let e = parse(&lines(&[
        "[Overview]",
        "Class: Rogue",
        "Class: Bard",
        "Class: Fighter",
        "Class: Wizard",
    ]))
    .unwrap_err();
    assert!(matches!(e, ParseError::TooManyClasses));
}

#[test]
fn unknown_class() {
    let e = parse(&lines(&["[Overview]", "Class: Ninja"])).unwrap_err();
    assert!(matches!(e, ParseError::UnknownClass(t) if t == "Ninja"));
}

#[test]
fn invalid_level_num() {
    let e = parse(&lines(&["[Overview]", "Class: Rogue", "Level: 21 Rogue"])).unwrap_err();
    assert!(matches!(e, ParseError::InvalidLevelNum(21)));
}

#[test]
fn levels_out_of_order() {
    let e = parse(&lines(&["[Overview]", "Class: Rogue", "Level: 2 Rogue"])).unwrap_err();
    assert!(matches!(e, ParseError::LevelsOutOfOrder));
}

#[test]
fn undeclared_class() {
    let e = parse(&lines(&["[Overview]", "Class: Rogue", "Level: 1 Bard"])).unwrap_err();
    assert!(matches!(e, ParseError::UndeclaredClass(Class::Bard)));
}

#[test]
fn unknown_build_type() {
    let e = parse(&lines(&["[Overview]", "[Stats]", "Preferred: Novice"])).unwrap_err();
    assert!(matches!(e, ParseError::UnknownBuildType(t) if t == "Novice"));
}

#[test]
fn bad_levelup_level() {
    let e = parse(&lines(&["[Overview]", "[Stats]", "Levelup: 7 Strength"])).unwrap_err();
    assert!(matches!(e, ParseError::BadLevelupLevel(7)));
}

#[test]
fn unknown_ability() {
    let e = parse(&lines(&["[Overview]", "[Stats]", "Levelup: 4 Luck"])).unwrap_err();
    assert!(matches!(e, ParseError::UnknownAbility(t) if t == "Luck"));
}

#[test]
fn unknown_skill() {
    let line = format!("Zzzzzzz:{}", "    ".repeat(20));
    let e = parse(&lines(&["[Overview]", "[Skills]", &line])).unwrap_err();
    assert!(matches!(e, ParseError::UnknownSkill(t) if t == "Zzzzzzz"));
}

#[test]
fn unknown_base_feat_type() {
    let e = parse(&lines(&["[Overview]", "[Feats]", "Bonus: Heroic 3 Dodge"])).unwrap_err();
    assert!(matches!(e, ParseError::UnknownBaseFeatType(t) if t == "Bonus"));
}

#[test]
fn unknown_secondary_feat_type() {
    let e = parse(&lines(&["[Overview]", "[Feats]", "Standard: Mythic 3 Dodge"])).unwrap_err();
    assert!(matches!(e, ParseError::UnknownSecondaryFeatType(t) if t == "Mythic"));
}

#[test]
fn invalid_feat_level() {
    let e = parse(&lines(&["[Overview]", "[Feats]", "Standard: Heroic 31 Dodge"])).unwrap_err();
    assert!(matches!(e, ParseError::InvalidFeatLevel(31)));
}

#[test]
fn multiple_legend_feats() {
    let e = parse(&lines(&[
        "[Overview]",
        "[Feats]",
        "Legend: Legend 30 Scion of Arcanum",
        "Legend: Legend 30 Scion of the Feywild",
    ]))
    .unwrap_err();
    assert!(matches!(e, ParseError::MultipleLegendFeats));
}

#[test]
fn too_many_spellbooks() {
    let e = parse(&lines(&[
        "[Overview]",
        "[Spells]",
        "Spell: Wizard 1 Shield",
        "Spell: Cleric 1 Bless",
        "Spell: Bard 1 Focusing Chant",
        "Spell: Druid 1 Ram",
    ]))
    .unwrap_err();
    assert!(matches!(e, ParseError::TooManySpellbooks));
}

#[test]
fn unknown_enhancement_tree() {
    let e = parse(&lines(&["[Overview]", "[Enhancements]", "Tree: Chicken"])).unwrap_err();
    assert!(matches!(e, ParseError::UnknownEnhancementTree(t) if t == "Chicken"));
}

#[test]
fn wrong_enhancement_tree_type() {
    let e = parse(&lines(&[
        "[Overview]",
        "[Enhancements]",
        "Tree: Warchanter",
        "Type: Race",
    ]))
    .unwrap_err();
    assert!(matches!(e, ParseError::WrongEnhancementTreeType));
    // With no tree open at all, a type assertion also fails.
    let e2 = parse(&lines(&["[Overview]", "[Enhancements]", "Type: Class"])).unwrap_err();
    assert!(matches!(e2, ParseError::WrongEnhancementTreeType));
}

#[test]
fn enhancement_tree_not_declared() {
    let e = parse(&lines(&[
        "[Overview]",
        "[Enhancements]",
        "Ability: Tier 0: Toughness",
    ]))
    .unwrap_err();
    assert!(matches!(e, ParseError::EnhancementTreeNotDeclared));
}

#[test]
fn messages_name_the_offending_value() {
    let e = parse(&lines(&["[Overview]", "Race: Drew"])).unwrap_err();
    assert_eq!(e.message(), "Unknown race: Drew");
    let e2 = parse(&lines(&["[Whatever]"])).unwrap_err();
    assert_eq!(e2.message(), "Unknown header: [Whatever]");
    let e3 = parse(&lines(&[
        "[Overview]",
        "Race: Human",
        "Alignment: Lawful Good",
        "MaxLevels: 12",
        "Class: Rogue",
        "Class: Bard",
        "Level: 1 Rogue",
    ]))
    .unwrap_err();
    assert_eq!(e3.message(), "Wrong number of class levels; expected 12, got 1");
    let e4 = parse(&lines(&["[Overview]", "Class: Rogue", "Level: 1 Bard"])).unwrap_err();
    assert_eq!(e4.message(), "Undeclared class: Bard");
    let e5 = parse(&lines(&["[Overview]", "[Stats]", "Levelup: 7 Strength"])).unwrap_err();
    assert_eq!(e5.message(), "Bad ability score increase level: 7");
}
