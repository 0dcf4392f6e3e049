use cbl_build_parser::{
    parse, Ability, Alignment, CharacterBuild, Class, ClassEnhancementTree, Enhancement,
    EnhancementTreeName, Enhancements, Feat, Feats, Race, SecondaryFeatType, Skill, Skills,
    Spells, Stats,
};

fn lines(v: &[&str]) -> Vec<String> {
    let mut out = Vec::new();
    for s in v {
        out.push(s.to_string());
    }
    out
}

fn two_col(v: u8) -> String {
    if v == 0 {
        "  ".to_string()
    } else if v < 10 {
        format!(" {}", v)
    } else {
        format!("{}", v)
    }
}

fn ability_line(code: &str, a: u8, c: u8, h: u8, l: u8, t: u8) -> String {
    let tome = if t == 0 {
        " ".to_string()
    } else {
        format!("{}", t)
    };
    format!(
        "{}:  {}    {}    {}    {}     {}",
        code,
        two_col(a),
        two_col(c),
        two_col(h),
        two_col(l),
        tome
    )
}

fn chunk(v: u8) -> String {
    if v == 0 {
        "    ".to_string()
    } else if v < 10 {
        format!("  {} ", v)
    } else {
        format!(" {} ", v)
    }
}

fn skill_line(code7: &str, pts: [u8; 20], tome: u8) -> String {
    let mut s = format!("{}:", code7);
    for p in pts.iter() {
        s.push_str(&chunk(*p));
    }
    if tome != 0 {
        s.push_str(&chunk(tome));
    }
    s
}

#[test]
fn stack_size() {
    println!(
        "std::mem::size_of::<CharacterBuild>() == {}",
        std::mem::size_of::<CharacterBuild>()
    );
}

#[test]
fn wartrapper_test() {
    let mut input: Vec<String> = Vec::new();
    input.push("[Overview]".to_string());
    input.push("Name: Wartrapper".to_string());
    input.push("Race: Drow".to_string());
    input.push("Alignment: True Neutral".to_string());
    input.push("MaxLevels: 20".to_string());
    input.push("Class: Rogue".to_string());
    input.push("Class: Bard".to_string());
    input.push("Class: Fighter".to_string());
    let level_order = [
        "Rogue", "Bard", "Fighter", "Bard", "Bard", "Bard", "Bard", "Bard", "Bard", "Bard",
        "Fighter", "Fighter", "Bard", "Bard", "Fighter", "Bard", "Bard", "Bard", "Bard", "Bard",
    ];
    for (i, c) in level_order.iter().enumerate() {
        input.push(format!("Level: {} {}", i + 1, c));
    }
    input.push("[Stats]".to_string());
    input.push("Preferred: Adventurer".to_string());
    input.push("Champion: No".to_string());
    input.push("Hero: No".to_string());
    input.push("Legend: No".to_string());
    input.push(ability_line("STR", 10, 0, 0, 0, 0));
    input.push(ability_line("CON", 6, 0, 0, 0, 0));
    input.push(ability_line("INT", 6, 0, 0, 0, 0));
    input.push(ability_line("CHA", 6, 0, 0, 0, 0));
    for lv in [4u8, 8, 12, 16, 20, 24, 28].iter() {
        input.push(format!("Levelup: {} Strength", lv));
    }
    input.push("[Skills]".to_string());
    let set_and_forget = {
        let mut a = [0u8; 20];
        a[0] = 4;
        a
    };
    let dd = {
        let mut a = [2u8; 20];
        a[0] = 4;
        a
    };
    input.push(skill_line("Balance", set_and_forget, 0));
    input.push(skill_line("Concent", set_and_forget, 0));
    input.push(skill_line("Disable", dd, 0));
    input.push(skill_line(
        "Heal   ",
        [4, 0, 0, 0, 2, 2, 2, 1, 1, 1, 0, 0, 0, 0, 0, 0, 2, 2, 2, 1],
        0,
    ));
    input.push(skill_line("Jump   ", set_and_forget, 0));
    input.push(skill_line("Open Lo", set_and_forget, 0));
    input.push(skill_line(
        "Perform",
        [4, 3, 0, 2, 1, 1, 1, 1, 1, 1, 0, 0, 1, 3, 0, 2, 1, 1, 1, 1],
        0,
    ));
    input.push(skill_line("Search ", dd, 0));
    input.push(skill_line(
        "Spot   ",
        [4, 2, 1, 3, 2, 2, 2, 2, 2, 2, 1, 1, 4, 2, 1, 3, 2, 2, 2, 2],
        0,
    ));
    input.push(skill_line("Tumble ", set_and_forget, 0));
    input.push(skill_line(
        "UMD    ",
        [4, 0, 0, 0, 0, 0, 0, 1, 1, 1, 0, 0, 0, 0, 0, 0, 0, 0, 0, 1],
        0,
    ));
    input.push("[Feats]".to_string());
    input.push("Standard: Heroic 1 Power Attack".to_string());
    input.push("Standard: Heroic 3 Force of Personality".to_string());
    input.push("Standard: Heroic 6 Great Cleave".to_string());
    input.push("Standard: Heroic 9 Extend Spell".to_string());
    input.push("Standard: Heroic 12 Quicken Spell".to_string());
    input.push("Standard: Heroic 15 Two Handed Fighting".to_string());
    input.push("Standard: Heroic 18 Improved Bardic Music".to_string());
    input.push("Class: Fighter 1 Cleave".to_string());
    input.push("Class: Fighter 2 Improved Critical: Slashing".to_string());
    input.push("Class: Fighter 4 Improved Two Handed Fighting".to_string());
    input.push("[Spells]".to_string());
    let bard_spells: [&[&str]; 5] = [
        &["Cure Light Wounds", "Focusing Chant", "Expeditious Retreat", "Remove Fear"],
        &["Blur", "Cure Moderate Wounds", "Heroism", "Invisibility"],
        &["Cure Serious Wounds", "Displacement", "Haste", "Good Hope"],
        &["Cure Critical Wounds", "Freedom of Movement", "Break Enchantment", "Dimension Door"],
        &["Greater Heroism", "Mass Cure Light Wounds", "Shadow Walk"],
    ];
    for (i, level) in bard_spells.iter().enumerate() {
        for name in level.iter() {
            input.push(format!("Spell: Bard {} {}", i + 1, name));
        }
    }
    input.push("[Enhancements]".to_string());
    input.push("Tier5: Warchanter".to_string());
    input.push("Tree: Warchanter".to_string());
    input.push("Type: Class".to_string());
    input.push("Ability: Tier 0: Skaldic: Constitution".to_string());
    input.push("Ability: Tier 0: Weapon Training".to_string());
    input.push("Ability: Tier 0: Song of Heroism".to_string());
    input.push("Ability: Tier 0: Fighting Spirit".to_string());
    input.push("Ability: Tier 1: Poetic Edda (Rank 3)".to_string());
    input.push("Ability: Tier 1: Enchant Weapon".to_string());
    input.push("Ability: Tier 1: Rough and Ready (Rank 3)".to_string());
    input.push("Ability: Tier 2: Words of Encouragement (Rank 3)".to_string());
    input.push("Ability: Tier 2: Arcane Shield Chant (Rank 3)".to_string());
    input.push("Ability: Tier 2: Iced Edges (Rank 3)".to_string());
    input.push("Ability: Tier 3: Ironskin Chant (Rank 3)".to_string());
    input.push("Ability: Tier 3: Obstinance (Rank 3)".to_string());
    input.push("Ability: Tier 3: High Spirits (Rank 1)".to_string());
    input.push("Ability: Tier 4: Reckless Chant (Rank 3)".to_string());
    input.push("Ability: Tier 4: Armorer".to_string());
    input.push("Ability: Tier 5: Movement Booster: Expeditious Chant (Rank 3)".to_string());
    input.push("Ability: Tier 5: Chant of Power (Rank 3)".to_string());
    input.push("Ability: Tier 5: Howl of the North".to_string());
    input.push("Ability: Tier 5: Kingly Recovery (Rank 3)".to_string());
    input.push("Tree: Stalwart Defender".to_string());
    input.push("Type: Class".to_string());
    input.push("Ability: Tier 0: Toughness".to_string());
    input.push("Ability: Tier 0: Stalwart Defense".to_string());
    input.push("Ability: Tier 1: Improved Stalwart Defense: Durable Defense (Rank 3)".to_string());
    input.push("Ability: Tier 1: Stalwart Defensive Mastery (Rank 3)".to_string());
    input.push(
        "Ability: Tier 2: Improved Stalwart Defense: Resilient Defense (Rank 3)".to_string(),
    );
    input.push("Ability: Tier 2: Armor Expertise (Rank 3)".to_string());
    input.push("Ability: Tier 3: Greater Stalwart Defense: Tenacious Defense (Rank 3)".to_string());
    input.push("Ability: Tier 3: Shield Expertise (Rank 3)".to_string());
    input.push("Ability: Tier 4: Greater Stalwart Defense: Hardy Defense (Rank 3)".to_string());
    input.push("Ability: Tier 4: Reinforced Defense: Reinforced Armor (Rank 3)".to_string());
    input.push("Tree: Swashbuckler".to_string());
    input.push("Type: Class".to_string());
    input.push("Ability: Tier 0: Confidence".to_string());
    input.push("Ability: Tier 1: Tavern Shanties (Rank 3)".to_string());
    input.push("Tree: Spellsinger".to_string());
    input.push("Type: Class".to_string());
    input.push("Ability: Tier 0: Spellsinger".to_string());
    input.push("Ability: Tier 1: Studies: Magical (Rank 3)".to_string());
    input.push("Ability: Tier 1: Lingering Songs (Rank 2)".to_string());

    // The expected record.
    let mut skills = Skills::new();
    skills.set_points(Skill::Balance, set_and_forget.to_vec());
    skills.set_points(Skill::Concentration, set_and_forget.to_vec());
    skills.set_points(Skill::DisableDevice, dd.to_vec());
    skills.set_points(
        Skill::Heal,
        vec![4, 0, 0, 0, 2, 2, 2, 1, 1, 1, 0, 0, 0, 0, 0, 0, 2, 2, 2, 1],
    );
    skills.set_points(Skill::Jump, set_and_forget.to_vec());
    skills.set_points(Skill::OpenLock, set_and_forget.to_vec());
    skills.set_points(
        Skill::Perform,
        vec![4, 3, 0, 2, 1, 1, 1, 1, 1, 1, 0, 0, 1, 3, 0, 2, 1, 1, 1, 1],
    );
    skills.set_points(Skill::Search, dd.to_vec());
    skills.set_points(
        Skill::Spot,
        vec![4, 2, 1, 3, 2, 2, 2, 2, 2, 2, 1, 1, 4, 2, 1, 3, 2, 2, 2, 2],
    );
    skills.set_points(Skill::Tumble, set_and_forget.to_vec());
    skills.set_points(
        Skill::UseMagicDevice,
        vec![4, 0, 0, 0, 0, 0, 0, 1, 1, 1, 0, 0, 0, 0, 0, 0, 0, 0, 0, 1],
    );

    let rank3 = Some(3u8);
    let wc = EnhancementTreeName::Class(ClassEnhancementTree::Warchanter);
    let std_def = EnhancementTreeName::Class(ClassEnhancementTree::StalwartDefender);
    let swash = EnhancementTreeName::Class(ClassEnhancementTree::Swashbuckler);
    let ss = EnhancementTreeName::Class(ClassEnhancementTree::Spellsinger);
    let mut enhancements = Enhancements::new();
    enhancements.insert(
        wc,
        0,
        Enhancement::new("Skaldic".to_string(), Some("Constitution".to_string()), None),
    );
    enhancements.insert(wc, 0, Enhancement::new("Weapon Training".to_string(), None, None));
    enhancements.insert(wc, 0, Enhancement::new("Song of Heroism".to_string(), None, None));
    enhancements.insert(wc, 0, Enhancement::new("Fighting Spirit".to_string(), None, None));
    enhancements.insert(wc, 1, Enhancement::new("Poetic Edda".to_string(), None, rank3));
    enhancements.insert(wc, 1, Enhancement::new("Enchant Weapon".to_string(), None, None));
    enhancements.insert(wc, 1, Enhancement::new("Rough and Ready".to_string(), None, rank3));
    enhancements.insert(
        wc,
        2,
        Enhancement::new("Words of Encouragement".to_string(), None, rank3),
    );
    enhancements.insert(wc, 2, Enhancement::new("Arcane Shield Chant".to_string(), None, rank3));
    enhancements.insert(wc, 2, Enhancement::new("Iced Edges".to_string(), None, rank3));
    enhancements.insert(wc, 3, Enhancement::new("Ironskin Chant".to_string(), None, rank3));
    enhancements.insert(wc, 3, Enhancement::new("Obstinance".to_string(), None, rank3));
    enhancements.insert(wc, 3, Enhancement::new("High Spirits".to_string(), None, Some(1)));
    enhancements.insert(wc, 4, Enhancement::new("Reckless Chant".to_string(), None, rank3));
    enhancements.insert(wc, 4, Enhancement::new("Armorer".to_string(), None, None));
    enhancements.insert(
        wc,
        5,
        Enhancement::new(
            "Movement Booster".to_string(),
            Some("Expeditious Chant".to_string()),
            rank3,
        ),
    );
    enhancements.insert(wc, 5, Enhancement::new("Chant of Power".to_string(), None, rank3));
    enhancements.insert(wc, 5, Enhancement::new("Howl of the North".to_string(), None, None));
    enhancements.insert(wc, 5, Enhancement::new("Kingly Recovery".to_string(), None, rank3));
    enhancements.insert(std_def, 0, Enhancement::new("Toughness".to_string(), None, None));
    enhancements.insert(std_def, 0, Enhancement::new("Stalwart Defense".to_string(), None, None));
    enhancements.insert(
        std_def,
        1,
        Enhancement::new(
            "Improved Stalwart Defense".to_string(),
            Some("Durable Defense".to_string()),
            rank3,
        ),
    );
    enhancements.insert(
        std_def,
        1,
        Enhancement::new("Stalwart Defensive Mastery".to_string(), None, rank3),
    );
    enhancements.insert(
        std_def,
        2,
        Enhancement::new(
            "Improved Stalwart Defense".to_string(),
            Some("Resilient Defense".to_string()),
            rank3,
        ),
    );
    enhancements.insert(std_def, 2, Enhancement::new("Armor Expertise".to_string(), None, rank3));
    enhancements.insert(
        std_def,
        3,
        Enhancement::new(
            "Greater Stalwart Defense".to_string(),
            Some("Tenacious Defense".to_string()),
            rank3,
        ),
    );
    enhancements.insert(std_def, 3, Enhancement::new("Shield Expertise".to_string(), None, rank3));
    enhancements.insert(
        std_def,
        4,
        Enhancement::new(
            "Greater Stalwart Defense".to_string(),
            Some("Hardy Defense".to_string()),
            rank3,
        ),
    );
    enhancements.insert(
        std_def,
        4,
        Enhancement::new(
            "Reinforced Defense".to_string(),
            Some("Reinforced Armor".to_string()),
            rank3,
        ),
    );
    enhancements.insert(swash, 0, Enhancement::new("Confidence".to_string(), None, None));
    enhancements.insert(swash, 1, Enhancement::new("Tavern Shanties".to_string(), None, rank3));
    enhancements.insert(ss, 0, Enhancement::new("Spellsinger".to_string(), None, None));
    enhancements.insert(
        ss,
        1,
        Enhancement::new("Studies".to_string(), Some("Magical".to_string()), rank3),
    );
    enhancements.insert(ss, 1, Enhancement::new("Lingering Songs".to_string(), None, Some(2)));

    let mut spells = Spells::new();
    for (i, level) in bard_spells.iter().enumerate() {
        for name in level.iter() {
            spells.insert(Class::Bard, i + 1, Some(name.to_string())).unwrap();
        }
    }

    let expected = CharacterBuild {
        name: "Wartrapper".to_string(),
        race: Race::Drow,
        alignment: Alignment::TrueNeutral,
        max_levels: 20,
        levels: vec![
            Class::Rogue,
            Class::Bard,
            Class::Fighter,
            Class::Bard,
            Class::Bard,
            Class::Bard,
            Class::Bard,
            Class::Bard,
            Class::Bard,
            Class::Bard,
            Class::Fighter,
            Class::Fighter,
            Class::Bard,
            Class::Bard,
            Class::Fighter,
            Class::Bard,
            Class::Bard,
            Class::Bard,
            Class::Bard,
            Class::Bard,
        ],
        preferred_build_type: cbl_build_parser::BuildType::Adventurer,
        adventurer_stats: Some(Stats::new(10, 0, 6, 6, 0, 6)),
        champion_stats: None,
        hero_stats: None,
        legend_stats: None,
        stat_tomes: Stats::default(),
        stat_levelups: vec![
            Some(Ability::Str),
            Some(Ability::Str),
            Some(Ability::Str),
            Some(Ability::Str),
            Some(Ability::Str),
            Some(Ability::Str),
            Some(Ability::Str),
        ],
        skills,
        feats: Feats {
            standard_feats: vec![
                Feat::new(SecondaryFeatType::Heroic, 1, "Power Attack".to_string()),
                Feat::new(SecondaryFeatType::Heroic, 3, "Force of Personality".to_string()),
                Feat::new(SecondaryFeatType::Heroic, 6, "Great Cleave".to_string()),
                Feat::new(SecondaryFeatType::Heroic, 9, "Extend Spell".to_string()),
                Feat::new(SecondaryFeatType::Heroic, 12, "Quicken Spell".to_string()),
                Feat::new(SecondaryFeatType::Heroic, 15, "Two Handed Fighting".to_string()),
                Feat::new(SecondaryFeatType::Heroic, 18, "Improved Bardic Music".to_string()),
            ],
            legend_feats: None,
            class_feats: vec![
                Feat::new(SecondaryFeatType::Class(Class::Fighter), 1, "Cleave".to_string()),
                Feat::new(
                    SecondaryFeatType::Class(Class::Fighter),
                    2,
                    "Improved Critical: Slashing".to_string(),
                ),
                Feat::new(
                    SecondaryFeatType::Class(Class::Fighter),
                    4,
                    "Improved Two Handed Fighting".to_string(),
                ),
            ],
            race_feats: Vec::new(),
        },
        spells,
        tier_five: Some(wc),
        enhancements,
    };

    let parsed = parse(&input).unwrap();
    assert!(parsed.equals(&expected));
}

#[test]
fn parse_is_idempotent() {
    let input = lines(&[
        "[Overview]",
        "Name: Twice",
        "Race: Human",
        "Alignment: Lawful Good",
        "MaxLevels: 3",
        "Class: Monk",
        "Level: 1 Monk",
        "Level: 2 Monk",
        "Level: 3 Monk",
        "[Skills]",
        &skill_line("Balance", {
            let mut a = [0u8; 20];
            a[2] = 7;
            a
        }, 2),
    ]);
    let first = parse(&input).unwrap();
    let second = parse(&input).unwrap();
    assert!(first.equals(&second));
}

#[test]
fn single_class_shorthand_expands_levels() {
    let input = lines(&[
        "[Overview]",
        "Name: Pure",
        "Race: Dwarf",
        "Alignment: Lawful Good",
        "MaxLevels: 7",
        "Class: Barbarian",
    ]);
    let b = parse(&input).unwrap();
    assert_eq!(b.max_levels, 7);
    assert_eq!(b.levels, vec![Class::Barbarian; 7]);
}

#[test]
fn max_levels_equals_level_count() {
    let input = lines(&[
        "[Overview]",
        "Race: Elf",
        "Alignment: Neutral Good",
        "MaxLevels: 2",
        "Class: Ranger",
        "Class: Rogue",
        "Level: 1 Ranger",
        "Level: 2 Rogue",
    ]);
    let b = parse(&input).unwrap();
    assert_eq!(b.levels.len(), b.max_levels as usize);
    assert_eq!(b.levels, vec![Class::Ranger, Class::Rogue]);
}

#[test]
fn high_max_levels_caps_explicit_levels_at_twenty() {
    // With explicit per-level lines the sequence holds at most 20
    // entries even when the declared maximum is higher.
    let mut v: Vec<String> = Vec::new();
    v.push("[Overview]".to_string());
    v.push("Race: Human".to_string());
    v.push("Alignment: Lawful Good".to_string());
    v.push("MaxLevels: 30".to_string());
    v.push("Class: Monk".to_string());
    for i in 1..=20 {
        v.push(format!("Level: {} Monk", i));
    }
    let b = parse(&v).unwrap();
    assert_eq!(b.max_levels, 30);
    assert_eq!(b.levels.len(), 20);

    // The single-class shorthand, though, expands to the full maximum.
    let short = lines(&[
        "[Overview]",
        "Race: Human",
        "Alignment: Lawful Good",
        "MaxLevels: 30",
        "Class: Monk",
    ]);
    let b2 = parse(&short).unwrap();
    assert_eq!(b2.levels.len(), 30);
}

#[test]
fn sections_can_be_reentered() {
    let input = lines(&[
        "[Overview]",
        "Race: Human",
        "Alignment: Lawful Good",
        "MaxLevels: 1",
        "Class: Rogue",
        "[Stats]",
        "Levelup: 4 Strength",
        "[Overview]",
        "Name: Renamed",
    ]);
    let b = parse(&input).unwrap();
    assert_eq!(b.name, "Renamed");
    assert_eq!(b.stat_levelups[0], Some(Ability::Str));
}

#[test]
fn blank_and_comment_lines_are_skipped() {
    let input = lines(&[
        "",
        "   ",
        " ; a comment before anything",
        "[Overview]",
        "; another comment",
        "Race: Gnome",
        "Alignment: True Neutral",
        "MaxLevels: 1",
        "Class: Wizard",
    ]);
    let b = parse(&input).unwrap();
    assert_eq!(b.race, Race::Gnome);
    assert_eq!(b.levels, vec![Class::Wizard]);
}

#[test]
fn unrecognized_data_lines_are_ignored() {
    let input = lines(&[
        "[Overview]",
        "Race: Drow",
        "Alignment: True Neutral",
        "MaxLevels: 1",
        "Class: Rogue",
        "SomethingElse: entirely unknown",
        "[Enhancements]",
        "ClassLevels: 17",
    ]);
    assert!(parse(&input).is_ok());
}

#[test]
fn skill_line_single_value() {
    // One numeric field among twenty blanks: entry present, value at the
    // right index, zero everywhere else.
    let mut pts = [0u8; 20];
    pts[4] = 3;
    let input = lines(&[
        "[Overview]",
        "Race: Human",
        "Alignment: Lawful Good",
        "MaxLevels: 1",
        "Class: Rogue",
        "[Skills]",
        &skill_line("Tumble ", pts, 0),
    ]);
    let b = parse(&input).unwrap();
    let got = b.skills.points_in_skill(Skill::Tumble).unwrap().clone();
    assert_eq!(got.len(), 20);
    for (i, v) in got.iter().enumerate() {
        if i == 4 {
            assert_eq!(*v, 3);
        } else {
            assert_eq!(*v, 0);
        }
    }
    assert_eq!(b.skills.points_in_skill_at_level(Skill::Tumble, 4), 3);
    assert_eq!(b.skills.points_in_skill_at_level(Skill::Tumble, 5), 0);
    assert_eq!(b.skills.tome(Skill::Tumble), 0);
    assert!(b.skills.points_in_skill(Skill::Jump).is_none());
}

#[test]
fn skill_line_all_blank_records_nothing() {
    let input = lines(&[
        "[Overview]",
        "Race: Human",
        "Alignment: Lawful Good",
        "MaxLevels: 1",
        "Class: Rogue",
        "[Skills]",
        &skill_line("Balance", [0u8; 20], 0),
    ]);
    let b = parse(&input).unwrap();
    assert!(b.skills.points_in_skill(Skill::Balance).is_none());
}

#[test]
fn skill_line_tome_column() {
    let mut pts = [0u8; 20];
    pts[0] = 4;
    let input = lines(&[
        "[Overview]",
        "Race: Human",
        "Alignment: Lawful Good",
        "MaxLevels: 1",
        "Class: Rogue",
        "[Skills]",
        &skill_line("Haggle ", pts, 2),
    ]);
    let b = parse(&input).unwrap();
    assert_eq!(b.skills.tome(Skill::Haggle), 2);
    assert_eq!(b.skills.points_in_skill_at_level(Skill::Haggle, 0), 4);
}

#[test]
fn ability_line_updates_five_targets() {
    let input = lines(&[
        "[Overview]",
        "Race: Human",
        "Alignment: Lawful Good",
        "MaxLevels: 1",
        "Class: Rogue",
        "[Stats]",
        &ability_line("DEX", 12, 14, 0, 99, 3),
    ]);
    let b = parse(&input).unwrap();
    assert_eq!(b.adventurer_stats.as_ref().unwrap().get(Ability::Dex), 12);
    assert_eq!(b.champion_stats.as_ref().unwrap().get(Ability::Dex), 14);
    // A blank field decodes to zero.
    assert_eq!(b.hero_stats.as_ref().unwrap().get(Ability::Dex), 0);
    assert_eq!(b.legend_stats.as_ref().unwrap().get(Ability::Dex), 99);
    assert_eq!(b.stat_tomes.get(Ability::Dex), 3);
    // The other abilities are untouched.
    assert_eq!(b.adventurer_stats.as_ref().unwrap().get(Ability::Str), 0);
    assert_eq!(b.stat_tomes.get(Ability::Con), 0);
}

#[test]
fn opted_out_build_type_stays_absent() {
    let input = lines(&[
        "[Overview]",
        "Race: Human",
        "Alignment: Lawful Good",
        "MaxLevels: 1",
        "Class: Rogue",
        "[Stats]",
        "Hero: No",
        &ability_line("STR", 8, 0, 6, 0, 0),
    ]);
    let b = parse(&input).unwrap();
    assert!(b.hero_stats.is_none());
    assert_eq!(b.adventurer_stats.as_ref().unwrap().get(Ability::Str), 8);
}

#[test]
fn levelup_zero_is_ignored_and_five_rejected() {
    let ok = lines(&[
        "[Overview]",
        "Race: Human",
        "Alignment: Lawful Good",
        "MaxLevels: 1",
        "Class: Rogue",
        "[Stats]",
        "Levelup: 0 Strength",
    ]);
    let b = parse(&ok).unwrap();
    for pick in b.stat_levelups.iter() {
        assert!(pick.is_none());
    }

    let bad = lines(&[
        "[Overview]",
        "Race: Human",
        "Alignment: Lawful Good",
        "MaxLevels: 1",
        "Class: Rogue",
        "[Stats]",
        "Levelup: 5 Strength",
    ]);
    let e = parse(&bad).unwrap_err();
    assert!(matches!(e, cbl_build_parser::ParseError::BadLevelupLevel(5)));
}

#[test]
fn levelup_milestones_are_recorded() {
    let input = lines(&[
        "[Overview]",
        "Race: Human",
        "Alignment: Lawful Good",
        "MaxLevels: 1",
        "Class: Rogue",
        "[Stats]",
        "Levelup: 4 Strength",
        "Levelup: 28 Charisma",
    ]);
    let b = parse(&input).unwrap();
    assert_eq!(b.stat_levelups[0], Some(Ability::Str));
    assert_eq!(b.stat_levelups[6], Some(Ability::Cha));
    assert_eq!(b.stat_levelups[1], None);
}

#[test]
fn declared_class_level_succeeds_undeclared_fails() {
    let ok = lines(&[
        "[Overview]",
        "Race: Human",
        "Alignment: Lawful Good",
        "MaxLevels: 1",
        "Class: Fighter",
        "Level: 1 Fighter",
    ]);
    let b = parse(&ok).unwrap();
    assert_eq!(b.levels, vec![Class::Fighter]);

    let bad = lines(&[
        "[Overview]",
        "Race: Human",
        "Alignment: Lawful Good",
        "MaxLevels: 1",
        "Class: Fighter",
        "Level: 1 Wizard",
    ]);
    let e = parse(&bad).unwrap_err();
    assert!(matches!(
        e,
        cbl_build_parser::ParseError::UndeclaredClass(Class::Wizard)
    ));
}

#[test]
fn vanguard_source_resolves_to_paladin() {
    let input = lines(&[
        "[Overview]",
        "Race: Human",
        "Alignment: Lawful Good",
        "MaxLevels: 1",
        "Class: Paladin",
        "[Enhancements]",
        "Tree: Vanguard",
        "Type: Class",
        "Source: Paladin",
        "Ability: Tier 0: Shield to the Fore",
    ]);
    let b = parse(&input).unwrap();
    let paladin = EnhancementTreeName::Class(ClassEnhancementTree::VanguardPaladin);
    let fighter = EnhancementTreeName::Class(ClassEnhancementTree::VanguardFighter);
    let tree = b.enhancements.tree(paladin).unwrap();
    assert_eq!(tree.tiers[0].len(), 1);
    assert_eq!(tree.tiers[0][0].name, "Shield to the Fore");
    assert!(b.enhancements.tree(fighter).is_none());
}

#[test]
fn vanguard_without_source_stays_fighter() {
    let input = lines(&[
        "[Overview]",
        "Race: Human",
        "Alignment: Lawful Good",
        "MaxLevels: 1",
        "Class: Fighter",
        "[Enhancements]",
        "Tree: Vanguard",
        "Ability: Tier 1: Snap Kick (Rank 2)",
    ]);
    let b = parse(&input).unwrap();
    let fighter = EnhancementTreeName::Class(ClassEnhancementTree::VanguardFighter);
    let tree = b.enhancements.tree(fighter).unwrap();
    assert_eq!(tree.tiers[1].len(), 1);
    assert_eq!(tree.tiers[1][0].name, "Snap Kick");
    assert_eq!(tree.tiers[1][0].rank, Some(2));
    assert_eq!(tree.tiers[1][0].subenhancement, None);
}

#[test]
fn spell_slots_keep_display_order_and_empty_slots() {
    let input = lines(&[
        "[Overview]",
        "Race: Human",
        "Alignment: Lawful Good",
        "MaxLevels: 1",
        "Class: Wizard",
        "[Spells]",
        "Spell: Wizard 1 Magic Missile",
        "Spell: Wizard 1 ",
        "Spell: Wizard 3 Fireball",
    ]);
    let b = parse(&input).unwrap();
    assert_eq!(b.spells.spellbooks.len(), 1);
    let book = &b.spells.spellbooks[0];
    assert_eq!(book.class, Class::Wizard);
    assert_eq!(book.spells_by_level.len(), 3);
    assert_eq!(book.spells_by_level[0].len(), 2);
    assert_eq!(book.spells_by_level[0][0], Some("Magic Missile".to_string()));
    assert_eq!(book.spells_by_level[0][1], None);
    assert_eq!(book.spells_by_level[1].len(), 0);
    assert_eq!(book.spells_by_level[2], vec![Some("Fireball".to_string())]);
}

#[test]
fn display_names_round_trip() {
    assert_eq!(Race::Drow.name(), "Drow");
    assert_eq!(Race::PurpleDragonKnight.name(), "Purple Dragon Knight");
    assert_eq!(Alignment::TrueNeutral.name(), "True Neutral");
    assert_eq!(Class::FavoredSoul.name(), "Favored Soul");
    assert_eq!(Race::from_str("Purple Dragon Knight"), Some(Race::PurpleDragonKnight));
    assert_eq!(Race::from_str("Purple Dragon"), None);
    assert_eq!(Class::from_str("Favored Soul"), Some(Class::FavoredSoul));
    assert_eq!(Skill::from_7_chars("Open Lo"), Some(Skill::OpenLock));
    assert_eq!(Skill::from_7_chars("Zzzzzzz"), None);
}
