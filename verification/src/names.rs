//! The closed string-to-enumeration tables of the build format.
//!
//! Every mapping is exact: the source format never needs case folding or
//! fuzzy matching, so each parser is a cascade of literal comparisons
//! with an explicit no-match fall-through, and each has a specification
//! that pins down the whole mapping.

use vstd::prelude::*;

use crate::model::{
    Ability, Alignment, BaseFeatType, BuildType, Class, ClassEnhancementTree,
    EnhancementTreeName, GlobalEnhancementTree, Heading, Race, RaceClassEnhancementTree,
    SecondaryFeatType, Skill,
};
use crate::text::{prefix_at, str_eq, chars_of, check_prefix};

verus! {

/// The race named by `s`, if any.
pub open spec fn race_of(s: Seq<char>) -> Option<Race> {
    if s == "Aasimar"@ {
        Some(Race::Aasimar)
    } else if s == "Aasimar Scourge"@ {
        Some(Race::AasimarScourge)
    } else if s == "Bladeforged"@ {
        Some(Race::Bladeforged)
    } else if s == "Deep Gnome"@ {
        Some(Race::DeepGnome)
    } else if s == "Dragonborn"@ {
        Some(Race::Dragonborn)
    } else if s == "Drow"@ {
        Some(Race::Drow)
    } else if s == "Dwarf"@ {
        Some(Race::Dwarf)
    } else if s == "Elf"@ {
        Some(Race::Elf)
    } else if s == "Gnome"@ {
        Some(Race::Gnome)
    } else if s == "Half-Elf"@ {
        Some(Race::HalfElf)
    } else if s == "Halfing"@ {
        Some(Race::Halfing)
    } else if s == "Half-Orc"@ {
        Some(Race::HalfOrc)
    } else if s == "Human"@ {
        Some(Race::Human)
    } else if s == "Morninglord"@ {
        Some(Race::Morninglord)
    } else if s == "Purple Dragon Knight"@ {
        Some(Race::PurpleDragonKnight)
    } else if s == "Shadar-kai"@ {
        Some(Race::ShadarKai)
    } else if s == "Tiefling"@ {
        Some(Race::Tiefling)
    } else if s == "Tiefling Scoundrel"@ {
        Some(Race::TieflingScoundrel)
    } else if s == "Warforged"@ {
        Some(Race::Warforged)
    } else if s == "Wood Elf"@ {
        Some(Race::WoodElf)
    } else {
        None
    }
}

/// The alignment named by `s`, if any.
pub open spec fn alignment_of(s: Seq<char>) -> Option<Alignment> {
    if s == "Lawful Good"@ {
        Some(Alignment::LawfulGood)
    } else if s == "Lawful Neutral"@ {
        Some(Alignment::LawfulNeutral)
    } else if s == "Neutral Good"@ {
        Some(Alignment::NeutralGood)
    } else if s == "True Neutral"@ {
        Some(Alignment::TrueNeutral)
    } else if s == "Chaotic Good"@ {
        Some(Alignment::ChaoticGood)
    } else if s == "Chaotic Neutral"@ {
        Some(Alignment::ChaoticNeutral)
    } else {
        None
    }
}

/// The class named by `s`, if any.
pub open spec fn class_of(s: Seq<char>) -> Option<Class> {
    if s == "Artificer"@ {
        Some(Class::Artificer)
    } else if s == "Barbarian"@ {
        Some(Class::Barbarian)
    } else if s == "Bard"@ {
        Some(Class::Bard)
    } else if s == "Cleric"@ {
        Some(Class::Cleric)
    } else if s == "Druid"@ {
        Some(Class::Druid)
    } else if s == "Favored Soul"@ {
        Some(Class::FavoredSoul)
    } else if s == "Fighter"@ {
        Some(Class::Fighter)
    } else if s == "Monk"@ {
        Some(Class::Monk)
    } else if s == "Paladin"@ {
        Some(Class::Paladin)
    } else if s == "Ranger"@ {
        Some(Class::Ranger)
    } else if s == "Rogue"@ {
        Some(Class::Rogue)
    } else if s == "Sorcerer"@ {
        Some(Class::Sorcerer)
    } else if s == "Warlock"@ {
        Some(Class::Warlock)
    } else if s == "Wizard"@ {
        Some(Class::Wizard)
    } else {
        None
    }
}

/// The build type named by `s`, if any.
pub open spec fn build_type_of(s: Seq<char>) -> Option<BuildType> {
    if s == "Adventurer"@ {
        Some(BuildType::Adventurer)
    } else if s == "Champion"@ {
        Some(BuildType::Champion)
    } else if s == "Hero"@ {
        Some(BuildType::Hero)
    } else if s == "Legend"@ {
        Some(BuildType::Legend)
    } else {
        None
    }
}

/// The ability named by `s` (short code or full name), if any.
pub open spec fn ability_of(s: Seq<char>) -> Option<Ability> {
    if s == "STR"@ || s == "Strength"@ {
        Some(Ability::Str)
    } else if s == "DEX"@ || s == "Dexterity"@ {
        Some(Ability::Dex)
    } else if s == "CON"@ || s == "Constitution"@ {
        Some(Ability::Con)
    } else if s == "INT"@ || s == "Intelligence"@ {
        Some(Ability::Int)
    } else if s == "WIS"@ || s == "Wisdom"@ {
        Some(Ability::Wis)
    } else if s == "CHA"@ || s == "Charisma"@ {
        Some(Ability::Cha)
    } else {
        None
    }
}

/// The base feat category named by `s`, if any.
pub open spec fn base_feat_type_of(s: Seq<char>) -> Option<BaseFeatType> {
    if s == "Standard"@ {
        Some(BaseFeatType::Standard)
    } else if s == "Legend"@ {
        Some(BaseFeatType::Legend)
    } else if s == "Class"@ {
        Some(BaseFeatType::Class)
    } else if s == "Race"@ {
        Some(BaseFeatType::Race)
    } else {
        None
    }
}

/// The section named by a header, if the name is recognized.
pub open spec fn heading_of(s: Seq<char>) -> Option<Heading> {
    if s == "Overview"@ {
        Some(Heading::Overview)
    } else if s == "Stats"@ {
        Some(Heading::Stats)
    } else if s == "Skills"@ {
        Some(Heading::Skills)
    } else if s == "Feats"@ {
        Some(Heading::Feats)
    } else if s == "Spells"@ {
        Some(Heading::Spells)
    } else if s == "Enhancements"@ {
        Some(Heading::Enhancements)
    } else {
        None
    }
}

/// The skill named by the first three characters of a 7-character
/// skill-code field, if any.
pub open spec fn skill_of_code(s: Seq<char>) -> Option<Skill> {
    if prefix_at(s, 0, "Bal"@) {
        Some(Skill::Balance)
    } else if prefix_at(s, 0, "Blu"@) {
        Some(Skill::Bluff)
    } else if prefix_at(s, 0, "Con"@) {
        Some(Skill::Concentration)
    } else if prefix_at(s, 0, "Dip"@) {
        Some(Skill::Diplomacy)
    } else if prefix_at(s, 0, "Dis"@) {
        Some(Skill::DisableDevice)
    } else if prefix_at(s, 0, "Hag"@) {
        Some(Skill::Haggle)
    } else if prefix_at(s, 0, "Hea"@) {
        Some(Skill::Heal)
    } else if prefix_at(s, 0, "Hid"@) {
        Some(Skill::Hide)
    } else if prefix_at(s, 0, "Int"@) {
        Some(Skill::Intimidate)
    } else if prefix_at(s, 0, "Jum"@) {
        Some(Skill::Jump)
    } else if prefix_at(s, 0, "Lis"@) {
        Some(Skill::Listen)
    } else if prefix_at(s, 0, "Mov"@) {
        Some(Skill::MoveSilently)
    } else if prefix_at(s, 0, "Ope"@) {
        Some(Skill::OpenLock)
    } else if prefix_at(s, 0, "Per"@) {
        Some(Skill::Perform)
    } else if prefix_at(s, 0, "Rep"@) {
        Some(Skill::Repair)
    } else if prefix_at(s, 0, "Sea"@) {
        Some(Skill::Search)
    } else if prefix_at(s, 0, "Spe"@) {
        Some(Skill::Spellcraft)
    } else if prefix_at(s, 0, "Spo"@) {
        Some(Skill::Spot)
    } else if prefix_at(s, 0, "Swi"@) {
        Some(Skill::Swim)
    } else if prefix_at(s, 0, "Tum"@) {
        Some(Skill::Tumble)
    } else if prefix_at(s, 0, "UMD"@) {
        Some(Skill::UseMagicDevice)
    } else {
        None
    }
}

/// The enhancement tree named by `s`, if any.  A bare `Vanguard`
/// resolves to the Fighter-class variant; a later `Source: Paladin`
/// line may correct that choice.  A name that is no tree alias is
/// tried as a race name, for the race-bound trees.
pub open spec fn tree_name_of(s: Seq<char>) -> Option<EnhancementTreeName> {
    if s == "Arcanotechnician"@ {
        Some(EnhancementTreeName::Class(ClassEnhancementTree::Arcanotechnician))
    } else if s == "Battle Engineer"@ {
        Some(EnhancementTreeName::Class(ClassEnhancementTree::BattleEngineer))
    } else if s == "Renegade Mastermaker"@ {
        Some(EnhancementTreeName::Class(ClassEnhancementTree::RenegadeMastermaker))
    } else if s == "Frenzied Berserker"@ {
        Some(EnhancementTreeName::Class(ClassEnhancementTree::FrenziedBerserker))
    } else if s == "Occult Slayer"@ {
        Some(EnhancementTreeName::Class(ClassEnhancementTree::OccultSlayer))
    } else if s == "Ravager"@ {
        Some(EnhancementTreeName::Class(ClassEnhancementTree::Ravager))
    } else if s == "Swashbuckler"@ {
        Some(EnhancementTreeName::Class(ClassEnhancementTree::Swashbuckler))
    } else if s == "Spellsinger"@ {
        Some(EnhancementTreeName::Class(ClassEnhancementTree::Spellsinger))
    } else if s == "Warchanter"@ {
        Some(EnhancementTreeName::Class(ClassEnhancementTree::Warchanter))
    } else if s == "Divine Disciple"@ {
        Some(EnhancementTreeName::Class(ClassEnhancementTree::DivineDisciple))
    } else if s == "Radiant Servant"@ {
        Some(EnhancementTreeName::Class(ClassEnhancementTree::RadiantServant))
    } else if s == "Warpriest"@ {
        Some(EnhancementTreeName::Class(ClassEnhancementTree::Warpriest))
    } else if s == "Nature's Warrior"@ {
        Some(EnhancementTreeName::Class(ClassEnhancementTree::NaturesWarrior))
    } else if s == "Nature's Protector"@ {
        Some(EnhancementTreeName::Class(ClassEnhancementTree::NaturesProtector))
    } else if s == "Season's Herald"@ {
        Some(EnhancementTreeName::Class(ClassEnhancementTree::SeasonsHerald))
    } else if s == "Angel of Vengeance"@ {
        Some(EnhancementTreeName::Class(ClassEnhancementTree::AngelOfVengeance))
    } else if s == "Beacon of Hope"@ {
        Some(EnhancementTreeName::Class(ClassEnhancementTree::BeaconOfHope))
    } else if s == "War Soul"@ {
        Some(EnhancementTreeName::Class(ClassEnhancementTree::WarSoul))
    } else if s == "Kensei"@ {
        Some(EnhancementTreeName::Class(ClassEnhancementTree::Kensei))
    } else if s == "Stalwart Defender"@ {
        Some(EnhancementTreeName::Class(ClassEnhancementTree::StalwartDefender))
    } else if s == "Vanguard"@ || s == "Vanguard (Fighter)"@ {
        Some(EnhancementTreeName::Class(ClassEnhancementTree::VanguardFighter))
    } else if s == "Henshin Mystic"@ {
        Some(EnhancementTreeName::Class(ClassEnhancementTree::HenshinMystic))
    } else if s == "Ninja Spy"@ {
        Some(EnhancementTreeName::Class(ClassEnhancementTree::NinjaSpy))
    } else if s == "Shintao"@ {
        Some(EnhancementTreeName::Class(ClassEnhancementTree::Shintao))
    } else if s == "Knight of the Chalice"@ {
        Some(EnhancementTreeName::Class(ClassEnhancementTree::KnightOfTheChalice))
    } else if s == "Sacred Defender"@ {
        Some(EnhancementTreeName::Class(ClassEnhancementTree::SacredDefender))
    } else if s == "Vanguard (Paladin)"@ {
        Some(EnhancementTreeName::Class(ClassEnhancementTree::VanguardPaladin))
    } else if s == "Arcane Archer"@ {
        Some(EnhancementTreeName::Class(ClassEnhancementTree::ArcaneArcher))
    } else if s == "Deepwood Stalker"@ {
        Some(EnhancementTreeName::Class(ClassEnhancementTree::DeepwoodStalker))
    } else if s == "Tempest"@ {
        Some(EnhancementTreeName::Class(ClassEnhancementTree::Tempest))
    } else if s == "Assassin"@ {
        Some(EnhancementTreeName::Class(ClassEnhancementTree::Assassin))
    } else if s == "Mechanic"@ {
        Some(EnhancementTreeName::Class(ClassEnhancementTree::Mechanic))
    } else if s == "Thief-Acrobat"@ {
        Some(EnhancementTreeName::Class(ClassEnhancementTree::ThiefAcrobat))
    } else if s == "Air Savant"@ {
        Some(EnhancementTreeName::Class(ClassEnhancementTree::AirSavant))
    } else if s == "Earth Savant"@ {
        Some(EnhancementTreeName::Class(ClassEnhancementTree::EarthSavant))
    } else if s == "Eldritch Knight (Sorcerer)"@ {
        Some(EnhancementTreeName::Class(ClassEnhancementTree::EldritchKnightSorcerer))
    } else if s == "Fire Savant"@ {
        Some(EnhancementTreeName::Class(ClassEnhancementTree::FireSavant))
    } else if s == "Water Savant"@ {
        Some(EnhancementTreeName::Class(ClassEnhancementTree::WaterSavant))
    } else if s == "Enlightened Spirit"@ {
        Some(EnhancementTreeName::Class(ClassEnhancementTree::EnlightenedSpirit))
    } else if s == "Soul Eater"@ {
        Some(EnhancementTreeName::Class(ClassEnhancementTree::SoulEater))
    } else if s == "Tainted Scholar"@ {
        Some(EnhancementTreeName::Class(ClassEnhancementTree::TaintedScholar))
    } else if s == "Archmage"@ {
        Some(EnhancementTreeName::Class(ClassEnhancementTree::Archmage))
    } else if s == "Eldritch Knight (Wizard)"@ {
        Some(EnhancementTreeName::Class(ClassEnhancementTree::EldritchKnightWizard))
    } else if s == "Pale Master"@ {
        Some(EnhancementTreeName::Class(ClassEnhancementTree::PaleMaster))
    } else if s == "Harper Agent"@ {
        Some(EnhancementTreeName::Global(GlobalEnhancementTree::HarperAgent))
    } else if s == "Falconry"@ {
        Some(EnhancementTreeName::Global(GlobalEnhancementTree::Falconry))
    } else if s == "Vistani Knife Fighter"@ {
        Some(EnhancementTreeName::Global(GlobalEnhancementTree::VistaniKnifeFighter))
    } else if s == "Inquisitive"@ {
        Some(EnhancementTreeName::Global(GlobalEnhancementTree::Inquisitive))
    } else if s == "Elf-Arcane Archer"@ {
        Some(EnhancementTreeName::RaceClass(RaceClassEnhancementTree::ElfArcaneArcher))
    } else {
        match race_of(s) {
            Some(r) => Some(EnhancementTreeName::Race(r)),
            None => None,
        }
    }
}

/// The secondary feat category for a given base category and qualifier
/// token, if the qualifier is recognized for that base category.
pub open spec fn secondary_of(base: BaseFeatType, s: Seq<char>) -> Option<SecondaryFeatType> {
    match base {
        BaseFeatType::Standard => if s == "Heroic"@ {
            Some(SecondaryFeatType::Heroic)
        } else if s == "Epic"@ {
            Some(SecondaryFeatType::Epic)
        } else if s == "Destiny"@ {
            Some(SecondaryFeatType::Destiny)
        } else {
            None
        },
        BaseFeatType::Legend => if s == "Legend"@ {
            Some(SecondaryFeatType::Legend)
        } else {
            None
        },
        BaseFeatType::Class => match class_of(s) {
            Some(c) => Some(SecondaryFeatType::Class(c)),
            None => None,
        },
        BaseFeatType::Race => match race_of(s) {
            Some(r) => Some(SecondaryFeatType::Race(r)),
            None => None,
        },
    }
}

/// The display name of each race.
pub open spec fn race_name(v: Race) -> Seq<char> {
    match v {
        Race::Aasimar => "Aasimar"@,
        Race::AasimarScourge => "Aasimar Scourge"@,
        Race::Bladeforged => "Bladeforged"@,
        Race::DeepGnome => "Deep Gnome"@,
        Race::Dragonborn => "Dragonborn"@,
        Race::Drow => "Drow"@,
        Race::Dwarf => "Dwarf"@,
        Race::Elf => "Elf"@,
        Race::Gnome => "Gnome"@,
        Race::HalfElf => "Half-Elf"@,
        Race::Halfing => "Halfing"@,
        Race::HalfOrc => "Half-Orc"@,
        Race::Human => "Human"@,
        Race::Morninglord => "Morninglord"@,
        Race::PurpleDragonKnight => "Purple Dragon Knight"@,
        Race::ShadarKai => "Shadar-kai"@,
        Race::Tiefling => "Tiefling"@,
        Race::TieflingScoundrel => "Tiefling Scoundrel"@,
        Race::Warforged => "Warforged"@,
        Race::WoodElf => "Wood Elf"@,
    }
}

/// The display name of each alignment.
pub open spec fn alignment_name(v: Alignment) -> Seq<char> {
    match v {
        Alignment::LawfulGood => "Lawful Good"@,
        Alignment::LawfulNeutral => "Lawful Neutral"@,
        Alignment::NeutralGood => "Neutral Good"@,
        Alignment::TrueNeutral => "True Neutral"@,
        Alignment::ChaoticGood => "Chaotic Good"@,
        Alignment::ChaoticNeutral => "Chaotic Neutral"@,
    }
}

/// The display name of each class.
pub open spec fn class_name(v: Class) -> Seq<char> {
    match v {
        Class::Artificer => "Artificer"@,
        Class::Barbarian => "Barbarian"@,
        Class::Bard => "Bard"@,
        Class::Cleric => "Cleric"@,
        Class::Druid => "Druid"@,
        Class::FavoredSoul => "Favored Soul"@,
        Class::Fighter => "Fighter"@,
        Class::Monk => "Monk"@,
        Class::Paladin => "Paladin"@,
        Class::Ranger => "Ranger"@,
        Class::Rogue => "Rogue"@,
        Class::Sorcerer => "Sorcerer"@,
        Class::Warlock => "Warlock"@,
        Class::Wizard => "Wizard"@,
    }
}

impl Race {
    /// Parse one `Race` token.
    pub fn from_str(s: &str) -> (r: Option<Race>)
        ensures
            r == race_of(s@),
    {
        if str_eq(s, "Aasimar") {
            Some(Race::Aasimar)
        } else if str_eq(s, "Aasimar Scourge") {
            Some(Race::AasimarScourge)
        } else if str_eq(s, "Bladeforged") {
            Some(Race::Bladeforged)
        } else if str_eq(s, "Deep Gnome") {
            Some(Race::DeepGnome)
        } else if str_eq(s, "Dragonborn") {
            Some(Race::Dragonborn)
        } else if str_eq(s, "Drow") {
            Some(Race::Drow)
        } else if str_eq(s, "Dwarf") {
            Some(Race::Dwarf)
        } else if str_eq(s, "Elf") {
            Some(Race::Elf)
        } else if str_eq(s, "Gnome") {
            Some(Race::Gnome)
        } else if str_eq(s, "Half-Elf") {
            Some(Race::HalfElf)
        } else if str_eq(s, "Halfing") {
            Some(Race::Halfing)
        } else if str_eq(s, "Half-Orc") {
            Some(Race::HalfOrc)
        } else if str_eq(s, "Human") {
            Some(Race::Human)
        } else if str_eq(s, "Morninglord") {
            Some(Race::Morninglord)
        } else if str_eq(s, "Purple Dragon Knight") {
            Some(Race::PurpleDragonKnight)
        } else if str_eq(s, "Shadar-kai") {
            Some(Race::ShadarKai)
        } else if str_eq(s, "Tiefling") {
            Some(Race::Tiefling)
        } else if str_eq(s, "Tiefling Scoundrel") {
            Some(Race::TieflingScoundrel)
        } else if str_eq(s, "Warforged") {
            Some(Race::Warforged)
        } else if str_eq(s, "Wood Elf") {
            Some(Race::WoodElf)
        } else {
            None
        }
    }

    /// The display name of the race.
    pub fn name(&self) -> (r: String)
        ensures
            r@ == race_name(*self),
    {
        match self {
            Race::Aasimar => String::from_str("Aasimar"),
            Race::AasimarScourge => String::from_str("Aasimar Scourge"),
            Race::Bladeforged => String::from_str("Bladeforged"),
            Race::DeepGnome => String::from_str("Deep Gnome"),
            Race::Dragonborn => String::from_str("Dragonborn"),
            Race::Drow => String::from_str("Drow"),
            Race::Dwarf => String::from_str("Dwarf"),
            Race::Elf => String::from_str("Elf"),
            Race::Gnome => String::from_str("Gnome"),
            Race::HalfElf => String::from_str("Half-Elf"),
            Race::Halfing => String::from_str("Halfing"),
            Race::HalfOrc => String::from_str("Half-Orc"),
            Race::Human => String::from_str("Human"),
            Race::Morninglord => String::from_str("Morninglord"),
            Race::PurpleDragonKnight => String::from_str("Purple Dragon Knight"),
            Race::ShadarKai => String::from_str("Shadar-kai"),
            Race::Tiefling => String::from_str("Tiefling"),
            Race::TieflingScoundrel => String::from_str("Tiefling Scoundrel"),
            Race::Warforged => String::from_str("Warforged"),
            Race::WoodElf => String::from_str("Wood Elf"),
        }
    }
}

impl Alignment {
    /// Parse one `Alignment` token.
    pub fn from_str(s: &str) -> (r: Option<Alignment>)
        ensures
            r == alignment_of(s@),
    {
        if str_eq(s, "Lawful Good") {
            Some(Alignment::LawfulGood)
        } else if str_eq(s, "Lawful Neutral") {
            Some(Alignment::LawfulNeutral)
        } else if str_eq(s, "Neutral Good") {
            Some(Alignment::NeutralGood)
        } else if str_eq(s, "True Neutral") {
            Some(Alignment::TrueNeutral)
        } else if str_eq(s, "Chaotic Good") {
            Some(Alignment::ChaoticGood)
        } else if str_eq(s, "Chaotic Neutral") {
            Some(Alignment::ChaoticNeutral)
        } else {
            None
        }
    }

    /// The display name of the alignment.
    pub fn name(&self) -> (r: String)
        ensures
            r@ == alignment_name(*self),
    {
        match self {
            Alignment::LawfulGood => String::from_str("Lawful Good"),
            Alignment::LawfulNeutral => String::from_str("Lawful Neutral"),
            Alignment::NeutralGood => String::from_str("Neutral Good"),
            Alignment::TrueNeutral => String::from_str("True Neutral"),
            Alignment::ChaoticGood => String::from_str("Chaotic Good"),
            Alignment::ChaoticNeutral => String::from_str("Chaotic Neutral"),
        }
    }
}

impl Class {
    /// Parse one `Class` token.
    pub fn from_str(s: &str) -> (r: Option<Class>)
        ensures
            r == class_of(s@),
    {
        if str_eq(s, "Artificer") {
            Some(Class::Artificer)
        } else if str_eq(s, "Barbarian") {
            Some(Class::Barbarian)
        } else if str_eq(s, "Bard") {
            Some(Class::Bard)
        } else if str_eq(s, "Cleric") {
            Some(Class::Cleric)
        } else if str_eq(s, "Druid") {
            Some(Class::Druid)
        } else if str_eq(s, "Favored Soul") {
            Some(Class::FavoredSoul)
        } else if str_eq(s, "Fighter") {
            Some(Class::Fighter)
        } else if str_eq(s, "Monk") {
            Some(Class::Monk)
        } else if str_eq(s, "Paladin") {
            Some(Class::Paladin)
        } else if str_eq(s, "Ranger") {
            Some(Class::Ranger)
        } else if str_eq(s, "Rogue") {
            Some(Class::Rogue)
        } else if str_eq(s, "Sorcerer") {
            Some(Class::Sorcerer)
        } else if str_eq(s, "Warlock") {
            Some(Class::Warlock)
        } else if str_eq(s, "Wizard") {
            Some(Class::Wizard)
        } else {
            None
        }
    }

    /// The display name of the class.
    pub fn name(&self) -> (r: String)
        ensures
            r@ == class_name(*self),
    {
        match self {
            Class::Artificer => String::from_str("Artificer"),
            Class::Barbarian => String::from_str("Barbarian"),
            Class::Bard => String::from_str("Bard"),
            Class::Cleric => String::from_str("Cleric"),
            Class::Druid => String::from_str("Druid"),
            Class::FavoredSoul => String::from_str("Favored Soul"),
            Class::Fighter => String::from_str("Fighter"),
            Class::Monk => String::from_str("Monk"),
            Class::Paladin => String::from_str("Paladin"),
            Class::Ranger => String::from_str("Ranger"),
            Class::Rogue => String::from_str("Rogue"),
            Class::Sorcerer => String::from_str("Sorcerer"),
            Class::Warlock => String::from_str("Warlock"),
            Class::Wizard => String::from_str("Wizard"),
        }
    }
}

impl BuildType {
    /// Parse one `BuildType` token.
    pub fn from_str(s: &str) -> (r: Option<BuildType>)
        ensures
            r == build_type_of(s@),
    {
        if str_eq(s, "Adventurer") {
            Some(BuildType::Adventurer)
        } else if str_eq(s, "Champion") {
            Some(BuildType::Champion)
        } else if str_eq(s, "Hero") {
            Some(BuildType::Hero)
        } else if str_eq(s, "Legend") {
            Some(BuildType::Legend)
        } else {
            None
        }
    }
}

impl Ability {
    /// Parse one `Ability` token.
    pub fn from_str(s: &str) -> (r: Option<Ability>)
        ensures
            r == ability_of(s@),
    {
        if str_eq(s, "STR") || str_eq(s, "Strength") {
            Some(Ability::Str)
        } else if str_eq(s, "DEX") || str_eq(s, "Dexterity") {
            Some(Ability::Dex)
        } else if str_eq(s, "CON") || str_eq(s, "Constitution") {
            Some(Ability::Con)
        } else if str_eq(s, "INT") || str_eq(s, "Intelligence") {
            Some(Ability::Int)
        } else if str_eq(s, "WIS") || str_eq(s, "Wisdom") {
            Some(Ability::Wis)
        } else if str_eq(s, "CHA") || str_eq(s, "Charisma") {
            Some(Ability::Cha)
        } else {
            None
        }
    }
}

impl BaseFeatType {
    /// Parse one `BaseFeatType` token.
    pub fn from_str(s: &str) -> (r: Option<BaseFeatType>)
        ensures
            r == base_feat_type_of(s@),
    {
        if str_eq(s, "Standard") {
            Some(BaseFeatType::Standard)
        } else if str_eq(s, "Legend") {
            Some(BaseFeatType::Legend)
        } else if str_eq(s, "Class") {
            Some(BaseFeatType::Class)
        } else if str_eq(s, "Race") {
            Some(BaseFeatType::Race)
        } else {
            None
        }
    }
}

impl Skill {
    /// Resolve a 7-character skill-code field by its first three
    /// characters.
    pub fn from_7_chars(code: &str) -> (r: Option<Skill>)
        ensures
            r == skill_of_code(code@),
    {
        let v = chars_of(code);
        if check_prefix(&v, 0, "Bal") {
            Some(Skill::Balance)
        } else if check_prefix(&v, 0, "Blu") {
            Some(Skill::Bluff)
        } else if check_prefix(&v, 0, "Con") {
            Some(Skill::Concentration)
        } else if check_prefix(&v, 0, "Dip") {
            Some(Skill::Diplomacy)
        } else if check_prefix(&v, 0, "Dis") {
            Some(Skill::DisableDevice)
        } else if check_prefix(&v, 0, "Hag") {
            Some(Skill::Haggle)
        } else if check_prefix(&v, 0, "Hea") {
            Some(Skill::Heal)
        } else if check_prefix(&v, 0, "Hid") {
            Some(Skill::Hide)
        } else if check_prefix(&v, 0, "Int") {
            Some(Skill::Intimidate)
        } else if check_prefix(&v, 0, "Jum") {
            Some(Skill::Jump)
        } else if check_prefix(&v, 0, "Lis") {
            Some(Skill::Listen)
        } else if check_prefix(&v, 0, "Mov") {
            Some(Skill::MoveSilently)
        } else if check_prefix(&v, 0, "Ope") {
            Some(Skill::OpenLock)
        } else if check_prefix(&v, 0, "Per") {
            Some(Skill::Perform)
        } else if check_prefix(&v, 0, "Rep") {
            Some(Skill::Repair)
        } else if check_prefix(&v, 0, "Sea") {
            Some(Skill::Search)
        } else if check_prefix(&v, 0, "Spe") {
            Some(Skill::Spellcraft)
        } else if check_prefix(&v, 0, "Spo") {
            Some(Skill::Spot)
        } else if check_prefix(&v, 0, "Swi") {
            Some(Skill::Swim)
        } else if check_prefix(&v, 0, "Tum") {
            Some(Skill::Tumble)
        } else if check_prefix(&v, 0, "UMD") {
            Some(Skill::UseMagicDevice)
        } else {
            None
        }
    }
}

impl Heading {
    /// Resolve a section-header name.
    pub fn from_str(s: &str) -> (r: Option<Heading>)
        ensures
            r == heading_of(s@),
    {
        if str_eq(s, "Overview") {
            Some(Heading::Overview)
        } else if str_eq(s, "Stats") {
            Some(Heading::Stats)
        } else if str_eq(s, "Skills") {
            Some(Heading::Skills)
        } else if str_eq(s, "Feats") {
            Some(Heading::Feats)
        } else if str_eq(s, "Spells") {
            Some(Heading::Spells)
        } else if str_eq(s, "Enhancements") {
            Some(Heading::Enhancements)
        } else {
            None
        }
    }
}

impl EnhancementTreeName {
    /// Resolve an enhancement-tree name or alias.  A bare `Vanguard`
    /// resolves to the Fighter-class variant; the caller disambiguates
    /// through a later `Source:` line where needed.
    #[verifier::rlimit(30)]
    pub fn from_str(s: &str) -> (r: Option<EnhancementTreeName>)
        ensures
            r == tree_name_of(s@),
    {
        if str_eq(s, "Arcanotechnician") {
            Some(EnhancementTreeName::Class(ClassEnhancementTree::Arcanotechnician))
        } else if str_eq(s, "Battle Engineer") {
            Some(EnhancementTreeName::Class(ClassEnhancementTree::BattleEngineer))
        } else if str_eq(s, "Renegade Mastermaker") {
            Some(EnhancementTreeName::Class(ClassEnhancementTree::RenegadeMastermaker))
        } else if str_eq(s, "Frenzied Berserker") {
            Some(EnhancementTreeName::Class(ClassEnhancementTree::FrenziedBerserker))
        } else if str_eq(s, "Occult Slayer") {
            Some(EnhancementTreeName::Class(ClassEnhancementTree::OccultSlayer))
        } else if str_eq(s, "Ravager") {
            Some(EnhancementTreeName::Class(ClassEnhancementTree::Ravager))
        } else if str_eq(s, "Swashbuckler") {
            Some(EnhancementTreeName::Class(ClassEnhancementTree::Swashbuckler))
        } else if str_eq(s, "Spellsinger") {
            Some(EnhancementTreeName::Class(ClassEnhancementTree::Spellsinger))
        } else if str_eq(s, "Warchanter") {
            Some(EnhancementTreeName::Class(ClassEnhancementTree::Warchanter))
        } else if str_eq(s, "Divine Disciple") {
            Some(EnhancementTreeName::Class(ClassEnhancementTree::DivineDisciple))
        } else if str_eq(s, "Radiant Servant") {
            Some(EnhancementTreeName::Class(ClassEnhancementTree::RadiantServant))
        } else if str_eq(s, "Warpriest") {
            Some(EnhancementTreeName::Class(ClassEnhancementTree::Warpriest))
        } else if str_eq(s, "Nature's Warrior") {
            Some(EnhancementTreeName::Class(ClassEnhancementTree::NaturesWarrior))
        } else if str_eq(s, "Nature's Protector") {
            Some(EnhancementTreeName::Class(ClassEnhancementTree::NaturesProtector))
        } else if str_eq(s, "Season's Herald") {
            Some(EnhancementTreeName::Class(ClassEnhancementTree::SeasonsHerald))
        } else if str_eq(s, "Angel of Vengeance") {
            Some(EnhancementTreeName::Class(ClassEnhancementTree::AngelOfVengeance))
        } else if str_eq(s, "Beacon of Hope") {
            Some(EnhancementTreeName::Class(ClassEnhancementTree::BeaconOfHope))
        } else if str_eq(s, "War Soul") {
            Some(EnhancementTreeName::Class(ClassEnhancementTree::WarSoul))
        } else if str_eq(s, "Kensei") {
            Some(EnhancementTreeName::Class(ClassEnhancementTree::Kensei))
        } else if str_eq(s, "Stalwart Defender") {
            Some(EnhancementTreeName::Class(ClassEnhancementTree::StalwartDefender))
        } else if str_eq(s, "Vanguard") || str_eq(s, "Vanguard (Fighter)") {
            Some(EnhancementTreeName::Class(ClassEnhancementTree::VanguardFighter))
        } else if str_eq(s, "Henshin Mystic") {
            Some(EnhancementTreeName::Class(ClassEnhancementTree::HenshinMystic))
        } else if str_eq(s, "Ninja Spy") {
            Some(EnhancementTreeName::Class(ClassEnhancementTree::NinjaSpy))
        } else if str_eq(s, "Shintao") {
            Some(EnhancementTreeName::Class(ClassEnhancementTree::Shintao))
        } else if str_eq(s, "Knight of the Chalice") {
            Some(EnhancementTreeName::Class(ClassEnhancementTree::KnightOfTheChalice))
        } else if str_eq(s, "Sacred Defender") {
            Some(EnhancementTreeName::Class(ClassEnhancementTree::SacredDefender))
        } else if str_eq(s, "Vanguard (Paladin)") {
            Some(EnhancementTreeName::Class(ClassEnhancementTree::VanguardPaladin))
        } else if str_eq(s, "Arcane Archer") {
            Some(EnhancementTreeName::Class(ClassEnhancementTree::ArcaneArcher))
        } else if str_eq(s, "Deepwood Stalker") {
            Some(EnhancementTreeName::Class(ClassEnhancementTree::DeepwoodStalker))
        } else if str_eq(s, "Tempest") {
            Some(EnhancementTreeName::Class(ClassEnhancementTree::Tempest))
        } else if str_eq(s, "Assassin") {
            Some(EnhancementTreeName::Class(ClassEnhancementTree::Assassin))
        } else if str_eq(s, "Mechanic") {
            Some(EnhancementTreeName::Class(ClassEnhancementTree::Mechanic))
        } else if str_eq(s, "Thief-Acrobat") {
            Some(EnhancementTreeName::Class(ClassEnhancementTree::ThiefAcrobat))
        } else if str_eq(s, "Air Savant") {
            Some(EnhancementTreeName::Class(ClassEnhancementTree::AirSavant))
        } else if str_eq(s, "Earth Savant") {
            Some(EnhancementTreeName::Class(ClassEnhancementTree::EarthSavant))
        } else if str_eq(s, "Eldritch Knight (Sorcerer)") {
            Some(EnhancementTreeName::Class(ClassEnhancementTree::EldritchKnightSorcerer))
        } else if str_eq(s, "Fire Savant") {
            Some(EnhancementTreeName::Class(ClassEnhancementTree::FireSavant))
        } else if str_eq(s, "Water Savant") {
            Some(EnhancementTreeName::Class(ClassEnhancementTree::WaterSavant))
        } else if str_eq(s, "Enlightened Spirit") {
            Some(EnhancementTreeName::Class(ClassEnhancementTree::EnlightenedSpirit))
        } else if str_eq(s, "Soul Eater") {
            Some(EnhancementTreeName::Class(ClassEnhancementTree::SoulEater))
        } else if str_eq(s, "Tainted Scholar") {
            Some(EnhancementTreeName::Class(ClassEnhancementTree::TaintedScholar))
        } else if str_eq(s, "Archmage") {
            Some(EnhancementTreeName::Class(ClassEnhancementTree::Archmage))
        } else if str_eq(s, "Eldritch Knight (Wizard)") {
            Some(EnhancementTreeName::Class(ClassEnhancementTree::EldritchKnightWizard))
        } else if str_eq(s, "Pale Master") {
            Some(EnhancementTreeName::Class(ClassEnhancementTree::PaleMaster))
        } else if str_eq(s, "Harper Agent") {
            Some(EnhancementTreeName::Global(GlobalEnhancementTree::HarperAgent))
        } else if str_eq(s, "Falconry") {
            Some(EnhancementTreeName::Global(GlobalEnhancementTree::Falconry))
        } else if str_eq(s, "Vistani Knife Fighter") {
            Some(EnhancementTreeName::Global(GlobalEnhancementTree::VistaniKnifeFighter))
        } else if str_eq(s, "Inquisitive") {
            Some(EnhancementTreeName::Global(GlobalEnhancementTree::Inquisitive))
        } else if str_eq(s, "Elf-Arcane Archer") {
            Some(EnhancementTreeName::RaceClass(RaceClassEnhancementTree::ElfArcaneArcher))
        } else {
            match Race::from_str(s) {
                Some(r) => Some(EnhancementTreeName::Race(r)),
                None => None,
            }
        }
    }
}

/// Resolve the secondary feat category token for a base category.
pub fn secondary_from_str(base: BaseFeatType, s: &str) -> (r: Option<SecondaryFeatType>)
    ensures
        r == secondary_of(base, s@),
{
    match base {
        BaseFeatType::Standard => {
            if str_eq(s, "Heroic") {
                Some(SecondaryFeatType::Heroic)
            } else if str_eq(s, "Epic") {
                Some(SecondaryFeatType::Epic)
            } else if str_eq(s, "Destiny") {
                Some(SecondaryFeatType::Destiny)
            } else {
                None
            }
        },
        BaseFeatType::Legend => {
            if str_eq(s, "Legend") {
                Some(SecondaryFeatType::Legend)
            } else {
                None
            }
        },
        BaseFeatType::Class => {
            match Class::from_str(s) {
                Some(c) => Some(SecondaryFeatType::Class(c)),
                None => None,
            }
        },
        BaseFeatType::Race => {
            match Race::from_str(s) {
                Some(r) => Some(SecondaryFeatType::Race(r)),
                None => None,
            }
        },
    }
}

} // verus!
