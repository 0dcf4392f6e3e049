//! The error taxonomy of the parser.
//!
//! Every error is fatal: the parse aborts at the first one and no partial
//! record is produced.  Each variant carries the offending raw token or
//! value, so a caller can produce a readable diagnostic.

use vstd::prelude::*;

use crate::model::Class;
use vstd::string::{StrSliceExecFns, StringExecFns};

verus! {

#[derive(Debug)]
pub enum ParseError {
    UnknownHeader(String),
    DataBeforeFirstHeader,
    UnknownRace(String),
    NoRace,
    UnknownAlignment(String),
    NoAlignment,
    /// Expected count of per-level class entries, and the count found.
    WrongLevelNumber(u8, usize),
    InvalidMaxLevel(u8),
    TooManyClasses,
    UnknownClass(String),
    InvalidLevelNum(u8),
    LevelsOutOfOrder,
    UndeclaredClass(Class),
    UnknownBuildType(String),
    BadLevelupLevel(usize),
    UnknownAbility(String),
    UnknownSkill(String),
    UnknownBaseFeatType(String),
    UnknownSecondaryFeatType(String),
    InvalidFeatLevel(u8),
    MultipleLegendFeats,
    TooManySpellbooks,
    UnknownEnhancementTree(String),
    WrongEnhancementTreeType,
    EnhancementTreeNotDeclared,
}

/// The mathematical image of a [`ParseError`]: string payloads become
/// character sequences.
pub ghost enum ParseErrorV {
    UnknownHeader(Seq<char>),
    DataBeforeFirstHeader,
    UnknownRace(Seq<char>),
    NoRace,
    UnknownAlignment(Seq<char>),
    NoAlignment,
    WrongLevelNumber(u8, usize),
    InvalidMaxLevel(u8),
    TooManyClasses,
    UnknownClass(Seq<char>),
    InvalidLevelNum(u8),
    LevelsOutOfOrder,
    UndeclaredClass(Class),
    UnknownBuildType(Seq<char>),
    BadLevelupLevel(usize),
    UnknownAbility(Seq<char>),
    UnknownSkill(Seq<char>),
    UnknownBaseFeatType(Seq<char>),
    UnknownSecondaryFeatType(Seq<char>),
    InvalidFeatLevel(u8),
    MultipleLegendFeats,
    TooManySpellbooks,
    UnknownEnhancementTree(Seq<char>),
    WrongEnhancementTreeType,
    EnhancementTreeNotDeclared,
}

impl View for ParseError {
    type V = ParseErrorV;

    open spec fn view(&self) -> ParseErrorV {
        match self {
            ParseError::UnknownHeader(t) => ParseErrorV::UnknownHeader(t@),
            ParseError::DataBeforeFirstHeader => ParseErrorV::DataBeforeFirstHeader,
            ParseError::UnknownRace(t) => ParseErrorV::UnknownRace(t@),
            ParseError::NoRace => ParseErrorV::NoRace,
            ParseError::UnknownAlignment(t) => ParseErrorV::UnknownAlignment(t@),
            ParseError::NoAlignment => ParseErrorV::NoAlignment,
            ParseError::WrongLevelNumber(e, g) => ParseErrorV::WrongLevelNumber(*e, *g),
            ParseError::InvalidMaxLevel(m) => ParseErrorV::InvalidMaxLevel(*m),
            ParseError::TooManyClasses => ParseErrorV::TooManyClasses,
            ParseError::UnknownClass(t) => ParseErrorV::UnknownClass(t@),
            ParseError::InvalidLevelNum(l) => ParseErrorV::InvalidLevelNum(*l),
            ParseError::LevelsOutOfOrder => ParseErrorV::LevelsOutOfOrder,
            ParseError::UndeclaredClass(c) => ParseErrorV::UndeclaredClass(*c),
            ParseError::UnknownBuildType(t) => ParseErrorV::UnknownBuildType(t@),
            ParseError::BadLevelupLevel(l) => ParseErrorV::BadLevelupLevel(*l),
            ParseError::UnknownAbility(t) => ParseErrorV::UnknownAbility(t@),
            ParseError::UnknownSkill(t) => ParseErrorV::UnknownSkill(t@),
            ParseError::UnknownBaseFeatType(t) => ParseErrorV::UnknownBaseFeatType(t@),
            ParseError::UnknownSecondaryFeatType(t) => ParseErrorV::UnknownSecondaryFeatType(t@),
            ParseError::InvalidFeatLevel(l) => ParseErrorV::InvalidFeatLevel(*l),
            ParseError::MultipleLegendFeats => ParseErrorV::MultipleLegendFeats,
            ParseError::TooManySpellbooks => ParseErrorV::TooManySpellbooks,
            ParseError::UnknownEnhancementTree(t) => ParseErrorV::UnknownEnhancementTree(t@),
            ParseError::WrongEnhancementTreeType => ParseErrorV::WrongEnhancementTreeType,
            ParseError::EnhancementTreeNotDeclared => ParseErrorV::EnhancementTreeNotDeclared,
        }
    }
}

/// The decimal digit character for `d`.
pub open spec fn digit_char(d: int) -> char {
    if d == 0 { '0' } else if d == 1 { '1' } else if d == 2 { '2' } else if d == 3 { '3' }
    else if d == 4 { '4' } else if d == 5 { '5' } else if d == 6 { '6' } else if d == 7 { '7' }
    else if d == 8 { '8' } else { '9' }
}

/// The decimal rendering of a nonnegative number, most significant digit
/// first, with no leading zeroes (and `0` rendered as itself).
pub open spec fn dec_digits(n: int) -> Seq<char>
    decreases n,
{
    if n < 10 {
        seq![digit_char(n)]
    } else {
        dec_digits(n / 10) + seq![digit_char(n % 10)]
    }
}

/// One decimal digit as text.
fn digit_str(d: usize) -> (r: &'static str)
    requires
        d <= 9,
    ensures
        r@ == seq![digit_char(d as int)],
{
    proof {
        reveal_strlit("0");
        reveal_strlit("1");
        reveal_strlit("2");
        reveal_strlit("3");
        reveal_strlit("4");
        reveal_strlit("5");
        reveal_strlit("6");
        reveal_strlit("7");
        reveal_strlit("8");
        reveal_strlit("9");
    }
    let r = match d {
        0 => "0",
        1 => "1",
        2 => "2",
        3 => "3",
        4 => "4",
        5 => "5",
        6 => "6",
        7 => "7",
        8 => "8",
        _ => "9",
    };
    proof {
        assert(r@ =~= seq![digit_char(d as int)]);
    }
    r
}

/// Decimal rendering of a number.
fn usize_to_string(n: usize) -> (r: String)
    ensures
        r@ == dec_digits(n as int),
    decreases n,
{
    if n < 10 {
        digit_str(n).to_owned()
    } else {
        let mut s = usize_to_string(n / 10);
        s.append(digit_str(n % 10));
        s
    }
}

/// The variant name of a class, as its debug form spells it.
pub open spec fn class_debug_name(c: Class) -> Seq<char> {
    match c {
        Class::Artificer => "Artificer"@,
        Class::Barbarian => "Barbarian"@,
        Class::Bard => "Bard"@,
        Class::Cleric => "Cleric"@,
        Class::Druid => "Druid"@,
        Class::FavoredSoul => "FavoredSoul"@,
        Class::Fighter => "Fighter"@,
        Class::Monk => "Monk"@,
        Class::Paladin => "Paladin"@,
        Class::Ranger => "Ranger"@,
        Class::Rogue => "Rogue"@,
        Class::Sorcerer => "Sorcerer"@,
        Class::Warlock => "Warlock"@,
        Class::Wizard => "Wizard"@,
    }
}

fn class_debug_str(c: Class) -> (r: &'static str)
    ensures
        r@ == class_debug_name(c),
{
    match c {
        Class::Artificer => "Artificer",
        Class::Barbarian => "Barbarian",
        Class::Bard => "Bard",
        Class::Cleric => "Cleric",
        Class::Druid => "Druid",
        Class::FavoredSoul => "FavoredSoul",
        Class::Fighter => "Fighter",
        Class::Monk => "Monk",
        Class::Paladin => "Paladin",
        Class::Ranger => "Ranger",
        Class::Rogue => "Rogue",
        Class::Sorcerer => "Sorcerer",
        Class::Warlock => "Warlock",
        Class::Wizard => "Wizard",
    }
}

/// The one-line diagnostic for each error.
pub open spec fn message_of(e: ParseErrorV) -> Seq<char> {
    match e {
        ParseErrorV::UnknownHeader(h) => "Unknown header: ["@ + h + "]"@,
        ParseErrorV::DataBeforeFirstHeader => "Data found before first header"@,
        ParseErrorV::UnknownRace(t) => "Unknown race: "@ + t,
        ParseErrorV::NoRace => "No race specified"@,
        ParseErrorV::UnknownAlignment(t) => "Unknown alignment: "@ + t,
        ParseErrorV::NoAlignment => "No alignment specified"@,
        ParseErrorV::WrongLevelNumber(e2, g) => "Wrong number of class levels; expected "@
            + dec_digits(e2 as int) + ", got "@ + dec_digits(g as int),
        ParseErrorV::InvalidMaxLevel(m) => "Invalid max level: "@ + dec_digits(m as int),
        ParseErrorV::TooManyClasses => "More than three classes specified"@,
        ParseErrorV::UnknownClass(t) => "Unknown class: "@ + t,
        ParseErrorV::InvalidLevelNum(l) => "Invalid level number: "@ + dec_digits(l as int),
        ParseErrorV::LevelsOutOfOrder => "Levels are listed out of order"@,
        ParseErrorV::UndeclaredClass(c) => "Undeclared class: "@ + class_debug_name(c),
        ParseErrorV::UnknownBuildType(t) => "Unknown build type: "@ + t,
        ParseErrorV::BadLevelupLevel(l) => "Bad ability score increase level: "@ + dec_digits(
            l as int,
        ),
        ParseErrorV::UnknownAbility(t) => "Unknown ability: "@ + t,
        ParseErrorV::UnknownSkill(t) => "Unknown skill: "@ + t,
        ParseErrorV::UnknownBaseFeatType(t) => "Unknown base feat type: "@ + t,
        ParseErrorV::UnknownSecondaryFeatType(t) => "Unknown secondary feat type: "@ + t,
        ParseErrorV::InvalidFeatLevel(l) => "Invalid feat level: "@ + dec_digits(l as int),
        ParseErrorV::MultipleLegendFeats => "Multiple Legend feats"@,
        ParseErrorV::TooManySpellbooks =>
            "Too many spellbooks (a build can have -- at most -- three)"@,
        ParseErrorV::UnknownEnhancementTree(t) => "Unknown enhancement tree: "@ + t,
        ParseErrorV::WrongEnhancementTreeType => "Wrong enhancement tree type"@,
        ParseErrorV::EnhancementTreeNotDeclared => "Enhancement tree not declared"@,
    }
}

impl ParseError {
    /// The human-readable diagnostic for this error, naming the offending
    /// token or value.
    pub fn message(&self) -> (r: String)
        ensures
            r@ == message_of(self@),
    {
        match self {
            ParseError::UnknownHeader(h) => {
                let mut s = String::from_str("Unknown header: [");
                s.append(h.as_str());
                s.append("]");
                s
            },
            ParseError::DataBeforeFirstHeader => String::from_str(
                "Data found before first header",
            ),
            ParseError::UnknownRace(t) => {
                let mut s = String::from_str("Unknown race: ");
                s.append(t.as_str());
                s
            },
            ParseError::NoRace => String::from_str("No race specified"),
            ParseError::UnknownAlignment(t) => {
                let mut s = String::from_str("Unknown alignment: ");
                s.append(t.as_str());
                s
            },
            ParseError::NoAlignment => String::from_str("No alignment specified"),
            ParseError::WrongLevelNumber(e2, g) => {
                let mut s = String::from_str("Wrong number of class levels; expected ");
                s.append(usize_to_string(*e2 as usize).as_str());
                s.append(", got ");
                s.append(usize_to_string(*g).as_str());
                s
            },
            ParseError::InvalidMaxLevel(m) => {
                let mut s = String::from_str("Invalid max level: ");
                s.append(usize_to_string(*m as usize).as_str());
                s
            },
            ParseError::TooManyClasses => String::from_str("More than three classes specified"),
            ParseError::UnknownClass(t) => {
                let mut s = String::from_str("Unknown class: ");
                s.append(t.as_str());
                s
            },
            ParseError::InvalidLevelNum(l) => {
                let mut s = String::from_str("Invalid level number: ");
                s.append(usize_to_string(*l as usize).as_str());
                s
            },
            ParseError::LevelsOutOfOrder => String::from_str("Levels are listed out of order"),
            ParseError::UndeclaredClass(c) => {
                let mut s = String::from_str("Undeclared class: ");
                s.append(class_debug_str(*c));
                s
            },
            ParseError::UnknownBuildType(t) => {
                let mut s = String::from_str("Unknown build type: ");
                s.append(t.as_str());
                s
            },
            ParseError::BadLevelupLevel(l) => {
                let mut s = String::from_str("Bad ability score increase level: ");
                s.append(usize_to_string(*l).as_str());
                s
            },
            ParseError::UnknownAbility(t) => {
                let mut s = String::from_str("Unknown ability: ");
                s.append(t.as_str());
                s
            },
            ParseError::UnknownSkill(t) => {
                let mut s = String::from_str("Unknown skill: ");
                s.append(t.as_str());
                s
            },
            ParseError::UnknownBaseFeatType(t) => {
                let mut s = String::from_str("Unknown base feat type: ");
                s.append(t.as_str());
                s
            },
            ParseError::UnknownSecondaryFeatType(t) => {
                let mut s = String::from_str("Unknown secondary feat type: ");
                s.append(t.as_str());
                s
            },
            ParseError::InvalidFeatLevel(l) => {
                let mut s = String::from_str("Invalid feat level: ");
                s.append(usize_to_string(*l as usize).as_str());
                s
            },
            ParseError::MultipleLegendFeats => String::from_str("Multiple Legend feats"),
            ParseError::TooManySpellbooks => String::from_str(
                "Too many spellbooks (a build can have -- at most -- three)",
            ),
            ParseError::UnknownEnhancementTree(t) => {
                let mut s = String::from_str("Unknown enhancement tree: ");
                s.append(t.as_str());
                s
            },
            ParseError::WrongEnhancementTreeType => String::from_str(
                "Wrong enhancement tree type",
            ),
            ParseError::EnhancementTreeNotDeclared => String::from_str(
                "Enhancement tree not declared",
            ),
        }
    }
}

} // verus!
