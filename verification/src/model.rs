//! The data model: the finalized, immutable record of one character build,
//! and the pieces it aggregates.
//!
//! Every aggregate type has a mathematical view (`@`): strings become
//! `Seq<char>`, vectors become `Seq`, and the two hash tables become
//! `Map`s.  The parser's contracts are stated over these views.

use vstd::prelude::*;

use crate::tables::{SkillTable, SkillTomeTable, TreeTable};
use crate::tables::{skill_table_view, skill_tome_view, tree_table_view};

verus! {

// ---------------------------------------------------------------------
// Closed enumerations
// ---------------------------------------------------------------------

#[derive(Clone, Copy, Debug, PartialEq, Eq, Hash, Structural)]
pub enum Race {
    Aasimar,
    AasimarScourge,
    Bladeforged,
    DeepGnome,
    Dragonborn,
    Drow,
    Dwarf,
    Elf,
    Gnome,
    HalfElf,
    Halfing,
    HalfOrc,
    Human,
    Morninglord,
    PurpleDragonKnight,
    ShadarKai,
    Tiefling,
    TieflingScoundrel,
    Warforged,
    WoodElf,
}

#[derive(Clone, Copy, Debug, PartialEq, Eq, Structural)]
pub enum Alignment {
    LawfulGood,
    LawfulNeutral,
    NeutralGood,
    TrueNeutral,
    ChaoticGood,
    ChaoticNeutral,
}

#[derive(Clone, Copy, Debug, PartialEq, Eq, Hash, Structural)]
pub enum Class {
    Artificer,
    Barbarian,
    Bard,
    Cleric,
    Druid,
    FavoredSoul,
    Fighter,
    Monk,
    Paladin,
    Ranger,
    Rogue,
    Sorcerer,
    Warlock,
    Wizard,
}

#[derive(Clone, Copy, Debug, PartialEq, Eq, Structural)]
pub enum BuildType {
    Adventurer,
    Champion,
    Hero,
    Legend,
}

#[derive(Clone, Copy, Debug, PartialEq, Eq, Structural)]
pub enum Ability {
    Str,
    Dex,
    Con,
    Int,
    Wis,
    Cha,
}

#[derive(Clone, Copy, Debug, PartialEq, Eq, Hash, Structural)]
pub enum Skill {
    Balance,
    Bluff,
    Concentration,
    Diplomacy,
    DisableDevice,
    Haggle,
    Heal,
    Hide,
    Intimidate,
    Jump,
    Listen,
    MoveSilently,
    OpenLock,
    Perform,
    Repair,
    Search,
    Spellcraft,
    Spot,
    Swim,
    Tumble,
    UseMagicDevice,
}

#[derive(Clone, Copy, Debug, PartialEq, Eq, Structural)]
pub enum BaseFeatType {
    Standard,
    Legend,
    Class,
    Race,
}

#[derive(Clone, Copy, Debug, PartialEq, Eq, Structural)]
pub enum SecondaryFeatType {
    Heroic,
    Epic,
    Destiny,
    Legend,
    Class(Class),
    Race(Race),
}

#[derive(Clone, Copy, Debug, PartialEq, Eq, Hash, Structural)]
pub enum ClassEnhancementTree {
    Arcanotechnician,
    BattleEngineer,
    RenegadeMastermaker,
    FrenziedBerserker,
    OccultSlayer,
    Ravager,
    Swashbuckler,
    Spellsinger,
    Warchanter,
    DivineDisciple,
    RadiantServant,
    Warpriest,
    NaturesWarrior,
    NaturesProtector,
    SeasonsHerald,
    AngelOfVengeance,
    BeaconOfHope,
    WarSoul,
    Kensei,
    StalwartDefender,
    VanguardFighter,
    HenshinMystic,
    NinjaSpy,
    Shintao,
    KnightOfTheChalice,
    SacredDefender,
    VanguardPaladin,
    ArcaneArcher,
    DeepwoodStalker,
    Tempest,
    Assassin,
    Mechanic,
    ThiefAcrobat,
    AirSavant,
    EarthSavant,
    EldritchKnightSorcerer,
    FireSavant,
    WaterSavant,
    EnlightenedSpirit,
    SoulEater,
    TaintedScholar,
    Archmage,
    EldritchKnightWizard,
    PaleMaster,
}

#[derive(Clone, Copy, Debug, PartialEq, Eq, Hash, Structural)]
pub enum GlobalEnhancementTree {
    HarperAgent,
    Falconry,
    VistaniKnifeFighter,
    Inquisitive,
}

#[derive(Clone, Copy, Debug, PartialEq, Eq, Hash, Structural)]
pub enum RaceClassEnhancementTree {
    ElfArcaneArcher,
}

#[derive(Clone, Copy, Debug, PartialEq, Eq, Hash, Structural)]
pub enum EnhancementTreeName {
    Class(ClassEnhancementTree),
    Race(Race),
    Global(GlobalEnhancementTree),
    RaceClass(RaceClassEnhancementTree),
}

/// The section a data line belongs to.  `NoSection` is the state before
/// the first header; data lines there are a fatal error.
#[derive(Clone, Copy, Debug, PartialEq, Eq, Structural)]
pub enum Heading {
    NoSection,
    Overview,
    Stats,
    Skills,
    Feats,
    Spells,
    Enhancements,
}

// ---------------------------------------------------------------------
// Stats
// ---------------------------------------------------------------------

/// Number of build points spent on each ability (or, for the tome record,
/// the tome bonus values).
#[derive(Clone, Copy, Debug, PartialEq, Eq, Structural)]
pub struct Stats {
    pub str_pts: u8,
    pub dex_pts: u8,
    pub con_pts: u8,
    pub int_pts: u8,
    pub wis_pts: u8,
    pub cha_pts: u8,
}

impl Stats {
    pub open spec fn spec_get(self, ability: Ability) -> u8 {
        match ability {
            Ability::Str => self.str_pts,
            Ability::Dex => self.dex_pts,
            Ability::Con => self.con_pts,
            Ability::Int => self.int_pts,
            Ability::Wis => self.wis_pts,
            Ability::Cha => self.cha_pts,
        }
    }

    pub open spec fn spec_set(self, ability: Ability, v: u8) -> Stats {
        match ability {
            Ability::Str => Stats { str_pts: v, ..self },
            Ability::Dex => Stats { dex_pts: v, ..self },
            Ability::Con => Stats { con_pts: v, ..self },
            Ability::Int => Stats { int_pts: v, ..self },
            Ability::Wis => Stats { wis_pts: v, ..self },
            Ability::Cha => Stats { cha_pts: v, ..self },
        }
    }

    pub open spec fn spec_zero() -> Stats {
        Stats { str_pts: 0, dex_pts: 0, con_pts: 0, int_pts: 0, wis_pts: 0, cha_pts: 0 }
    }

    pub fn new(str_pts: u8, dex_pts: u8, con_pts: u8, int_pts: u8, wis_pts: u8, cha_pts: u8) -> (r:
        Stats)
        ensures
            r == (Stats { str_pts, dex_pts, con_pts, int_pts, wis_pts, cha_pts }),
    {
        Stats { str_pts, dex_pts, con_pts, int_pts, wis_pts, cha_pts }
    }

    /// Points spent on (or tome bonus for) one ability.
    pub fn get(&self, ability: Ability) -> (r: u8)
        ensures
            r == self.spec_get(ability),
    {
        match ability {
            Ability::Str => self.str_pts,
            Ability::Dex => self.dex_pts,
            Ability::Con => self.con_pts,
            Ability::Int => self.int_pts,
            Ability::Wis => self.wis_pts,
            Ability::Cha => self.cha_pts,
        }
    }

    /// Overwrite the entry for one ability, leaving the other five alone.
    pub fn set(&mut self, ability: Ability, v: u8)
        ensures
            *final(self) == old(self).spec_set(ability, v),
    {
        match ability {
            Ability::Str => self.str_pts = v,
            Ability::Dex => self.dex_pts = v,
            Ability::Con => self.con_pts = v,
            Ability::Int => self.int_pts = v,
            Ability::Wis => self.wis_pts = v,
            Ability::Cha => self.cha_pts = v,
        }
    }
}

impl Default for Stats {
    fn default() -> (r: Stats)
        ensures
            r == Stats::spec_zero(),
    {
        Stats { str_pts: 0, dex_pts: 0, con_pts: 0, int_pts: 0, wis_pts: 0, cha_pts: 0 }
    }
}

// ---------------------------------------------------------------------
// Skills
// ---------------------------------------------------------------------

/// The mathematical contents of a [`Skills`] record.
pub ghost struct SkillsV {
    /// Points put into each skill at each of the 20 levels.  A missing key
    /// means no points were ever spent on that skill.
    pub table: Map<Skill, Seq<u8>>,
    /// Skill tome values.  A missing key means no tome was eaten.
    pub tomes: Map<Skill, u8>,
}

/// Per-skill point spending and tome bonuses.
#[derive(Debug)]
pub struct Skills {
    skill_table: SkillTable,
    skill_tomes: SkillTomeTable,
}

impl View for Skills {
    type V = SkillsV;

    closed spec fn view(&self) -> SkillsV {
        SkillsV {
            table: skill_table_view(self.skill_table),
            tomes: skill_tome_view(self.skill_tomes),
        }
    }
}

impl Skills {
    pub fn new() -> (r: Skills)
        ensures
            r@.table == Map::<Skill, Seq<u8>>::empty(),
            r@.tomes == Map::<Skill, u8>::empty(),
    {
        Skills { skill_table: SkillTable::new(), skill_tomes: SkillTomeTable::new() }
    }

    /// Points spent in the given skill for levels 1 through 20, or `None`
    /// if no points were ever spent on it.
    pub fn points_in_skill(&self, skill: Skill) -> (r: Option<&Vec<u8>>)
        ensures
            match r {
                Some(points) => self@.table.dom().contains(skill) && points@ == self@.table[skill],
                None => !self@.table.dom().contains(skill),
            },
    {
        self.skill_table.get(skill)
    }

    /// Points spent on the given skill at the given level index (0 through
    /// 19); zero if the skill has no entry.
    pub fn points_in_skill_at_level(&self, skill: Skill, level: usize) -> (r: u8)
        requires
            level < 20,
        ensures
            r == (if self@.table.dom().contains(skill) && self@.table[skill].len() == 20 {
                self@.table[skill][level as int]
            } else {
                0
            }),
    {
        match self.skill_table.get(skill) {
            Some(points) => {
                if points.len() == 20 {
                    points[level]
                } else {
                    0
                }
            },
            None => 0,
        }
    }

    /// The value of the skill tome eaten for the given skill; zero if none.
    pub fn tome(&self, skill: Skill) -> (r: u8)
        ensures
            r == (if self@.tomes.dom().contains(skill) {
                self@.tomes[skill]
            } else {
                0
            }),
    {
        match self.skill_tomes.get(skill) {
            Some(v) => v,
            None => 0,
        }
    }

    /// Record the per-level point spending for one skill.
    pub fn set_points(&mut self, skill: Skill, points: Vec<u8>)
        ensures
            final(self)@.table == old(self)@.table.insert(skill, points@),
            final(self)@.tomes == old(self)@.tomes,
    {
        self.skill_table.insert(skill, points);
    }

    /// Record the tome bonus for one skill.
    pub fn set_tome(&mut self, skill: Skill, v: u8)
        ensures
            final(self)@.tomes == old(self)@.tomes.insert(skill, v),
            final(self)@.table == old(self)@.table,
    {
        self.skill_tomes.insert(skill, v);
    }

    /// Contents equality.
    pub fn equals(&self, other: &Skills) -> (r: bool)
        ensures
            r == (self@ == other@),
    {
        let t = self.skill_table.eq_view(&other.skill_table);
        let m = self.skill_tomes.eq_view(&other.skill_tomes);
        t && m
    }
}

// ---------------------------------------------------------------------
// Feats
// ---------------------------------------------------------------------

pub ghost struct FeatV {
    pub secondary_type: SecondaryFeatType,
    pub level: u8,
    pub name: Seq<char>,
}

#[derive(Debug)]
pub struct Feat {
    pub secondary_type: SecondaryFeatType,
    /// For class feats this is the level of the granting class when the
    /// feat is gained, not the character level.
    pub level: u8,
    pub name: String,
}

impl View for Feat {
    type V = FeatV;

    open spec fn view(&self) -> FeatV {
        FeatV { secondary_type: self.secondary_type, level: self.level, name: self.name@ }
    }
}

impl Feat {
    pub fn new(secondary_type: SecondaryFeatType, level: u8, name: String) -> (r: Feat)
        ensures
            r@ == (FeatV { secondary_type, level, name: name@ }),
    {
        Feat { secondary_type, level, name }
    }
}

/// The view of a feat list.
pub open spec fn feats_seq_view(v: Seq<Feat>) -> Seq<FeatV> {
    v.map_values(|f: Feat| f@)
}

pub ghost struct FeatsV {
    pub standard_feats: Seq<FeatV>,
    pub legend_feats: Option<FeatV>,
    pub class_feats: Seq<FeatV>,
    pub race_feats: Seq<FeatV>,
}

#[derive(Debug)]
pub struct Feats {
    pub standard_feats: Vec<Feat>,
    pub legend_feats: Option<Feat>,
    pub class_feats: Vec<Feat>,
    pub race_feats: Vec<Feat>,
}

impl View for Feats {
    type V = FeatsV;

    open spec fn view(&self) -> FeatsV {
        FeatsV {
            standard_feats: feats_seq_view(self.standard_feats@),
            legend_feats: match self.legend_feats {
                Some(f) => Some(f@),
                None => None,
            },
            class_feats: feats_seq_view(self.class_feats@),
            race_feats: feats_seq_view(self.race_feats@),
        }
    }
}

impl Feats {
    pub fn new() -> (r: Feats)
        ensures
            r@.standard_feats == Seq::<FeatV>::empty(),
            r@.legend_feats is None,
            r@.class_feats == Seq::<FeatV>::empty(),
            r@.race_feats == Seq::<FeatV>::empty(),
    {
        let r = Feats {
            standard_feats: Vec::new(),
            legend_feats: None,
            class_feats: Vec::new(),
            race_feats: Vec::new(),
        };
        proof {
            assert(feats_seq_view(r.standard_feats@) =~= Seq::<FeatV>::empty());
            assert(feats_seq_view(r.class_feats@) =~= Seq::<FeatV>::empty());
            assert(feats_seq_view(r.race_feats@) =~= Seq::<FeatV>::empty());
        }
        r
    }
}

// ---------------------------------------------------------------------
// Spells
// ---------------------------------------------------------------------

pub ghost struct SpellbookV {
    pub class: Class,
    pub spells_by_level: Seq<Seq<Option<Seq<char>>>>,
}

/// The memorized spells of one spellcasting class.
#[derive(Debug)]
pub struct Spellbook {
    pub class: Class,
    /// Indexed by `level - 1` for spell levels 1 through 9.  Each inner
    /// vector lists the slots of that level in display order; a `None`
    /// slot is a spell slot left unfilled.
    pub spells_by_level: Vec<Vec<Option<String>>>,
}

impl View for Spellbook {
    type V = SpellbookV;

    open spec fn view(&self) -> SpellbookV {
        SpellbookV { class: self.class, spells_by_level: self.spells_by_level.deep_view() }
    }
}

/// The view of the spellbook list.
pub open spec fn spellbooks_view(v: Seq<Spellbook>) -> Seq<SpellbookV> {
    v.map_values(|b: Spellbook| b@)
}

/// Up to three spellbooks, one per distinct spellcasting class.
#[derive(Debug)]
pub struct Spells {
    pub spellbooks: Vec<Spellbook>,
}

impl View for Spells {
    type V = Seq<SpellbookV>;

    open spec fn view(&self) -> Seq<SpellbookV> {
        spellbooks_view(self.spellbooks@)
    }
}

/// Index of the first spellbook for `class`, scanning from `i`; `-1` if
/// there is none.
pub open spec fn spec_book_index(books: Seq<SpellbookV>, class: Class, i: int) -> int
    decreases books.len() - i,
{
    if i < 0 || i >= books.len() {
        -1
    } else if books[i].class == class {
        i
    } else {
        spec_book_index(books, class, i + 1)
    }
}

/// `book` with its per-level lists grown (with empty lists) so that spell
/// level `level` exists, and `slot` appended to that level's list.
pub open spec fn spec_book_with_slot(book: SpellbookV, level: int, slot: Option<Seq<char>>)
    -> SpellbookV {
    let grown = if book.spells_by_level.len() < level {
        book.spells_by_level + Seq::new(
            (level - book.spells_by_level.len()) as nat,
            |i: int| Seq::<Option<Seq<char>>>::empty(),
        )
    } else {
        book.spells_by_level
    };
    SpellbookV {
        class: book.class,
        spells_by_level: grown.update(level - 1, grown[level - 1].push(slot)),
    }
}

/// What inserting one spell slot does to the spellbook list: the slot goes
/// into the first book of its class, a new book is started if there is
/// none and fewer than three exist, and otherwise the insert fails.
pub open spec fn spec_spells_insert(
    books: Seq<SpellbookV>,
    class: Class,
    level: int,
    slot: Option<Seq<char>>,
) -> Option<Seq<SpellbookV>> {
    let i = spec_book_index(books, class, 0);
    if i >= 0 {
        Some(books.update(i, spec_book_with_slot(books[i], level, slot)))
    } else if books.len() < 3 {
        Some(
            books.push(
                spec_book_with_slot(
                    SpellbookV { class, spells_by_level: Seq::empty() },
                    level,
                    slot,
                ),
            ),
        )
    } else {
        None
    }
}

/// Grow `book` so spell level `level` exists and append one slot there.
fn book_add_slot(book: &mut Spellbook, level: usize, name: Option<String>)
    requires
        1 <= level <= 9,
    ensures
        final(book)@ == spec_book_with_slot(old(book)@, level as int, name.deep_view()),
{
    let ghost bookv0 = book@;
    while book.spells_by_level.len() < level
        invariant
            1 <= level <= 9,
            book.class == bookv0.class,
            book@.spells_by_level.len() == book.spells_by_level@.len(),
            book@.spells_by_level.len() <= if bookv0.spells_by_level.len() < level {
                level as int
            } else {
                bookv0.spells_by_level.len() as int
            },
            book@.spells_by_level == bookv0.spells_by_level + Seq::new(
                (book@.spells_by_level.len() - bookv0.spells_by_level.len()) as nat,
                |k: int| Seq::<Option<Seq<char>>>::empty(),
            ),
        decreases level - book.spells_by_level.len(),
    {
        let ghost prev = book@.spells_by_level;
        book.spells_by_level.push(Vec::new());
        proof {
            assert(book@.spells_by_level =~~= prev.push(Seq::<Option<Seq<char>>>::empty()));
            assert(book@.spells_by_level =~~= bookv0.spells_by_level + Seq::new(
                (prev.len() + 1 - bookv0.spells_by_level.len()) as nat,
                |k: int| Seq::<Option<Seq<char>>>::empty(),
            ));
        }
    }
    let ghost grown = book@.spells_by_level;
    proof {
        assert(grown =~~= if bookv0.spells_by_level.len() < level {
            bookv0.spells_by_level + Seq::new(
                (level - bookv0.spells_by_level.len()) as nat,
                |i: int| Seq::<Option<Seq<char>>>::empty(),
            )
        } else {
            bookv0.spells_by_level
        });
    }
    let ghost namev = name.deep_view();
    let ghost vecs_before = book.spells_by_level@;
    let slot_list = &mut book.spells_by_level[level - 1];
    let ghost dv_before = slot_list.deep_view();
    slot_list.push(name);
    proof {
        assert(slot_list.deep_view() =~~= dv_before.push(namev));
    }
    proof {
        assert(dv_before == grown[level - 1]);
        assert(book@.spells_by_level =~~= grown.update(level - 1, grown[level - 1].push(namev)))
            by {
            assert(book.spells_by_level@ == vecs_before.update(
                level - 1,
                book.spells_by_level@[level - 1],
            ));
        }
        assert(book@ == spec_book_with_slot(bookv0, level as int, namev));
    }
}

impl Spells {
    pub fn new() -> (r: Spells)
        ensures
            r@ == Seq::<SpellbookV>::empty(),
    {
        let r = Spells { spellbooks: Vec::new() };
        proof {
            assert(spellbooks_view(r.spellbooks@) =~= Seq::<SpellbookV>::empty());
        }
        r
    }

    /// Append one spell slot (a name, or `None` for an unfilled slot) to
    /// the book of the given class at the given spell level, creating the
    /// book if needed.  Fails exactly when the slot belongs to a fourth
    /// distinct class.
    pub fn insert(&mut self, class: Class, level: usize, name: Option<String>) -> (r: Result<
        (),
        (),
    >)
        requires
            1 <= level <= 9,
            name matches Some(s) ==> s@.len() > 0,
        ensures
            match r {
                Ok(()) => spec_spells_insert(old(self)@, class, level as int, name.deep_view())
                    == Some(final(self)@),
                Err(()) => {
                    &&& spec_spells_insert(old(self)@, class, level as int, name.deep_view())
                        is None
                    &&& final(self)@ == old(self)@
                },
            },
    {
        let ghost books0 = self@;
        let n = self.spellbooks.len();
        let mut i: usize = 0;
        while i < n && !(self.spellbooks[i].class == class)
            invariant
                0 <= i <= n == self.spellbooks@.len(),
                self@ == books0,
                books0.len() == n,
                spec_book_index(books0, class, 0) == spec_book_index(books0, class, i as int),
                i < n ==> books0[i as int].class == self.spellbooks@[i as int].class,
            decreases n - i,
        {
            proof {
                assert(books0[i as int] == self.spellbooks@[i as int]@);
                assert(books0[i as int].class != class);
                assert(spec_book_index(books0, class, i as int) == spec_book_index(
                    books0,
                    class,
                    i + 1,
                ));
                if i + 1 < n {
                    assert(books0[i + 1] == self.spellbooks@[i + 1]@);
                }
            }
            i = i + 1;
        }
        if i < n {
            // An existing book of this class: grow it and append the slot.
            proof {
                assert(books0[i as int] == self.spellbooks@[i as int]@);
                assert(spec_book_index(books0, class, i as int) == i as int);
            }
            let mut book = self.spellbooks.remove(i);
            let ghost bookv0 = book@;
            book_add_slot(&mut book, level, name);
            self.spellbooks.insert(i, book);
            proof {
                assert(self.spellbooks@ =~= old(self).spellbooks@.update(i as int, book));
                assert(self@ =~= books0.update(i as int, book@));
            }
            Ok(())
        } else if n < 3 {
            // No book of this class yet: start one.
            proof {
                assert(spec_book_index(books0, class, i as int) == -1);
            }
            let mut book = Spellbook { class, spells_by_level: Vec::new() };
            proof {
                assert(book@.spells_by_level =~= Seq::<Seq<Option<Seq<char>>>>::empty());
                assert(book@ == (SpellbookV { class, spells_by_level: Seq::empty() }));
            }
            book_add_slot(&mut book, level, name);
            self.spellbooks.push(book);
            proof {
                assert(self@ =~= books0.push(book@));
            }
            Ok(())
        } else {
            proof {
                assert(spec_book_index(books0, class, i as int) == -1);
            }
            Err(())
        }
    }
}

// ---------------------------------------------------------------------
// Enhancements
// ---------------------------------------------------------------------

pub ghost struct EnhancementV {
    pub name: Seq<char>,
    pub subenhancement: Option<Seq<char>>,
    pub rank: Option<u8>,
}

/// One selected enhancement: a name, an optional second-part name, and an
/// optional rank.  A rank, when present, is between 1 and 3.
#[derive(Debug, PartialEq, Eq)]
pub struct Enhancement {
    pub name: String,
    pub subenhancement: Option<String>,
    pub rank: Option<u8>,
}

impl View for Enhancement {
    type V = EnhancementV;

    open spec fn view(&self) -> EnhancementV {
        EnhancementV {
            name: self.name@,
            subenhancement: self.subenhancement.deep_view(),
            rank: self.rank,
        }
    }
}

impl Enhancement {
    pub fn new(name: String, subenhancement: Option<String>, rank: Option<u8>) -> (r: Enhancement)
        ensures
            r@ == (EnhancementV {
                name: name@,
                subenhancement: subenhancement.deep_view(),
                rank,
            }),
    {
        Enhancement { name, subenhancement, rank }
    }
}

/// The view of one tier: the views of its entries, in order.
pub open spec fn tier_view(t: Vec<Enhancement>) -> Seq<EnhancementV> {
    t@.map_values(|e: Enhancement| e@)
}

/// The view of one enhancement tree: six tiers, each an ordered list of
/// selected entries (tier 0 holds the core entries).
pub open spec fn tree_view(tiers: Seq<Vec<Enhancement>>) -> Seq<Seq<EnhancementV>> {
    tiers.map_values(|t: Vec<Enhancement>| tier_view(t))
}

/// The six tiers of one enhancement tree.
#[derive(Debug, PartialEq, Eq)]
pub struct EnhancementTree {
    /// Indexed by tier; tier 0 holds the "core" enhancements.
    pub tiers: Vec<Vec<Enhancement>>,
}

impl View for EnhancementTree {
    type V = Seq<Seq<EnhancementV>>;

    open spec fn view(&self) -> Seq<Seq<EnhancementV>> {
        tree_view(self.tiers@)
    }
}

/// The view of an empty tree: six empty tiers.
pub open spec fn spec_empty_tree() -> Seq<Seq<EnhancementV>> {
    Seq::new(6, |i: int| Seq::<EnhancementV>::empty())
}

impl EnhancementTree {
    pub fn new() -> (r: EnhancementTree)
        ensures
            r@ == spec_empty_tree(),
    {
        let mut tiers: Vec<Vec<Enhancement>> = Vec::new();
        let mut k: usize = 0;
        while k < 6
            invariant
                0 <= k <= 6,
                tiers@.len() == k,
                forall|i: int| 0 <= i < k ==> tiers@[i]@.len() == 0,
            decreases 6 - k,
        {
            tiers.push(Vec::new());
            k = k + 1;
        }
        let r = EnhancementTree { tiers };
        proof {
            assert(r@ =~= spec_empty_tree()) by {
                assert forall|i: int| 0 <= i < 6 implies r@[i] =~= Seq::<EnhancementV>::empty() by {
                    assert(r.tiers@[i]@.len() == 0);
                }
            }
        }
        r
    }
}

/// `tree` with `e` appended to tier `tier`.
pub open spec fn spec_tree_push(tree: Seq<Seq<EnhancementV>>, tier: int, e: EnhancementV)
    -> Seq<Seq<EnhancementV>> {
    tree.update(tier, tree[tier].push(e))
}

/// All selected enhancement trees, keyed by tree identifier.
#[derive(Debug)]
pub struct Enhancements {
    trees: TreeTable,
}

impl View for Enhancements {
    type V = Map<EnhancementTreeName, Seq<Seq<EnhancementV>>>;

    closed spec fn view(&self) -> Map<EnhancementTreeName, Seq<Seq<EnhancementV>>> {
        tree_table_view(self.trees)
    }
}

impl Enhancements {
    pub fn new() -> (r: Enhancements)
        ensures
            r@ == Map::<EnhancementTreeName, Seq<Seq<EnhancementV>>>::empty(),
    {
        Enhancements { trees: TreeTable::new() }
    }

    /// The recorded tree for one tree identifier, if any.
    pub fn tree(&self, tree_name: EnhancementTreeName) -> (r: Option<&EnhancementTree>)
        ensures
            match r {
                Some(t) => self@.dom().contains(tree_name) && t@ == self@[tree_name],
                None => !self@.dom().contains(tree_name),
            },
    {
        self.trees.get(tree_name)
    }

    /// Append `enhancement` to tier `tier` of the named tree, creating the
    /// tree (with six empty tiers) on its first enhancement.
    pub fn insert(&mut self, tree_name: EnhancementTreeName, tier: usize, enhancement: Enhancement)
        requires
            tier <= 5,
            enhancements_wf(old(self)@),
        ensures
            final(self)@ == old(self)@.insert(
                tree_name,
                spec_tree_push(
                    if old(self)@.dom().contains(tree_name) {
                        old(self)@[tree_name]
                    } else {
                        spec_empty_tree()
                    },
                    tier as int,
                    enhancement@,
                ),
            ),
            enhancements_wf(final(self)@),
    {
        let ghost ev = enhancement@;
        let mut base: EnhancementTree = match self.trees.get(tree_name) {
            Some(t) => t.duplicate(),
            None => EnhancementTree::new(),
        };
        let ghost basev = base@;
        proof {
            assert(base.tiers@.len() == basev.len());
        }
        let ghost tiers_before = base.tiers@;
        let tier_list = &mut base.tiers[tier];
        let ghost tv_before = tier_view(*tier_list);
        tier_list.push(enhancement);
        proof {
            assert(tier_view(*tier_list) =~= tv_before.push(ev));
        }
        proof {
            assert(tv_before == basev[tier as int]);
            assert(base@ =~= spec_tree_push(basev, tier as int, ev)) by {
                assert(base.tiers@ == tiers_before.update(
                    tier as int,
                    base.tiers@[tier as int],
                ));
            }
        }
        self.trees.insert(tree_name, base);
    }
}

/// Every recorded tree has exactly six tiers.
pub open spec fn enhancements_wf(m: Map<EnhancementTreeName, Seq<Seq<EnhancementV>>>) -> bool {
    forall|k: EnhancementTreeName| m.dom().contains(k) ==> (#[trigger] m[k]).len() == 6
}

impl EnhancementTree {
    /// A structural copy with the same view.
    pub fn duplicate(&self) -> (r: EnhancementTree)
        ensures
            r@ == self@,
    {
        let mut tiers: Vec<Vec<Enhancement>> = Vec::new();
        let n = self.tiers.len();
        let mut k: usize = 0;
        while k < n
            invariant
                0 <= k <= n == self.tiers@.len(),
                tiers@.len() == k,
                forall|i: int| 0 <= i < k ==> #[trigger] tier_view(tiers@[i]) == tier_view(
                    self.tiers@[i],
                ),
            decreases n - k,
        {
            let inner = &self.tiers[k];
            let m = inner.len();
            let mut copy: Vec<Enhancement> = Vec::new();
            let mut j: usize = 0;
            while j < m
                invariant
                    0 <= j <= m == inner@.len(),
                    copy@.len() == j,
                    forall|i: int| 0 <= i < j ==> #[trigger] copy@[i]@ == inner@[i]@,
                decreases m - j,
            {
                let e = &inner[j];
                let sub: Option<String> = match &e.subenhancement {
                    Some(s) => Some(s.clone()),
                    None => None,
                };
                copy.push(Enhancement { name: e.name.clone(), subenhancement: sub, rank: e.rank });
                j = j + 1;
            }
            proof {
                assert(tier_view(copy) =~= tier_view(*inner));
            }
            tiers.push(copy);
            k = k + 1;
        }
        let r = EnhancementTree { tiers };
        proof {
            assert(r@ =~= self@);
        }
        r
    }
}

// ---------------------------------------------------------------------
// The finalized record
// ---------------------------------------------------------------------

pub ghost struct CharacterBuildV {
    pub name: Seq<char>,
    pub race: Race,
    pub alignment: Alignment,
    pub max_levels: u8,
    pub levels: Seq<Class>,
    pub preferred_build_type: BuildType,
    pub adventurer_stats: Option<Stats>,
    pub champion_stats: Option<Stats>,
    pub hero_stats: Option<Stats>,
    pub legend_stats: Option<Stats>,
    pub stat_tomes: Stats,
    pub stat_levelups: Seq<Option<Ability>>,
    pub skills: SkillsV,
    pub feats: FeatsV,
    pub spells: Seq<SpellbookV>,
    pub tier_five: Option<EnhancementTreeName>,
    pub enhancements: Map<EnhancementTreeName, Seq<Seq<EnhancementV>>>,
}

/// The finalized, immutable result of one successful parse.
#[derive(Debug)]
pub struct CharacterBuild {
    // [Overview]
    pub name: String,
    pub race: Race,
    pub alignment: Alignment,
    pub max_levels: u8,
    pub levels: Vec<Class>,
    // [Stats]
    pub preferred_build_type: BuildType,
    pub adventurer_stats: Option<Stats>,
    pub champion_stats: Option<Stats>,
    pub hero_stats: Option<Stats>,
    pub legend_stats: Option<Stats>,
    pub stat_tomes: Stats,
    /// One optional ability pick per 4-level milestone (levels 4 through
    /// 28); always 7 entries long.
    pub stat_levelups: Vec<Option<Ability>>,
    // [Skills]
    pub skills: Skills,
    // [Feats]
    pub feats: Feats,
    // [Spells]
    pub spells: Spells,
    // [Enhancements]
    pub tier_five: Option<EnhancementTreeName>,
    pub enhancements: Enhancements,
}

impl View for CharacterBuild {
    type V = CharacterBuildV;

    open spec fn view(&self) -> CharacterBuildV {
        CharacterBuildV {
            name: self.name@,
            race: self.race,
            alignment: self.alignment,
            max_levels: self.max_levels,
            levels: self.levels@,
            preferred_build_type: self.preferred_build_type,
            adventurer_stats: self.adventurer_stats,
            champion_stats: self.champion_stats,
            hero_stats: self.hero_stats,
            legend_stats: self.legend_stats,
            stat_tomes: self.stat_tomes,
            stat_levelups: self.stat_levelups@,
            skills: self.skills@,
            feats: self.feats@,
            spells: self.spells@,
            tier_five: self.tier_five,
            enhancements: self.enhancements@,
        }
    }
}

// ---------------------------------------------------------------------
// Structural equality helpers
// ---------------------------------------------------------------------

/// Equality of two optional ability-score records.
fn opt_stats_eq(a: &Option<Stats>, b: &Option<Stats>) -> (r: bool)
    ensures
        r == (a == b),
{
    match (a, b) {
        (None, None) => true,
        (Some(x), Some(y)) => *x == *y,
        _ => false,
    }
}

/// Equality of two optional milestone picks.
fn opt_ability_eq(a: &Option<Ability>, b: &Option<Ability>) -> (r: bool)
    ensures
        r == (a == b),
{
    match (a, b) {
        (None, None) => true,
        (Some(x), Some(y)) => *x == *y,
        _ => false,
    }
}

/// Elementwise equality of two class sequences.
fn class_vec_eq(a: &Vec<Class>, b: &Vec<Class>) -> (r: bool)
    ensures
        r == (a@ == b@),
{
    if a.len() != b.len() {
        return false;
    }
    let n = a.len();
    let mut i: usize = 0;
    while i < n
        invariant
            0 <= i <= n,
            n == a@.len() == b@.len(),
            forall|k: int| 0 <= k < i ==> a@[k] == b@[k],
        decreases n - i,
    {
        if !(a[i] == b[i]) {
            return false;
        }
        i = i + 1;
    }
    proof {
        assert(a@ =~= b@);
    }
    true
}

/// Elementwise equality of two milestone-pick sequences.
fn levelups_eq(a: &Vec<Option<Ability>>, b: &Vec<Option<Ability>>) -> (r: bool)
    ensures
        r == (a@ == b@),
{
    if a.len() != b.len() {
        return false;
    }
    let n = a.len();
    let mut i: usize = 0;
    while i < n
        invariant
            0 <= i <= n,
            n == a@.len() == b@.len(),
            forall|k: int| 0 <= k < i ==> a@[k] == b@[k],
        decreases n - i,
    {
        if !opt_ability_eq(&a[i], &b[i]) {
            return false;
        }
        i = i + 1;
    }
    proof {
        assert(a@ =~= b@);
    }
    true
}

impl Feat {
    /// Structural equality.
    pub fn equals(&self, other: &Feat) -> (r: bool)
        ensures
            r == (self@ == other@),
    {
        self.secondary_type == other.secondary_type && self.level == other.level && self.name
            == other.name
    }
}

/// Elementwise equality of two feat lists, by view.
fn feat_vec_eq(a: &Vec<Feat>, b: &Vec<Feat>) -> (r: bool)
    ensures
        r == (feats_seq_view(a@) == feats_seq_view(b@)),
{
    if a.len() != b.len() {
        proof {
            assert(feats_seq_view(a@).len() != feats_seq_view(b@).len());
        }
        return false;
    }
    let n = a.len();
    let mut i: usize = 0;
    while i < n
        invariant
            0 <= i <= n,
            n == a@.len() == b@.len(),
            forall|k: int| 0 <= k < i ==> a@[k]@ == b@[k]@,
        decreases n - i,
    {
        if !a[i].equals(&b[i]) {
            proof {
                assert(feats_seq_view(a@)[i as int] == a@[i as int]@);
                assert(feats_seq_view(b@)[i as int] == b@[i as int]@);
            }
            return false;
        }
        i = i + 1;
    }
    proof {
        assert(feats_seq_view(a@) =~= feats_seq_view(b@));
    }
    true
}

impl Feats {
    /// Structural equality, list for list.
    pub fn equals(&self, other: &Feats) -> (r: bool)
        ensures
            r == (self@ == other@),
    {
        let legend_ok: bool = match (&self.legend_feats, &other.legend_feats) {
            (None, None) => true,
            (Some(x), Some(y)) => x.equals(y),
            _ => false,
        };
        let r = legend_ok && feat_vec_eq(&self.standard_feats, &other.standard_feats)
            && feat_vec_eq(&self.class_feats, &other.class_feats) && feat_vec_eq(
            &self.race_feats,
            &other.race_feats,
        );
        r
    }
}

/// Equality of two optional spell-slot entries, by contents.
fn opt_string_eq(a: &Option<String>, b: &Option<String>) -> (r: bool)
    ensures
        r == (a.deep_view() == b.deep_view()),
{
    match (a, b) {
        (None, None) => true,
        (Some(x), Some(y)) => *x == *y,
        _ => false,
    }
}

/// Equality of two slot rows, by contents.
fn slot_row_eq(a: &Vec<Option<String>>, b: &Vec<Option<String>>) -> (r: bool)
    ensures
        r == (a.deep_view() == b.deep_view()),
{
    if a.len() != b.len() {
        proof {
            assert(a.deep_view().len() != b.deep_view().len());
        }
        return false;
    }
    let n = a.len();
    let mut i: usize = 0;
    while i < n
        invariant
            0 <= i <= n,
            n == a@.len() == b@.len(),
            forall|k: int| 0 <= k < i ==> a@[k].deep_view() == b@[k].deep_view(),
        decreases n - i,
    {
        if !opt_string_eq(&a[i], &b[i]) {
            proof {
                assert(a.deep_view()[i as int] == a@[i as int].deep_view());
                assert(b.deep_view()[i as int] == b@[i as int].deep_view());
            }
            return false;
        }
        i = i + 1;
    }
    proof {
        assert(a.deep_view() =~~= b.deep_view());
    }
    true
}

impl Spellbook {
    /// Structural equality, slot for slot.
    pub fn equals(&self, other: &Spellbook) -> (r: bool)
        ensures
            r == (self@ == other@),
    {
        if !(self.class == other.class) {
            return false;
        }
        if self.spells_by_level.len() != other.spells_by_level.len() {
            proof {
                assert(self.spells_by_level.deep_view().len() != other.spells_by_level.deep_view().len());
            }
            return false;
        }
        let n = self.spells_by_level.len();
        let mut i: usize = 0;
        while i < n
            invariant
                0 <= i <= n,
                n == self.spells_by_level@.len() == other.spells_by_level@.len(),
                forall|k: int|
                    0 <= k < i ==> self.spells_by_level@[k].deep_view()
                        == other.spells_by_level@[k].deep_view(),
            decreases n - i,
        {
            if !slot_row_eq(&self.spells_by_level[i], &other.spells_by_level[i]) {
                proof {
                    assert(self.spells_by_level.deep_view()[i as int]
                        == self.spells_by_level@[i as int].deep_view());
                    assert(other.spells_by_level.deep_view()[i as int]
                        == other.spells_by_level@[i as int].deep_view());
                }
                return false;
            }
            i = i + 1;
        }
        proof {
            assert(self.spells_by_level.deep_view() =~~= other.spells_by_level.deep_view());
        }
        true
    }
}

impl Spells {
    /// Structural equality, book for book.
    pub fn equals(&self, other: &Spells) -> (r: bool)
        ensures
            r == (self@ == other@),
    {
        if self.spellbooks.len() != other.spellbooks.len() {
            proof {
                assert(spellbooks_view(self.spellbooks@).len() != spellbooks_view(
                    other.spellbooks@,
                ).len());
            }
            return false;
        }
        let n = self.spellbooks.len();
        let mut i: usize = 0;
        while i < n
            invariant
                0 <= i <= n,
                n == self.spellbooks@.len() == other.spellbooks@.len(),
                forall|k: int| 0 <= k < i ==> self.spellbooks@[k]@ == other.spellbooks@[k]@,
            decreases n - i,
        {
            if !self.spellbooks[i].equals(&other.spellbooks[i]) {
                proof {
                    assert(spellbooks_view(self.spellbooks@)[i as int]
                        == self.spellbooks@[i as int]@);
                    assert(spellbooks_view(other.spellbooks@)[i as int]
                        == other.spellbooks@[i as int]@);
                }
                return false;
            }
            i = i + 1;
        }
        proof {
            assert(spellbooks_view(self.spellbooks@) =~= spellbooks_view(other.spellbooks@));
        }
        true
    }
}

impl Enhancements {
    /// Contents equality.
    pub fn equals(&self, other: &Enhancements) -> (r: bool)
        ensures
            r == (self@ == other@),
    {
        self.trees.eq_view(&other.trees)
    }
}

/// Equality of two optional tree identifiers.
fn opt_tree_name_eq(a: &Option<EnhancementTreeName>, b: &Option<EnhancementTreeName>) -> (r: bool)
    ensures
        r == (a == b),
{
    match (a, b) {
        (None, None) => true,
        (Some(x), Some(y)) => *x == *y,
        _ => false,
    }
}

impl CharacterBuild {
    /// Structural equality of two finalized records, field for field.
    pub fn equals(&self, other: &CharacterBuild) -> (r: bool)
        ensures
            r == (self@ == other@),
    {
        let r = self.name == other.name && self.race == other.race && self.alignment
            == other.alignment && self.max_levels == other.max_levels && class_vec_eq(
            &self.levels,
            &other.levels,
        ) && self.preferred_build_type == other.preferred_build_type && opt_stats_eq(
            &self.adventurer_stats,
            &other.adventurer_stats,
        ) && opt_stats_eq(&self.champion_stats, &other.champion_stats) && opt_stats_eq(
            &self.hero_stats,
            &other.hero_stats,
        ) && opt_stats_eq(&self.legend_stats, &other.legend_stats) && self.stat_tomes
            == other.stat_tomes && levelups_eq(&self.stat_levelups, &other.stat_levelups)
            && self.skills.equals(&other.skills) && self.feats.equals(&other.feats)
            && self.spells.equals(&other.spells) && opt_tree_name_eq(
            &self.tier_five,
            &other.tier_five,
        ) && self.enhancements.equals(&other.enhancements);
        r
    }
}

} // verus!

