//! The scratch aggregate and the streaming pass.
//!
//! [`spec_parse`] is the mathematical meaning of a parse: a fold of
//! [`line_step`] over the input lines from the initial scratch state,
//! followed by [`finalize_spec`].  The exec code below is proved to
//! compute exactly that fold.

use vstd::prelude::*;

use crate::errors::{ParseError, ParseErrorV};
use crate::grammar::{
    ability_capture, chunk_num_at, chunk_num_exec, classlevels_match, enh_capture, feat_capture,
    header_capture, keyed_text_capture, keyed_tree_capture, keyed_word_dash_capture,
    keyed_word_space_capture, level_capture, levelup_capture, line_is_blank, match_ability_line,
    match_blank, match_classlevels, match_enh, match_feat, match_header, match_keyed_text,
    match_keyed_tree, match_keyed_word_dash, match_keyed_word_space, match_level, match_levelup,
    match_max_levels, match_no, match_preferred, match_skill_line, match_spell, match_type,
    max_levels_capture, no_capture, preferred_capture, skill_capture, spell_capture, type_capture,
    TreeKind,
};
use crate::model::{
    enhancements_wf, spec_empty_tree, spec_spells_insert, spec_tree_push, Ability, Alignment,
    BaseFeatType, BuildType, CharacterBuild, CharacterBuildV, Class, ClassEnhancementTree,
    Enhancement, EnhancementTreeName, Enhancements, EnhancementV, Feat, Feats, FeatsV, FeatV,
    Heading, Race, Skill, Skills, SkillsV, SpellbookV, Spells, Stats,
};
use crate::names::{
    ability_of, alignment_of, base_feat_type_of, build_type_of, class_of, heading_of, race_of,
    secondary_from_str, secondary_of, skill_of_code, tree_name_of,
};
use crate::text::chars_of;

verus! {

// ---------------------------------------------------------------------
// The scratch state and its mathematical image
// ---------------------------------------------------------------------

/// The mathematical image of the scratch aggregate mid-parse.
pub ghost struct BuilderV {
    pub name: Seq<char>,
    pub race: Option<Race>,
    pub alignment: Option<Alignment>,
    pub max_levels: u8,
    pub classes: Seq<Class>,
    pub levels: Seq<Class>,
    pub preferred_build_type: BuildType,
    pub adventurer_stats: Option<Stats>,
    pub champion_stats: Option<Stats>,
    pub hero_stats: Option<Stats>,
    pub legend_stats: Option<Stats>,
    pub stat_tomes: Stats,
    pub stat_levelups: Seq<Option<Ability>>,
    pub skills: SkillsV,
    pub feats: FeatsV,
    pub spells: Seq<SpellbookV>,
    pub tier_five: Option<EnhancementTreeName>,
    pub enhancements: Map<EnhancementTreeName, Seq<Seq<EnhancementV>>>,
    pub current_tree: Option<EnhancementTreeName>,
    pub heading: Heading,
}

/// The scratch state before any line is read.
pub open spec fn init_builder() -> BuilderV {
    BuilderV {
        name: Seq::empty(),
        race: None,
        alignment: None,
        max_levels: 20,
        classes: Seq::empty(),
        levels: Seq::empty(),
        preferred_build_type: BuildType::Adventurer,
        adventurer_stats: Some(Stats::spec_zero()),
        champion_stats: Some(Stats::spec_zero()),
        hero_stats: Some(Stats::spec_zero()),
        legend_stats: Some(Stats::spec_zero()),
        stat_tomes: Stats::spec_zero(),
        stat_levelups: Seq::new(7, |i: int| None),
        skills: SkillsV { table: Map::empty(), tomes: Map::empty() },
        feats: FeatsV {
            standard_feats: Seq::empty(),
            legend_feats: None,
            class_feats: Seq::empty(),
            race_feats: Seq::empty(),
        },
        spells: Seq::empty(),
        tier_five: None,
        enhancements: Map::empty(),
        current_tree: None,
        heading: Heading::NoSection,
    }
}

/// Structural facts the scratch state keeps through the whole pass.
pub open spec fn builder_wf(b: BuilderV) -> bool {
    &&& b.stat_levelups.len() == 7
    &&& b.levels.len() <= 20
    &&& enhancements_wf(b.enhancements)
}

// ---------------------------------------------------------------------
// Per-section steps
// ---------------------------------------------------------------------

/// What one `[Overview]` data line does to the scratch state.
pub open spec fn ov_step(b: BuilderV, s: Seq<char>) -> Result<BuilderV, ParseErrorV> {
    if let Some(t) = keyed_text_capture(s, "Name:"@) {
        Ok(BuilderV { name: t, ..b })
    } else if let Some(t) = keyed_word_dash_capture(s, "Race:"@) {
        match race_of(t) {
            Some(r) => Ok(BuilderV { race: Some(r), ..b }),
            None => Err(ParseErrorV::UnknownRace(t)),
        }
    } else if let Some(t) = keyed_word_space_capture(s, "Alignment:"@) {
        match alignment_of(t) {
            Some(a) => Ok(BuilderV { alignment: Some(a), ..b }),
            None => Err(ParseErrorV::UnknownAlignment(t)),
        }
    } else if let Some(n) = max_levels_capture(s) {
        if 1 <= n <= 30 {
            Ok(BuilderV { max_levels: n as u8, ..b })
        } else {
            Err(ParseErrorV::InvalidMaxLevel(n as u8))
        }
    } else if let Some(t) = keyed_word_space_capture(s, "Class:"@) {
        match class_of(t) {
            None => Err(ParseErrorV::UnknownClass(t)),
            Some(c) => if b.classes.len() >= 3 {
                Err(ParseErrorV::TooManyClasses)
            } else {
                Ok(BuilderV { classes: b.classes.push(c), ..b })
            },
        }
    } else if let Some((n, t)) = level_capture(s) {
        if n < 1 || n > 20 {
            Err(ParseErrorV::InvalidLevelNum(n as u8))
        } else if n != b.levels.len() + 1 {
            Err(ParseErrorV::LevelsOutOfOrder)
        } else {
            match class_of(t) {
                None => Err(ParseErrorV::UnknownClass(t)),
                Some(c) => if !b.classes.contains(c) {
                    Err(ParseErrorV::UndeclaredClass(c))
                } else {
                    Ok(BuilderV { levels: b.levels.push(c), ..b })
                },
            }
        }
    } else {
        Ok(b)
    }
}

/// One ability-score record with one ability overwritten, if the record
/// was not opted out.
pub open spec fn upd_stats(o: Option<Stats>, a: Ability, v: int) -> Option<Stats> {
    match o {
        Some(st) => Some(st.spec_set(a, v as u8)),
        None => None,
    }
}

/// What one `[Stats]` data line does to the scratch state.
pub open spec fn stats_step(b: BuilderV, s: Seq<char>) -> Result<BuilderV, ParseErrorV> {
    if let Some(t) = preferred_capture(s) {
        match build_type_of(t) {
            Some(bt) => Ok(BuilderV { preferred_build_type: bt, ..b }),
            None => Err(ParseErrorV::UnknownBuildType(t)),
        }
    } else if let Some(bt) = no_capture(s) {
        Ok(
            match bt {
                BuildType::Adventurer => BuilderV { adventurer_stats: None, ..b },
                BuildType::Champion => BuilderV { champion_stats: None, ..b },
                BuildType::Hero => BuilderV { hero_stats: None, ..b },
                BuildType::Legend => BuilderV { legend_stats: None, ..b },
            },
        )
    } else if let Some((a, n1, n2, n3, n4, t)) = ability_capture(s) {
        Ok(
            BuilderV {
                adventurer_stats: upd_stats(b.adventurer_stats, a, n1),
                champion_stats: upd_stats(b.champion_stats, a, n2),
                hero_stats: upd_stats(b.hero_stats, a, n3),
                legend_stats: upd_stats(b.legend_stats, a, n4),
                stat_tomes: b.stat_tomes.spec_set(a, t as u8),
                ..b
            },
        )
    } else if let Some((n, t)) = levelup_capture(s) {
        if n == 0 {
            Ok(b)
        } else if n % 4 != 0 {
            Err(ParseErrorV::BadLevelupLevel(n as usize))
        } else {
            match ability_of(t) {
                None => Err(ParseErrorV::UnknownAbility(t)),
                Some(a) => if n > 28 {
                    Err(ParseErrorV::BadLevelupLevel(n as usize))
                } else {
                    Ok(BuilderV { stat_levelups: b.stat_levelups.update(n / 4 - 1, Some(a)), ..b })
                },
            }
        }
    } else {
        Ok(b)
    }
}

/// The per-level points array, the saw-a-number flag, and the tome map
/// after folding the first `c` point fields of a skill line.
pub open spec fn skills_fold(
    s: Seq<char>,
    c: int,
    sk: Skill,
    points: Seq<u8>,
    any: bool,
    tomes: Map<Skill, u8>,
) -> (Seq<u8>, bool, Map<Skill, u8>)
    decreases c,
{
    if c <= 0 {
        (points, any, tomes)
    } else {
        let (p1, a1, t1) = skills_fold(s, c - 1, sk, points, any, tomes);
        match chunk_num_at(s, c - 1) {
            None => (p1, a1, t1),
            Some(v) => if c - 1 < 20 {
                (p1.update(c - 1, v as u8), true, t1)
            } else {
                (p1, a1, t1.insert(sk, v as u8))
            },
        }
    }
}

/// Twenty zeroes: the points array before any field is folded in.
pub open spec fn zero_points() -> Seq<u8> {
    Seq::new(20, |i: int| 0u8)
}

/// What one `[Skills]` data line does to the scratch state.
pub open spec fn skills_step(b: BuilderV, s: Seq<char>) -> Result<BuilderV, ParseErrorV> {
    if let Some(code) = skill_capture(s) {
        match skill_of_code(code) {
            None => Err(ParseErrorV::UnknownSkill(code)),
            Some(sk) => {
                let (points, any, tomes) = skills_fold(
                    s,
                    (s.len() - 8) / 4,
                    sk,
                    zero_points(),
                    false,
                    b.skills.tomes,
                );
                Ok(
                    BuilderV {
                        skills: SkillsV {
                            table: if any {
                                b.skills.table.insert(sk, points)
                            } else {
                                b.skills.table
                            },
                            tomes,
                        },
                        ..b
                    },
                )
            },
        }
    } else {
        Ok(b)
    }
}

/// What one `[Feats]` data line does to the scratch state.
pub open spec fn feats_step(b: BuilderV, s: Seq<char>) -> Result<BuilderV, ParseErrorV> {
    if let Some((base, qual, lv, nm)) = feat_capture(s) {
        match base_feat_type_of(base) {
            None => Err(ParseErrorV::UnknownBaseFeatType(base)),
            Some(bt) => match secondary_of(bt, qual) {
                None => Err(ParseErrorV::UnknownSecondaryFeatType(qual)),
                Some(sec) => if lv < 1 || lv > 30 {
                    Err(ParseErrorV::InvalidFeatLevel(lv as u8))
                } else {
                    let f = FeatV { secondary_type: sec, level: lv as u8, name: nm };
                    match bt {
                        BaseFeatType::Standard => Ok(
                            BuilderV {
                                feats: FeatsV {
                                    standard_feats: b.feats.standard_feats.push(f),
                                    ..b.feats
                                },
                                ..b
                            },
                        ),
                        BaseFeatType::Legend => if b.feats.legend_feats is None {
                            Ok(
                                BuilderV {
                                    feats: FeatsV { legend_feats: Some(f), ..b.feats },
                                    ..b
                                },
                            )
                        } else {
                            Err(ParseErrorV::MultipleLegendFeats)
                        },
                        BaseFeatType::Class => Ok(
                            BuilderV {
                                feats: FeatsV { class_feats: b.feats.class_feats.push(f), ..b.feats },
                                ..b
                            },
                        ),
                        BaseFeatType::Race => Ok(
                            BuilderV {
                                feats: FeatsV { race_feats: b.feats.race_feats.push(f), ..b.feats },
                                ..b
                            },
                        ),
                    }
                },
            },
        }
    } else {
        Ok(b)
    }
}

/// What one `[Spells]` data line does to the scratch state.
pub open spec fn spells_step(b: BuilderV, s: Seq<char>) -> Result<BuilderV, ParseErrorV> {
    if let Some((cls, lv, nm)) = spell_capture(s) {
        match class_of(cls) {
            None => Err(ParseErrorV::UnknownClass(cls)),
            Some(c) => {
                let slot = if nm.len() == 0 {
                    None
                } else {
                    Some(nm)
                };
                match spec_spells_insert(b.spells, c, lv, slot) {
                    Some(books) => Ok(BuilderV { spells: books, ..b }),
                    None => Err(ParseErrorV::TooManySpellbooks),
                }
            },
        }
    } else {
        Ok(b)
    }
}

/// Whether a declared `Type:` tag agrees with the category of the
/// currently open tree.
pub open spec fn kind_matches(kind: TreeKind, tree: Option<EnhancementTreeName>) -> bool {
    match (kind, tree) {
        (TreeKind::Race, Some(EnhancementTreeName::Race(_))) => true,
        (TreeKind::Class, Some(EnhancementTreeName::Class(_))) => true,
        (TreeKind::Global, Some(EnhancementTreeName::Global(_))) => true,
        (TreeKind::RaceClass, Some(EnhancementTreeName::RaceClass(_))) => true,
        _ => false,
    }
}

/// What one `[Enhancements]` data line does to the scratch state.
pub open spec fn enh_step(b: BuilderV, s: Seq<char>) -> Result<BuilderV, ParseErrorV> {
    if let Some(t) = keyed_tree_capture(s, "Tier5:"@) {
        match tree_name_of(t) {
            Some(tn) => Ok(BuilderV { tier_five: Some(tn), ..b }),
            None => Err(ParseErrorV::UnknownEnhancementTree(t)),
        }
    } else if let Some(t) = keyed_tree_capture(s, "Tree:"@) {
        match tree_name_of(t) {
            Some(tn) => Ok(BuilderV { current_tree: Some(tn), ..b }),
            None => Err(ParseErrorV::UnknownEnhancementTree(t)),
        }
    } else if let Some(kind) = type_capture(s) {
        if kind_matches(kind, b.current_tree) {
            Ok(b)
        } else {
            Err(ParseErrorV::WrongEnhancementTreeType)
        }
    } else if let Some(t) = keyed_word_dash_capture(s, "Source:"@) {
        if t == "Paladin"@ && b.current_tree == Some(
            EnhancementTreeName::Class(ClassEnhancementTree::VanguardFighter),
        ) {
            Ok(
                BuilderV {
                    current_tree: Some(
                        EnhancementTreeName::Class(ClassEnhancementTree::VanguardPaladin),
                    ),
                    ..b
                },
            )
        } else {
            Ok(b)
        }
    } else if classlevels_match(s) {
        Ok(b)
    } else if let Some((tier, nm, sub, rank)) = enh_capture(s) {
        match b.current_tree {
            None => Err(ParseErrorV::EnhancementTreeNotDeclared),
            Some(tn) => {
                let ev = EnhancementV {
                    name: nm,
                    subenhancement: sub,
                    rank: match rank {
                        Some(rk) => Some(rk as u8),
                        None => None,
                    },
                };
                let tree = if b.enhancements.dom().contains(tn) {
                    b.enhancements[tn]
                } else {
                    spec_empty_tree()
                };
                Ok(
                    BuilderV {
                        enhancements: b.enhancements.insert(tn, spec_tree_push(tree, tier, ev)),
                        ..b
                    },
                )
            },
        }
    } else {
        Ok(b)
    }
}

// ---------------------------------------------------------------------
// One line, the whole stream, and finalization
// ---------------------------------------------------------------------

/// What one input line does to the scratch state: blank lines are
/// skipped, headers move the section state machine, and data lines go to
/// the grammar of the current section.
pub open spec fn line_step(b: BuilderV, s: Seq<char>) -> Result<BuilderV, ParseErrorV> {
    if line_is_blank(s) {
        Ok(b)
    } else if let Some(h) = header_capture(s) {
        match heading_of(h) {
            Some(hd) => Ok(BuilderV { heading: hd, ..b }),
            None => Err(ParseErrorV::UnknownHeader(h)),
        }
    } else {
        match b.heading {
            Heading::NoSection => Err(ParseErrorV::DataBeforeFirstHeader),
            Heading::Overview => ov_step(b, s),
            Heading::Stats => stats_step(b, s),
            Heading::Skills => skills_step(b, s),
            Heading::Feats => feats_step(b, s),
            Heading::Spells => spells_step(b, s),
            Heading::Enhancements => enh_step(b, s),
        }
    }
}

/// The scratch state after folding every line, or the first error.
pub open spec fn parse_from(b: BuilderV, lines: Seq<Seq<char>>) -> Result<BuilderV, ParseErrorV>
    decreases lines.len(),
{
    if lines.len() == 0 {
        Ok(b)
    } else {
        match line_step(b, lines[0]) {
            Ok(b2) => parse_from(b2, lines.subrange(1, lines.len() as int)),
            Err(e) => Err(e),
        }
    }
}

/// The finalized record built from a completed scratch state.
pub open spec fn freeze(b: BuilderV, race: Race, alignment: Alignment, levels: Seq<Class>)
    -> CharacterBuildV {
    CharacterBuildV {
        name: b.name,
        race,
        alignment,
        max_levels: b.max_levels,
        levels,
        preferred_build_type: b.preferred_build_type,
        adventurer_stats: b.adventurer_stats,
        champion_stats: b.champion_stats,
        hero_stats: b.hero_stats,
        legend_stats: b.legend_stats,
        stat_tomes: b.stat_tomes,
        stat_levelups: b.stat_levelups,
        skills: b.skills,
        feats: b.feats,
        spells: b.spells,
        tier_five: b.tier_five,
        enhancements: b.enhancements,
    }
}

/// Number of per-level entries a finished build must carry.
pub open spec fn needed_levels(max_levels: u8) -> int {
    if max_levels < 20 {
        max_levels as int
    } else {
        20
    }
}

/// End-of-input validation: race and alignment must have been declared,
/// and the level sequence must have the declared length -- except that a
/// build with no per-level lines and exactly one declared class gets that
/// class repeated `max_levels` times.
pub open spec fn finalize_spec(b: BuilderV) -> Result<CharacterBuildV, ParseErrorV> {
    match b.race {
        None => Err(ParseErrorV::NoRace),
        Some(race) => match b.alignment {
            None => Err(ParseErrorV::NoAlignment),
            Some(alignment) => {
                let need = needed_levels(b.max_levels);
                if b.levels.len() == need {
                    Ok(freeze(b, race, alignment, b.levels))
                } else if b.levels.len() == 0 && b.classes.len() == 1 {
                    Ok(
                        freeze(
                            b,
                            race,
                            alignment,
                            Seq::new(b.max_levels as nat, |i: int| b.classes[0]),
                        ),
                    )
                } else {
                    Err(
                        ParseErrorV::WrongLevelNumber(
                            need as u8,
                            b.levels.len() as usize,
                        ),
                    )
                }
            },
        },
    }
}

/// The meaning of one whole parse: fold every line, then finalize.
pub open spec fn spec_parse(lines: Seq<Seq<char>>) -> Result<CharacterBuildV, ParseErrorV> {
    match parse_from(init_builder(), lines) {
        Ok(b) => finalize_spec(b),
        Err(e) => Err(e),
    }
}

// ---------------------------------------------------------------------
// The exec scratch aggregate
// ---------------------------------------------------------------------

/// The mutable scratch aggregate owned by one parse call.  Nothing of it
/// escapes: a successful pass freezes it into a [`CharacterBuild`].
struct Builder {
    name: String,
    race: Option<Race>,
    alignment: Option<Alignment>,
    max_levels: u8,
    classes: Vec<Class>,
    levels: Vec<Class>,
    preferred_build_type: BuildType,
    adventurer_stats: Option<Stats>,
    champion_stats: Option<Stats>,
    hero_stats: Option<Stats>,
    legend_stats: Option<Stats>,
    stat_tomes: Stats,
    stat_levelups: Vec<Option<Ability>>,
    skills: Skills,
    feats: Feats,
    spells: Spells,
    tier_five: Option<EnhancementTreeName>,
    enhancements: Enhancements,
    current_tree: Option<EnhancementTreeName>,
    heading: Heading,
}

impl View for Builder {
    type V = BuilderV;

    closed spec fn view(&self) -> BuilderV {
        BuilderV {
            name: self.name@,
            race: self.race,
            alignment: self.alignment,
            max_levels: self.max_levels,
            classes: self.classes@,
            levels: self.levels@,
            preferred_build_type: self.preferred_build_type,
            adventurer_stats: self.adventurer_stats,
            champion_stats: self.champion_stats,
            hero_stats: self.hero_stats,
            legend_stats: self.legend_stats,
            stat_tomes: self.stat_tomes,
            stat_levelups: self.stat_levelups@,
            skills: self.skills@,
            feats: self.feats@,
            spells: self.spells@,
            tier_five: self.tier_five,
            enhancements: self.enhancements@,
            current_tree: self.current_tree,
            heading: self.heading,
        }
    }
}

/// Appending a feat appends its view.
proof fn lemma_feats_push(s: Seq<Feat>, f: Feat)
    ensures
        crate::model::feats_seq_view(s.push(f)) == crate::model::feats_seq_view(s).push(f@),
{
    assert(crate::model::feats_seq_view(s.push(f)) =~= crate::model::feats_seq_view(s).push(f@));
}

/// Whether a class occurs in the declared-classes list.
fn contains_class(v: &Vec<Class>, c: Class) -> (r: bool)
    ensures
        r == v@.contains(c),
{
    let mut i: usize = 0;
    while i < v.len()
        invariant
            0 <= i <= v@.len(),
            forall|k: int| 0 <= k < i ==> v@[k] != c,
        decreases v@.len() - i,
    {
        if v[i] == c {
            return true;
        }
        i = i + 1;
    }
    false
}

/// Exec check that a `Type:` tag agrees with the open tree's category.
fn kind_matches_exec(kind: TreeKind, tree: Option<EnhancementTreeName>) -> (r: bool)
    ensures
        r == kind_matches(kind, tree),
{
    match (kind, tree) {
        (TreeKind::Race, Some(EnhancementTreeName::Race(_))) => true,
        (TreeKind::Class, Some(EnhancementTreeName::Class(_))) => true,
        (TreeKind::Global, Some(EnhancementTreeName::Global(_))) => true,
        (TreeKind::RaceClass, Some(EnhancementTreeName::RaceClass(_))) => true,
        _ => false,
    }
}

impl Builder {
    fn new() -> (b: Builder)
        ensures
            b@ == init_builder(),
            builder_wf(b@),
    {
        let mut stat_levelups: Vec<Option<Ability>> = Vec::new();
        let mut k: usize = 0;
        while k < 7
            invariant
                0 <= k <= 7,
                stat_levelups@.len() == k,
                forall|i: int| 0 <= i < k ==> stat_levelups@[i] is None,
            decreases 7 - k,
        {
            stat_levelups.push(None);
            k = k + 1;
        }
        proof {
            assert(stat_levelups@ =~= Seq::new(7, |i: int| None::<Ability>));
        }
        let b = Builder {
            name: String::new(),
            race: None,
            alignment: None,
            max_levels: 20,
            classes: Vec::new(),
            levels: Vec::new(),
            preferred_build_type: BuildType::Adventurer,
            adventurer_stats: Some(Stats::new(0, 0, 0, 0, 0, 0)),
            champion_stats: Some(Stats::new(0, 0, 0, 0, 0, 0)),
            hero_stats: Some(Stats::new(0, 0, 0, 0, 0, 0)),
            legend_stats: Some(Stats::new(0, 0, 0, 0, 0, 0)),
            stat_tomes: Stats::new(0, 0, 0, 0, 0, 0),
            stat_levelups,
            skills: Skills::new(),
            feats: Feats::new(),
            spells: Spells::new(),
            tier_five: None,
            enhancements: Enhancements::new(),
            current_tree: None,
            heading: Heading::NoSection,
        };
        proof {
            assert(b@.classes =~= init_builder().classes);
            assert(b@.levels =~= init_builder().levels);
            assert(b@.name =~= init_builder().name);
        }
        b
    }

    /// One `[Overview]` data line.
    fn ov_handle(&mut self, v: &Vec<char>, line: &str) -> (r: Result<(), ParseError>)
        requires
            v@ == line@,
            builder_wf(old(self)@),
        ensures
            match r {
                Ok(()) => ov_step(old(self)@, v@) == Ok::<BuilderV, ParseErrorV>(final(self)@) && builder_wf(final(self)@),
                Err(e) => ov_step(old(self)@, v@) == Err::<BuilderV, ParseErrorV>(e@),
            },
    {
        if let Some(t) = match_keyed_text(v, line, "Name:") {
            self.name = t;
            return Ok(());
        }
        if let Some(t) = match_keyed_word_dash(v, line, "Race:") {
            return match Race::from_str(t.as_str()) {
                Some(rc) => {
                    self.race = Some(rc);
                    Ok(())
                },
                None => Err(ParseError::UnknownRace(t)),
            };
        }
        if let Some(t) = match_keyed_word_space(v, line, "Alignment:") {
            return match Alignment::from_str(t.as_str()) {
                Some(a) => {
                    self.alignment = Some(a);
                    Ok(())
                },
                None => Err(ParseError::UnknownAlignment(t)),
            };
        }
        if let Some(n) = match_max_levels(v) {
            return if 1 <= n && n <= 30 {
                self.max_levels = n;
                Ok(())
            } else {
                Err(ParseError::InvalidMaxLevel(n))
            };
        }
        if let Some(t) = match_keyed_word_space(v, line, "Class:") {
            return match Class::from_str(t.as_str()) {
                None => Err(ParseError::UnknownClass(t)),
                Some(c) => {
                    if self.classes.len() >= 3 {
                        Err(ParseError::TooManyClasses)
                    } else {
                        self.classes.push(c);
                        Ok(())
                    }
                },
            };
        }
        if let Some((n, t)) = match_level(v, line) {
            if n < 1 || n > 20 {
                return Err(ParseError::InvalidLevelNum(n));
            }
            let expected = self.levels.len() + 1;
            if n as usize != expected {
                return Err(ParseError::LevelsOutOfOrder);
            }
            return match Class::from_str(t.as_str()) {
                None => Err(ParseError::UnknownClass(t)),
                Some(c) => {
                    if !contains_class(&self.classes, c) {
                        Err(ParseError::UndeclaredClass(c))
                    } else {
                        self.levels.push(c);
                        Ok(())
                    }
                },
            };
        }
        Ok(())
    }

    /// One `[Stats]` data line.
    fn stats_handle(&mut self, v: &Vec<char>, line: &str) -> (r: Result<(), ParseError>)
        requires
            v@ == line@,
            builder_wf(old(self)@),
        ensures
            match r {
                Ok(()) => stats_step(old(self)@, v@) == Ok::<BuilderV, ParseErrorV>(final(self)@) && builder_wf(
                    final(self)@,
                ),
                Err(e) => stats_step(old(self)@, v@) == Err::<BuilderV, ParseErrorV>(e@),
            },
    {
        if let Some(t) = match_preferred(v, line) {
            return match BuildType::from_str(t.as_str()) {
                Some(bt) => {
                    self.preferred_build_type = bt;
                    Ok(())
                },
                None => Err(ParseError::UnknownBuildType(t)),
            };
        }
        if let Some(bt) = match_no(v) {
            match bt {
                BuildType::Adventurer => self.adventurer_stats = None,
                BuildType::Champion => self.champion_stats = None,
                BuildType::Hero => self.hero_stats = None,
                BuildType::Legend => self.legend_stats = None,
            }
            return Ok(());
        }
        if let Some((a, n1, n2, n3, n4, t)) = match_ability_line(v, line) {
            match &mut self.adventurer_stats {
                Some(st) => st.set(a, n1),
                None => {},
            }
            match &mut self.champion_stats {
                Some(st) => st.set(a, n2),
                None => {},
            }
            match &mut self.hero_stats {
                Some(st) => st.set(a, n3),
                None => {},
            }
            match &mut self.legend_stats {
                Some(st) => st.set(a, n4),
                None => {},
            }
            self.stat_tomes.set(a, t);
            return Ok(());
        }
        if let Some((n, t)) = match_levelup(v, line) {
            if n == 0 {
                return Ok(());
            }
            if n % 4 != 0 {
                return Err(ParseError::BadLevelupLevel(n as usize));
            }
            return match Ability::from_str(t.as_str()) {
                None => Err(ParseError::UnknownAbility(t)),
                Some(a) => {
                    if n > 28 {
                        Err(ParseError::BadLevelupLevel(n as usize))
                    } else {
                        let idx = (n / 4) as usize - 1;
                        self.stat_levelups[idx] = Some(a);
                        Ok(())
                    }
                },
            };
        }
        Ok(())
    }

    /// One `[Skills]` data line.
    fn skills_handle(&mut self, v: &Vec<char>, line: &str) -> (r: Result<(), ParseError>)
        requires
            v@ == line@,
            builder_wf(old(self)@),
        ensures
            match r {
                Ok(()) => skills_step(old(self)@, v@) == Ok::<BuilderV, ParseErrorV>(final(self)@) && builder_wf(
                    final(self)@,
                ),
                Err(e) => skills_step(old(self)@, v@) == Err::<BuilderV, ParseErrorV>(e@),
            },
    {
        let code = match match_skill_line(v, line) {
            Some(code) => code,
            None => {
                return Ok(());
            },
        };
        let sk = match Skill::from_7_chars(code.as_str()) {
            Some(sk) => sk,
            None => {
                return Err(ParseError::UnknownSkill(code));
            },
        };
        let n = v.len();
        let count = (n - 8) / 4;
        let mut pts: Vec<u8> = Vec::new();
        while pts.len() < 20
            invariant
                pts@.len() <= 20,
                forall|k: int| 0 <= k < pts@.len() ==> pts@[k] == 0u8,
            decreases 20 - pts@.len(),
        {
            pts.push(0);
        }
        proof {
            assert(pts@ =~= zero_points());
        }
        let ghost tomes0 = self@.skills.tomes;
        let ghost bv0 = self@;
        let mut any = false;
        let mut c: usize = 0;
        while c < count
            invariant
                0 <= c <= count,
                v@.len() == n,
                n >= 12,
                (n - 8) % 4 == 0,
                count == (n - 8) / 4,
                pts@.len() == 20,
                skill_capture(v@) matches Some(cd),
                self@ == (BuilderV {
                    skills: SkillsV { table: bv0.skills.table, tomes: self@.skills.tomes },
                    ..bv0
                }),
                builder_wf(bv0),
                (pts@, any, self@.skills.tomes) == skills_fold(
                    v@,
                    c as int,
                    sk,
                    zero_points(),
                    false,
                    tomes0,
                ),
            decreases count - c,
        {
            let ghost pre = skills_fold(v@, c as int, sk, zero_points(), false, tomes0);
            match chunk_num_exec(v, 8 + 4 * c) {
                Some(val) => {
                    if c < 20 {
                        pts[c] = val;
                        any = true;
                    } else {
                        self.skills.set_tome(sk, val);
                    }
                },
                None => {},
            }
            proof {
                assert(skills_fold(v@, c + 1, sk, zero_points(), false, tomes0) == (
                match chunk_num_at(v@, c as int) {
                    None => pre,
                    Some(vv) => if c < 20 {
                        (pre.0.update(c as int, vv as u8), true, pre.2)
                    } else {
                        (pre.0, pre.1, pre.2.insert(sk, vv as u8))
                    },
                }));
            }
            c = c + 1;
        }
        if any {
            self.skills.set_points(sk, pts);
        }
        Ok(())
    }

    /// One `[Feats]` data line.
    fn feats_handle(&mut self, v: &Vec<char>, line: &str) -> (r: Result<(), ParseError>)
        requires
            v@ == line@,
            builder_wf(old(self)@),
        ensures
            match r {
                Ok(()) => feats_step(old(self)@, v@) == Ok::<BuilderV, ParseErrorV>(final(self)@) && builder_wf(
                    final(self)@,
                ),
                Err(e) => feats_step(old(self)@, v@) == Err::<BuilderV, ParseErrorV>(e@),
            },
    {
        let (base, qual, lv, nm) = match match_feat(v, line) {
            Some(caps) => caps,
            None => {
                return Ok(());
            },
        };
        let bt = match BaseFeatType::from_str(base.as_str()) {
            Some(bt) => bt,
            None => {
                return Err(ParseError::UnknownBaseFeatType(base));
            },
        };
        let sec = match secondary_from_str(bt, qual.as_str()) {
            Some(sec) => sec,
            None => {
                return Err(ParseError::UnknownSecondaryFeatType(qual));
            },
        };
        if lv < 1 || lv > 30 {
            return Err(ParseError::InvalidFeatLevel(lv));
        }
        let f = Feat::new(sec, lv, nm);
        let ghost fs0 = self.feats@;
        match bt {
            BaseFeatType::Standard => {
                proof {
                    lemma_feats_push(self.feats.standard_feats@, f);
                }
                self.feats.standard_feats.push(f);
                Ok(())
            },
            BaseFeatType::Legend => {
                if self.feats.legend_feats.is_none() {
                    self.feats.legend_feats = Some(f);
                    Ok(())
                } else {
                    Err(ParseError::MultipleLegendFeats)
                }
            },
            BaseFeatType::Class => {
                proof {
                    lemma_feats_push(self.feats.class_feats@, f);
                }
                self.feats.class_feats.push(f);
                Ok(())
            },
            BaseFeatType::Race => {
                proof {
                    lemma_feats_push(self.feats.race_feats@, f);
                }
                self.feats.race_feats.push(f);
                Ok(())
            },
        }
    }

    /// One `[Spells]` data line.
    fn spells_handle(&mut self, v: &Vec<char>, line: &str) -> (r: Result<(), ParseError>)
        requires
            v@ == line@,
            builder_wf(old(self)@),
        ensures
            match r {
                Ok(()) => spells_step(old(self)@, v@) == Ok::<BuilderV, ParseErrorV>(final(self)@) && builder_wf(
                    final(self)@,
                ),
                Err(e) => spells_step(old(self)@, v@) == Err::<BuilderV, ParseErrorV>(e@),
            },
    {
        let (cls, lv, nm) = match match_spell(v, line) {
            Some(caps) => caps,
            None => {
                return Ok(());
            },
        };
        let c = match Class::from_str(cls.as_str()) {
            Some(c) => c,
            None => {
                return Err(ParseError::UnknownClass(cls));
            },
        };
        let slot: Option<String> = if nm.as_str().unicode_len() == 0 {
            None
        } else {
            Some(nm)
        };
        match self.spells.insert(c, lv as usize, slot) {
            Ok(()) => Ok(()),
            Err(()) => Err(ParseError::TooManySpellbooks),
        }
    }

    /// One `[Enhancements]` data line.
    fn enh_handle(&mut self, v: &Vec<char>, line: &str) -> (r: Result<(), ParseError>)
        requires
            v@ == line@,
            builder_wf(old(self)@),
        ensures
            match r {
                Ok(()) => enh_step(old(self)@, v@) == Ok::<BuilderV, ParseErrorV>(final(self)@) && builder_wf(
                    final(self)@,
                ),
                Err(e) => enh_step(old(self)@, v@) == Err::<BuilderV, ParseErrorV>(e@),
            },
    {
        if let Some(t) = match_keyed_tree(v, line, "Tier5:") {
            return match EnhancementTreeName::from_str(t.as_str()) {
                Some(tn) => {
                    self.tier_five = Some(tn);
                    Ok(())
                },
                None => Err(ParseError::UnknownEnhancementTree(t)),
            };
        }
        if let Some(t) = match_keyed_tree(v, line, "Tree:") {
            return match EnhancementTreeName::from_str(t.as_str()) {
                Some(tn) => {
                    self.current_tree = Some(tn);
                    Ok(())
                },
                None => Err(ParseError::UnknownEnhancementTree(t)),
            };
        }
        if let Some(kind) = match_type(v) {
            return if kind_matches_exec(kind, self.current_tree) {
                Ok(())
            } else {
                Err(ParseError::WrongEnhancementTreeType)
            };
        }
        if let Some(t) = match_keyed_word_dash(v, line, "Source:") {
            let fighter_vanguard = match self.current_tree {
                Some(EnhancementTreeName::Class(ClassEnhancementTree::VanguardFighter)) => true,
                _ => false,
            };
            if crate::text::str_eq(t.as_str(), "Paladin") && fighter_vanguard {
                self.current_tree = Some(
                    EnhancementTreeName::Class(ClassEnhancementTree::VanguardPaladin),
                );
            }
            return Ok(());
        }
        if match_classlevels(v) {
            return Ok(());
        }
        if let Some((tier, nm, sub, rank)) = match_enh(v, line) {
            let tn = match self.current_tree {
                Some(tn) => tn,
                None => {
                    return Err(ParseError::EnhancementTreeNotDeclared);
                },
            };
            let e = Enhancement::new(nm, sub, rank);
            self.enhancements.insert(tn, tier as usize, e);
            return Ok(());
        }
        Ok(())
    }

    /// One input line: blank, header, or data for the current section.
    fn handle_line(&mut self, line: &str) -> (r: Result<(), ParseError>)
        requires
            builder_wf(old(self)@),
        ensures
            match r {
                Ok(()) => line_step(old(self)@, line@) == Ok::<BuilderV, ParseErrorV>(final(self)@) && builder_wf(
                    final(self)@,
                ),
                Err(e) => line_step(old(self)@, line@) == Err::<BuilderV, ParseErrorV>(e@),
            },
    {
        let v = chars_of(line);
        if match_blank(&v) {
            return Ok(());
        }
        if let Some(h) = match_header(&v, line) {
            return match Heading::from_str(h.as_str()) {
                Some(hd) => {
                    self.heading = hd;
                    Ok(())
                },
                None => Err(ParseError::UnknownHeader(h)),
            };
        }
        match self.heading {
            Heading::NoSection => Err(ParseError::DataBeforeFirstHeader),
            Heading::Overview => self.ov_handle(&v, line),
            Heading::Stats => self.stats_handle(&v, line),
            Heading::Skills => self.skills_handle(&v, line),
            Heading::Feats => self.feats_handle(&v, line),
            Heading::Spells => self.spells_handle(&v, line),
            Heading::Enhancements => self.enh_handle(&v, line),
        }
    }

    /// End-of-input validation and freezing of the immutable record.
    fn finalize(self) -> (r: Result<CharacterBuild, ParseError>)
        ensures
            match r {
                Ok(cb) => finalize_spec(self@) == Ok::<CharacterBuildV, ParseErrorV>(cb@),
                Err(e) => finalize_spec(self@) == Err::<CharacterBuildV, ParseErrorV>(e@),
            },
    {
        let race = match self.race {
            Some(rc) => rc,
            None => {
                return Err(ParseError::NoRace);
            },
        };
        let alignment = match self.alignment {
            Some(a) => a,
            None => {
                return Err(ParseError::NoAlignment);
            },
        };
        let need: u8 = if self.max_levels < 20 {
            self.max_levels
        } else {
            20
        };
        let levels_len = self.levels.len();
        let levels: Vec<Class> = if levels_len == need as usize {
            self.levels
        } else if levels_len == 0 && self.classes.len() == 1 {
            let c = self.classes[0];
            let target = self.max_levels as usize;
            let mut ls: Vec<Class> = Vec::new();
            while ls.len() < target
                invariant
                    ls@.len() <= target,
                    forall|k: int| 0 <= k < ls@.len() ==> ls@[k] == c,
                decreases target - ls@.len(),
            {
                ls.push(c);
            }
            proof {
                assert(ls@ =~= Seq::new(self@.max_levels as nat, |i: int| self@.classes[0]));
            }
            ls
        } else {
            return Err(ParseError::WrongLevelNumber(need, levels_len));
        };
        Ok(
            CharacterBuild {
                name: self.name,
                race,
                alignment,
                max_levels: self.max_levels,
                levels,
                preferred_build_type: self.preferred_build_type,
                adventurer_stats: self.adventurer_stats,
                champion_stats: self.champion_stats,
                hero_stats: self.hero_stats,
                legend_stats: self.legend_stats,
                stat_tomes: self.stat_tomes,
                stat_levelups: self.stat_levelups,
                skills: self.skills,
                feats: self.feats,
                spells: self.spells,
                tier_five: self.tier_five,
                enhancements: self.enhancements,
            },
        )
    }
}

// ---------------------------------------------------------------------
// The entry point
// ---------------------------------------------------------------------

/// Parse one build, given as its input lines in order.  Returns the
/// finalized record, or the first error of the pass; no partial record
/// ever escapes.
pub fn parse(lines: &Vec<String>) -> (r: Result<CharacterBuild, ParseError>)
    ensures
        match r {
            Ok(cb) => spec_parse(lines.deep_view()) == Ok::<CharacterBuildV, ParseErrorV>(cb@),
            Err(e) => spec_parse(lines.deep_view()) == Err::<CharacterBuildV, ParseErrorV>(e@),
        },
{
    let ghost lv: Seq<Seq<char>> = lines.deep_view();
    let mut b = Builder::new();
    let n = lines.len();
    proof {
        assert(lv.subrange(0, lv.len() as int) =~= lv);
    }
    let mut i: usize = 0;
    while i < n
        invariant
            0 <= i <= n == lines@.len(),
            lv == lines.deep_view(),
            lv.len() == n,
            builder_wf(b@),
            parse_from(b@, lv.subrange(i as int, lv.len() as int)) == parse_from(
                init_builder(),
                lv,
            ),
        decreases n - i,
    {
        let line: &String = &lines[i];
        proof {
            assert(lv[i as int] == lines@[i as int]@);
        }
        let ghost rest = lv.subrange(i as int, lv.len() as int);
        match b.handle_line(line.as_str()) {
            Ok(()) => {
                proof {
                    assert(rest[0] == lv[i as int]);
                    assert(rest.subrange(1, rest.len() as int) =~= lv.subrange(
                        i + 1,
                        lv.len() as int,
                    ));
                }
                i = i + 1;
            },
            Err(e) => {
                proof {
                    assert(rest[0] == lv[i as int]);
                }
                return Err(e);
            },
        }
    }
    proof {
        assert(lv.subrange(n as int, lv.len() as int) =~= Seq::<Seq<char>>::empty());
    }
    b.finalize()
}

} // verus!
