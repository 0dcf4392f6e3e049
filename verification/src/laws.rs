//! General properties of the parser, stated and proved once for all
//! inputs.  Each law is phrased over the spec functions that the public
//! contracts use, so it carries over to the executable code through those
//! contracts.

use vstd::prelude::*;

use crate::builder::{
    enh_step, init_builder, ov_step, parse_from, skills_fold, skills_step, spec_parse, stats_step,
    zero_points, BuilderV,
};
use crate::errors::ParseErrorV;
use crate::grammar::{
    ability_capture, chunk_num_at, keyed_text_capture, keyed_tree_capture,
    keyed_word_dash_capture, keyed_word_space_capture, level_capture, levelup_capture,
    max_levels_capture, no_capture, preferred_capture, skill_capture, type_capture,
};
use crate::model::{CharacterBuildV, Class, ClassEnhancementTree, EnhancementTreeName, Skill};
use crate::names::{class_of, skill_of_code, tree_name_of};

verus! {

/// A prefix pins down the first characters of a line.
proof fn lemma_prefix_chars(s: Seq<char>, p: Seq<char>)
    requires
        crate::text::prefix_at(s, 0, p),
    ensures
        forall|i: int| 0 <= i < p.len() ==> s[i] == p[i],
{
    assert forall|i: int| 0 <= i < p.len() implies s[i] == p[i] by {
        assert(s.subrange(0, p.len() as int)[i] == s[i]);
    }
}

// ---------------------------------------------------------------------
// The declared maximum level and the level sequence
// ---------------------------------------------------------------------

/// On every successful parse whose declared maximum level is at most 20,
/// the finalized level sequence has exactly `max_levels` entries --
/// whether the per-level lines were given explicitly or synthesized by
/// the single-class shorthand.
pub proof fn lemma_max_levels_matches_levels(lines: Seq<Seq<char>>, cb: CharacterBuildV)
    requires
        spec_parse(lines) == Ok::<CharacterBuildV, ParseErrorV>(cb),
        cb.max_levels <= 20,
    ensures
        cb.levels.len() == cb.max_levels,
{
    match parse_from(init_builder(), lines) {
        Ok(bb) => {
            assert(crate::builder::finalize_spec(bb) == Ok::<CharacterBuildV, ParseErrorV>(cb));
        },
        Err(e) => {
            assert(false);
        },
    }
}

/// On every successful parse, the finalized level sequence is either
/// exactly `min(max_levels, 20)` entries long (explicit per-level lines)
/// or exactly `max_levels` entries long (the single-class shorthand).
pub proof fn lemma_levels_length_dichotomy(lines: Seq<Seq<char>>, cb: CharacterBuildV)
    requires
        spec_parse(lines) == Ok::<CharacterBuildV, ParseErrorV>(cb),
    ensures
        cb.levels.len() == crate::builder::needed_levels(cb.max_levels) || cb.levels.len()
            == cb.max_levels,
{
    match parse_from(init_builder(), lines) {
        Ok(bb) => {
            assert(crate::builder::finalize_spec(bb) == Ok::<CharacterBuildV, ParseErrorV>(cb));
        },
        Err(e) => {
            assert(false);
        },
    }
}

// ---------------------------------------------------------------------
// Skill lines
// ---------------------------------------------------------------------

/// The value of one point field, with a blank field reading as zero.
pub open spec fn chunk_val_or_zero(s: Seq<char>, c: int) -> u8 {
    match chunk_num_at(s, c) {
        Some(v) => v as u8,
        None => 0u8,
    }
}

/// What the fold of a skill line's point fields computes: field `k` of
/// the points array, the saw-a-number flag, and the tome entries.
pub proof fn lemma_skills_fold_values(s: Seq<char>, c: int, sk: Skill, tomes0: Map<Skill, u8>)
    requires
        0 <= c,
    ensures
        ({
            let f = skills_fold(s, c, sk, zero_points(), false, tomes0);
            &&& f.0.len() == 20
            &&& forall|k: int|
                0 <= k < 20 ==> f.0[k] == (if k < c {
                    chunk_val_or_zero(s, k)
                } else {
                    0u8
                })
            &&& (f.1 <==> exists|k: int|
                0 <= k < c && k < 20 && (#[trigger] chunk_num_at(s, k)) is Some)
        }),
    decreases c,
{
    if c == 0 {
    } else {
        lemma_skills_fold_values(s, c - 1, sk, tomes0);
        let f1 = skills_fold(s, c - 1, sk, zero_points(), false, tomes0);
        let f = skills_fold(s, c, sk, zero_points(), false, tomes0);
        if chunk_num_at(s, c - 1) is Some && c - 1 < 20 {
            assert(f.1);
        }
        if f.1 && !f1.1 {
            assert(chunk_num_at(s, c - 1) is Some && c - 1 < 20);
        }
    }
}

/// A skill line whose point fields are all blank except one, at index
/// `idx` among the per-level fields, records exactly one table entry for
/// its skill: the parsed value at `idx` and zero everywhere else.
pub proof fn lemma_single_value_skill_line(
    b: BuilderV,
    s: Seq<char>,
    sk: Skill,
    idx: int,
    v: int,
)
    requires
        skill_capture(s) matches Some(code) && skill_of_code(code) == Some(sk),
        0 <= idx < (s.len() - 8) / 4,
        idx < 20,
        chunk_num_at(s, idx) == Some(v),
        forall|k: int|
            0 <= k < (s.len() - 8) / 4 && k != idx ==> (#[trigger] chunk_num_at(s, k)) is None,
    ensures
        skills_step(b, s) matches Ok(b2) && {
            &&& b2.skills.table.contains_key(sk)
            &&& b2.skills.table[sk].len() == 20
            &&& b2.skills.table[sk][idx] == v as u8
            &&& forall|k: int| 0 <= k < 20 && k != idx ==> b2.skills.table[sk][k] == 0u8
        },
{
    let count = (s.len() - 8) / 4;
    lemma_skills_fold_values(s, count, sk, b.skills.tomes);
    let f = skills_fold(s, count, sk, zero_points(), false, b.skills.tomes);
    assert(f.1) by {
        assert(chunk_num_at(s, idx) is Some);
    }
}

// ---------------------------------------------------------------------
// Ability-score lines
// ---------------------------------------------------------------------

/// A matched ability-score line is never read as any other `[Stats]`
/// grammar.
proof fn lemma_ability_line_shape(s: Seq<char>)
    requires
        ability_capture(s) matches Some(caps),
    ensures
        preferred_capture(s) is None,
        no_capture(s) is None,
{
    reveal_strlit("Preferred:");
    reveal_strlit("Adventurer:");
    reveal_strlit("Champion:");
    reveal_strlit("Hero:");
    reveal_strlit("Legend:");
    reveal_strlit("STR");
    reveal_strlit("Strength");
    reveal_strlit("DEX");
    reveal_strlit("Dexterity");
    reveal_strlit("CON");
    reveal_strlit("Constitution");
    reveal_strlit("INT");
    reveal_strlit("Intelligence");
    reveal_strlit("WIS");
    reveal_strlit("Wisdom");
    reveal_strlit("CHA");
    reveal_strlit("Charisma");
    let code = s.subrange(0, 3);
    assert(code[0] == s[0] && code[1] == s[1] && code[2] == s[2]);
    if crate::text::prefix_at(s, 0, "Preferred:"@) {
        lemma_prefix_chars(s, "Preferred:"@);
    }
    if crate::text::prefix_at(s, 0, "Adventurer:"@) {
        lemma_prefix_chars(s, "Adventurer:"@);
    }
    if crate::text::prefix_at(s, 0, "Champion:"@) {
        lemma_prefix_chars(s, "Champion:"@);
    }
    if crate::text::prefix_at(s, 0, "Hero:"@) {
        lemma_prefix_chars(s, "Hero:"@);
    }
    if crate::text::prefix_at(s, 0, "Legend:"@) {
        lemma_prefix_chars(s, "Legend:"@);
    }
}

/// An ability-score line updates exactly the five targets -- the four
/// build-type records (where not opted out) and the tome record -- each
/// at exactly the named ability, in field order, and touches nothing
/// else.  Blank fields have already decoded to zero in the captures.
pub proof fn lemma_ability_line_updates(
    b: BuilderV,
    s: Seq<char>,
    a: crate::model::Ability,
    n1: int,
    n2: int,
    n3: int,
    n4: int,
    t: int,
)
    requires
        ability_capture(s) == Some((a, n1, n2, n3, n4, t)),
    ensures
        stats_step(b, s) matches Ok(b2) && {
            &&& b2 == (BuilderV {
                adventurer_stats: crate::builder::upd_stats(b.adventurer_stats, a, n1),
                champion_stats: crate::builder::upd_stats(b.champion_stats, a, n2),
                hero_stats: crate::builder::upd_stats(b.hero_stats, a, n3),
                legend_stats: crate::builder::upd_stats(b.legend_stats, a, n4),
                stat_tomes: b.stat_tomes.spec_set(a, t as u8),
                ..b
            })
            &&& b2.stat_tomes.spec_get(a) == t as u8
            &&& forall|a2: crate::model::Ability|
                a2 != a ==> b2.stat_tomes.spec_get(a2) == b.stat_tomes.spec_get(a2)
            &&& (b.adventurer_stats matches Some(st) ==> b2.adventurer_stats matches Some(st2)
                && st2.spec_get(a) == n1 as u8 && forall|a2: crate::model::Ability|
                a2 != a ==> st2.spec_get(a2) == st.spec_get(a2))
            &&& (b.adventurer_stats is None ==> b2.adventurer_stats is None)
            &&& (b.champion_stats matches Some(st) ==> b2.champion_stats matches Some(st2)
                && st2.spec_get(a) == n2 as u8 && forall|a2: crate::model::Ability|
                a2 != a ==> st2.spec_get(a2) == st.spec_get(a2))
            &&& (b.champion_stats is None ==> b2.champion_stats is None)
            &&& (b.hero_stats matches Some(st) ==> b2.hero_stats matches Some(st2)
                && st2.spec_get(a) == n3 as u8 && forall|a2: crate::model::Ability|
                a2 != a ==> st2.spec_get(a2) == st.spec_get(a2))
            &&& (b.hero_stats is None ==> b2.hero_stats is None)
            &&& (b.legend_stats matches Some(st) ==> b2.legend_stats matches Some(st2)
                && st2.spec_get(a) == n4 as u8 && forall|a2: crate::model::Ability|
                a2 != a ==> st2.spec_get(a2) == st.spec_get(a2))
            &&& (b.legend_stats is None ==> b2.legend_stats is None)
        },
{
    lemma_ability_line_shape(s);
}

// ---------------------------------------------------------------------
// Milestone ability picks
// ---------------------------------------------------------------------

/// A matched `Levelup:` line is never read as any other `[Stats]`
/// grammar.
proof fn lemma_levelup_line_shape(s: Seq<char>)
    requires
        levelup_capture(s) matches Some(caps),
    ensures
        preferred_capture(s) is None,
        no_capture(s) is None,
        ability_capture(s) is None,
{
    reveal_strlit("Levelup:");
    reveal_strlit("Preferred:");
    reveal_strlit("Adventurer:");
    reveal_strlit("Champion:");
    reveal_strlit("Hero:");
    reveal_strlit("Legend:");
    reveal_strlit("STR");
    reveal_strlit("Strength");
    reveal_strlit("DEX");
    reveal_strlit("Dexterity");
    reveal_strlit("CON");
    reveal_strlit("Constitution");
    reveal_strlit("INT");
    reveal_strlit("Intelligence");
    reveal_strlit("WIS");
    reveal_strlit("Wisdom");
    reveal_strlit("CHA");
    reveal_strlit("Charisma");
    lemma_prefix_chars(s, "Levelup:"@);
    if crate::text::prefix_at(s, 0, "Preferred:"@) {
        lemma_prefix_chars(s, "Preferred:"@);
    }
    if crate::text::prefix_at(s, 0, "Adventurer:"@) {
        lemma_prefix_chars(s, "Adventurer:"@);
    }
    if crate::text::prefix_at(s, 0, "Champion:"@) {
        lemma_prefix_chars(s, "Champion:"@);
    }
    if crate::text::prefix_at(s, 0, "Hero:"@) {
        lemma_prefix_chars(s, "Hero:"@);
    }
    if crate::text::prefix_at(s, 0, "Legend:"@) {
        lemma_prefix_chars(s, "Legend:"@);
    }
    if s.len() == 32 {
        let code = s.subrange(0, 3);
        assert(code[0] == s[0] && code[1] == s[1] && code[2] == s[2]);
    }
}

/// A `Levelup: 0` line is accepted and contributes no milestone pick: the
/// scratch state is unchanged.
pub proof fn lemma_levelup_zero_ignored(b: BuilderV, s: Seq<char>, t: Seq<char>)
    requires
        levelup_capture(s) == Some((0int, t)),
    ensures
        stats_step(b, s) == Ok::<BuilderV, ParseErrorV>(b),
{
    lemma_levelup_line_shape(s);
}

/// A `Levelup:` line whose level is positive but not a multiple of 4 (a
/// `Levelup: 5` line, for one) is rejected.
pub proof fn lemma_levelup_off_milestone(b: BuilderV, s: Seq<char>, n: int, t: Seq<char>)
    requires
        levelup_capture(s) == Some((n, t)),
        n != 0,
        n % 4 != 0,
    ensures
        stats_step(b, s) == Err::<BuilderV, ParseErrorV>(ParseErrorV::BadLevelupLevel(n as usize)),
{
    lemma_levelup_line_shape(s);
}

// ---------------------------------------------------------------------
// Per-level class references
// ---------------------------------------------------------------------

/// A matched `Level:` line is never read as any other `[Overview]`
/// grammar.
proof fn lemma_level_line_shape(s: Seq<char>)
    requires
        level_capture(s) matches Some(caps),
    ensures
        keyed_text_capture(s, "Name:"@) is None,
        keyed_word_dash_capture(s, "Race:"@) is None,
        keyed_word_space_capture(s, "Alignment:"@) is None,
        max_levels_capture(s) is None,
        keyed_word_space_capture(s, "Class:"@) is None,
{
    reveal_strlit("Level:");
    reveal_strlit("Name:");
    reveal_strlit("Race:");
    reveal_strlit("Alignment:");
    reveal_strlit("MaxLevels:");
    reveal_strlit("Class:");
    lemma_prefix_chars(s, "Level:"@);
    if crate::text::prefix_at(s, 0, "Name:"@) {
        lemma_prefix_chars(s, "Name:"@);
    }
    if crate::text::prefix_at(s, 0, "Race:"@) {
        lemma_prefix_chars(s, "Race:"@);
    }
    if crate::text::prefix_at(s, 0, "Alignment:"@) {
        lemma_prefix_chars(s, "Alignment:"@);
    }
    if crate::text::prefix_at(s, 0, "MaxLevels:"@) {
        lemma_prefix_chars(s, "MaxLevels:"@);
    }
    if crate::text::prefix_at(s, 0, "Class:"@) {
        lemma_prefix_chars(s, "Class:"@);
    }
}

/// A `Level: n c` line in sequence succeeds exactly when class `c` was
/// declared by an earlier `Class:` line; an undeclared class is the
/// undeclared-class error.
pub proof fn lemma_level_needs_declared_class(
    b: BuilderV,
    s: Seq<char>,
    n: int,
    t: Seq<char>,
    c: Class,
)
    requires
        level_capture(s) == Some((n, t)),
        class_of(t) == Some(c),
        1 <= n <= 20,
        n == b.levels.len() + 1,
    ensures
        b.classes.contains(c) ==> ov_step(b, s) == Ok::<BuilderV, ParseErrorV>(
            BuilderV { levels: b.levels.push(c), ..b },
        ),
        !b.classes.contains(c) ==> ov_step(b, s) == Err::<BuilderV, ParseErrorV>(
            ParseErrorV::UndeclaredClass(c),
        ),
{
    lemma_level_line_shape(s);
}

// ---------------------------------------------------------------------
// The Vanguard alias and its one-shot correction
// ---------------------------------------------------------------------

/// A bare `Vanguard` resolves to the Fighter-class tree.
pub proof fn lemma_vanguard_default()
    ensures
        tree_name_of("Vanguard"@) == Some(
            EnhancementTreeName::Class(ClassEnhancementTree::VanguardFighter),
        ),
{
    reveal_strlit("Vanguard");
    reveal_strlit("Arcanotechnician");
    reveal_strlit("Battle Engineer");
    reveal_strlit("Renegade Mastermaker");
    reveal_strlit("Frenzied Berserker");
    reveal_strlit("Occult Slayer");
    reveal_strlit("Ravager");
    reveal_strlit("Swashbuckler");
    reveal_strlit("Spellsinger");
    reveal_strlit("Warchanter");
    reveal_strlit("Divine Disciple");
    reveal_strlit("Radiant Servant");
    reveal_strlit("Warpriest");
    reveal_strlit("Nature's Warrior");
    reveal_strlit("Nature's Protector");
    reveal_strlit("Season's Herald");
    reveal_strlit("Angel of Vengeance");
    reveal_strlit("Beacon of Hope");
    reveal_strlit("War Soul");
    reveal_strlit("Kensei");
    reveal_strlit("Stalwart Defender");
    assert(("Vanguard"@).len() == 8);
    assert(("Vanguard"@)[0] == 'V');
    assert(("War Soul"@).len() == 8 && ("War Soul"@)[0] == 'W');
    assert(("Vanguard"@) != ("War Soul"@));
    assert(("Arcanotechnician"@).len() == 16);
    assert(("Battle Engineer"@).len() == 15);
    assert(("Renegade Mastermaker"@).len() == 20);
    assert(("Frenzied Berserker"@).len() == 18);
    assert(("Occult Slayer"@).len() == 13);
    assert(("Ravager"@).len() == 7);
    assert(("Swashbuckler"@).len() == 12);
    assert(("Spellsinger"@).len() == 11);
    assert(("Warchanter"@).len() == 10);
    assert(("Divine Disciple"@).len() == 15);
    assert(("Radiant Servant"@).len() == 15);
    assert(("Warpriest"@).len() == 9);
    assert(("Nature's Warrior"@).len() == 16);
    assert(("Nature's Protector"@).len() == 18);
    assert(("Season's Herald"@).len() == 15);
    assert(("Angel of Vengeance"@).len() == 18);
    assert(("Beacon of Hope"@).len() == 14);
    assert(("Kensei"@).len() == 6);
    assert(("Stalwart Defender"@).len() == 17);
}

/// Opening a tree with the bare `Vanguard` alias leaves the Fighter
/// variant open; a `Source: Paladin` line later in the same tree context
/// re-resolves it to the Paladin variant.
pub proof fn lemma_vanguard_source_resolution(b: BuilderV, s1: Seq<char>, s2: Seq<char>)
    requires
        keyed_tree_capture(s1, "Tree:"@) == Some("Vanguard"@),
        keyed_tree_capture(s1, "Tier5:"@) is None,
        keyed_word_dash_capture(s2, "Source:"@) == Some("Paladin"@),
        keyed_tree_capture(s2, "Tier5:"@) is None,
        keyed_tree_capture(s2, "Tree:"@) is None,
        type_capture(s2) is None,
    ensures
        ({
            &&& enh_step(b, s1) matches Ok(b1)
            &&& b1.current_tree == Some(
                EnhancementTreeName::Class(ClassEnhancementTree::VanguardFighter),
            )
            &&& enh_step(b1, s2) matches Ok(b2)
            &&& b2.current_tree == Some(
                EnhancementTreeName::Class(ClassEnhancementTree::VanguardPaladin),
            )
        }),
{
    lemma_vanguard_default();
}

// ---------------------------------------------------------------------
// Determinism
// ---------------------------------------------------------------------

/// Parsing is a function of the input characters alone: two results of
/// parsing the same lines are equal, record for record.
pub proof fn lemma_parse_idempotent(
    lines: Seq<Seq<char>>,
    cb1: CharacterBuildV,
    cb2: CharacterBuildV,
)
    requires
        spec_parse(lines) == Ok::<CharacterBuildV, ParseErrorV>(cb1),
        spec_parse(lines) == Ok::<CharacterBuildV, ParseErrorV>(cb2),
    ensures
        cb1 == cb2,
{
}

} // verus!
