//! Parser for the plain-text character-build files written by an external
//! character-planning tool.
//!
//! One call to [`parse`] makes a single pass over the input lines,
//! classifies each line, dispatches it to the grammar of the current
//! section, folds the extracted fields into a scratch aggregate, and at
//! end-of-input either freezes a fully validated [`CharacterBuild`] or
//! reports the first error found.

pub mod builder;
pub mod errors;
pub mod grammar;
pub mod laws;
pub mod model;
pub mod names;
pub mod tables;
pub mod text;

pub use builder::parse;
pub use errors::ParseError;
pub use model::{
    Ability, Alignment, BaseFeatType, BuildType, CharacterBuild, Class, ClassEnhancementTree,
    Enhancement, EnhancementTree, EnhancementTreeName, Enhancements, Feat, Feats,
    GlobalEnhancementTree, Race, RaceClassEnhancementTree, SecondaryFeatType, Skill, Skills,
    Spellbook, Spells, Stats,
};
