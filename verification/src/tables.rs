//! Hash tables for the sparse parts of the model, backed by
//! `fxhash::FxHashMap` (std's `HashMap` with the Fx hasher).
//!
//! The verifier sees each table as an opaque value whose contents are the
//! `Map` given by its view function; the methods below are the trusted
//! boundary to the outside crate.  All three key types are plain
//! field-less (or `Copy` tagged-union) enumerations whose derived `Eq`
//! and `Hash` are structural, so a map's contents are keyed exactly by
//! structural equality.

use vstd::prelude::*;

use fxhash::FxHashMap;

use crate::model::{EnhancementTree, EnhancementTreeName, EnhancementV, Skill};

verus! {

/// Points-per-level table: skill -> the 20 per-level point spends.
#[verifier::external_body]
#[derive(Debug)]
pub struct SkillTable {
    map: FxHashMap<Skill, Vec<u8>>,
}

/// The contents of a [`SkillTable`].
pub uninterp spec fn skill_table_view(t: SkillTable) -> Map<Skill, Seq<u8>>;

/// The contents of a freshly built [`SkillTable`].
pub open spec fn skill_table_empty() -> Map<Skill, Seq<u8>> {
    Map::empty()
}

impl View for SkillTable {
    type V = Map<Skill, Seq<u8>>;

    open spec fn view(&self) -> Map<Skill, Seq<u8>> {
        skill_table_view(*self)
    }
}

impl SkillTable {
    /// Relies on `HashMap::default` (std, through fxhash's `FxHashMap`
    /// alias): a freshly built map is empty.
    #[verifier::external_body]
    pub fn new() -> (r: SkillTable)
        ensures
            r@ == skill_table_empty(),
    {
        SkillTable { map: FxHashMap::default() }
    }

    /// Relies on `HashMap::insert` (std): the entry for `k` is replaced
    /// by `v` and all other entries are kept.
    #[verifier::external_body]
    pub fn insert(&mut self, k: Skill, v: Vec<u8>)
        ensures
            skill_table_view(*final(self)) == skill_table_view(*old(self)).insert(k, v@),
    {
        self.map.insert(k, v);
    }

    /// Relies on `HashMap::get` (std): returns the entry for `k` exactly
    /// when one is present.
    #[verifier::external_body]
    pub fn get(&self, k: Skill) -> (r: Option<&Vec<u8>>)
        ensures
            match r {
                Some(v) => skill_table_view(*self).dom().contains(k) && v@ == skill_table_view(
                    *self,
                )[k],
                None => !skill_table_view(*self).dom().contains(k),
            },
    {
        self.map.get(&k)
    }

    /// Relies on `HashMap::eq` (std): two maps are equal exactly when
    /// they hold the same entries.  A `Vec<u8>` is determined by its
    /// `Seq<u8>` view, so entry equality and contents equality coincide.
    #[verifier::external_body]
    pub fn eq_view(&self, other: &SkillTable) -> (r: bool)
        ensures
            r == (skill_table_view(*self) == skill_table_view(*other)),
    {
        self.map == other.map
    }
}

/// Tome table: skill -> tome bonus value.
#[verifier::external_body]
#[derive(Debug)]
pub struct SkillTomeTable {
    map: FxHashMap<Skill, u8>,
}

/// The contents of a [`SkillTomeTable`].
pub uninterp spec fn skill_tome_view(t: SkillTomeTable) -> Map<Skill, u8>;

/// The contents of a freshly built [`SkillTomeTable`].
pub open spec fn skill_tome_empty() -> Map<Skill, u8> {
    Map::empty()
}

impl View for SkillTomeTable {
    type V = Map<Skill, u8>;

    open spec fn view(&self) -> Map<Skill, u8> {
        skill_tome_view(*self)
    }
}

impl SkillTomeTable {
    /// Relies on `HashMap::default` (std, through fxhash's `FxHashMap`
    /// alias): a freshly built map is empty.
    #[verifier::external_body]
    pub fn new() -> (r: SkillTomeTable)
        ensures
            r@ == skill_tome_empty(),
    {
        SkillTomeTable { map: FxHashMap::default() }
    }

    /// Relies on `HashMap::insert` (std): the entry for `k` is replaced
    /// by `v` and all other entries are kept.
    #[verifier::external_body]
    pub fn insert(&mut self, k: Skill, v: u8)
        ensures
            skill_tome_view(*final(self)) == skill_tome_view(*old(self)).insert(k, v),
    {
        self.map.insert(k, v);
    }

    /// Relies on `HashMap::get` (std): returns the entry for `k` exactly
    /// when one is present.
    #[verifier::external_body]
    pub fn get(&self, k: Skill) -> (r: Option<u8>)
        ensures
            match r {
                Some(v) => skill_tome_view(*self).dom().contains(k) && v == skill_tome_view(
                    *self,
                )[k],
                None => !skill_tome_view(*self).dom().contains(k),
            },
    {
        self.map.get(&k).copied()
    }

    /// Relies on `HashMap::eq` (std): two maps are equal exactly when
    /// they hold the same entries.
    #[verifier::external_body]
    pub fn eq_view(&self, other: &SkillTomeTable) -> (r: bool)
        ensures
            r == (skill_tome_view(*self) == skill_tome_view(*other)),
    {
        self.map == other.map
    }
}

/// Enhancement-tree table: tree identifier -> the tree's six tiers.
#[verifier::external_body]
#[derive(Debug)]
pub struct TreeTable {
    map: FxHashMap<EnhancementTreeName, EnhancementTree>,
}

/// The contents of a [`TreeTable`], with each stored tree abstracted to
/// its view.
pub uninterp spec fn tree_table_view(t: TreeTable) -> Map<
    EnhancementTreeName,
    Seq<Seq<EnhancementV>>,
>;

/// The contents of a freshly built [`TreeTable`].
pub open spec fn tree_table_empty() -> Map<EnhancementTreeName, Seq<Seq<EnhancementV>>> {
    Map::empty()
}

impl View for TreeTable {
    type V = Map<EnhancementTreeName, Seq<Seq<EnhancementV>>>;

    open spec fn view(&self) -> Map<EnhancementTreeName, Seq<Seq<EnhancementV>>> {
        tree_table_view(*self)
    }
}

impl TreeTable {
    /// Relies on `HashMap::default` (std, through fxhash's `FxHashMap`
    /// alias): a freshly built map is empty.
    #[verifier::external_body]
    pub fn new() -> (r: TreeTable)
        ensures
            r@ == tree_table_empty(),
    {
        TreeTable { map: FxHashMap::default() }
    }

    /// Relies on `HashMap::insert` (std): the entry for `k` is replaced
    /// by `v` and all other entries are kept.
    #[verifier::external_body]
    pub fn insert(&mut self, k: EnhancementTreeName, v: EnhancementTree)
        ensures
            tree_table_view(*final(self)) == tree_table_view(*old(self)).insert(k, v@),
    {
        self.map.insert(k, v);
    }

    /// Relies on `HashMap::get` (std): returns the entry for `k` exactly
    /// when one is present.
    #[verifier::external_body]
    pub fn get(&self, k: EnhancementTreeName) -> (r: Option<&EnhancementTree>)
        ensures
            match r {
                Some(t) => tree_table_view(*self).dom().contains(k) && t@ == tree_table_view(
                    *self,
                )[k],
                None => !tree_table_view(*self).dom().contains(k),
            },
    {
        self.map.get(&k)
    }

    /// Relies on `HashMap::eq` (std): two maps are equal exactly when
    /// they hold the same entries.  A stored tree is determined by its
    /// view (the entry names, subnames and ranks), so entry equality and
    /// contents equality coincide.
    #[verifier::external_body]
    pub fn eq_view(&self, other: &TreeTable) -> (r: bool)
        ensures
            r == (tree_table_view(*self) == tree_table_view(*other)),
    {
        self.map == other.map
    }
}

} // verus!
