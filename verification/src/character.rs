//! Playable and non-playable characters.

pub mod class;
pub use self::class::{ClassId, ClassModel};

pub mod level;
pub use self::level::Level;

pub mod race;
pub use self::race::RaceId;

pub mod spawn;

use self::race::generic_model::{spec_bonus_total, GenericRaceModel};
use crate::ability::{
    spec_ability_capped, spec_ability_modifier, AbilityId, AbilityScore, CONSTITUTION,
};
use crate::compendium::{compendium, CompendiumRegistry, StandardCompendium};
use crate::error::{SRDError, SRDResult};
use crate::hit_points::{sum_of, HitPoints, HitPointsHistory};
use crate::proficiency::Proficiency;
use crate::skill::SkillId;
use crate::util::{
    assoc_contains, assoc_keys_unique, assoc_map, lemma_assoc_index_unique, lemma_assoc_map_index,
    lemma_assoc_upsert, spec_upsert,
};
use vstd::prelude::*;
use vstd::string::StringExecFns;

verus! {

/// A character unique identifier.
#[derive(Debug)]
pub struct CharacterId(pub String);

impl View for CharacterId {
    type V = Seq<char>;

    open spec fn view(&self) -> Seq<char> {
        self.0@
    }
}

impl CharacterId {
    /// Constructs a `CharacterId` from a string slice.
    pub fn from_str(item: &str) -> (r: Self)
        ensures
            r@ == item@,
    {
        CharacterId(String::from_str(item))
    }
}

impl Clone for CharacterId {
    /// Clones the id, preserving its value.
    fn clone(&self) -> (r: Self)
        ensures
            r@ == self@,
    {
        CharacterId(self.0.clone())
    }
}

impl PartialEq for CharacterId {
    fn eq(&self, other: &Self) -> (r: bool) {
        self.0 == other.0
    }
}

impl vstd::std_specs::cmp::PartialEqSpecImpl for CharacterId {
    open spec fn obeys_eq_spec() -> bool {
        true
    }

    open spec fn eq_spec(&self, other: &Self) -> bool {
        self.0@ == other.0@
    }
}

/// The ability-score increases that a compendium's race grants, or none
/// when the race is not registered.
pub open spec fn spec_race_increases(comp: StandardCompendium, race: Seq<char>) -> Seq<
    (AbilityId, AbilityScore),
> {
    if comp.spec_races_map().dom().contains(race) {
        comp.spec_races_map()[race].spec_increases()
    } else {
        Seq::empty()
    }
}

/// The effective value of a stored ability score once the given race
/// increases have been applied to it, clamped into the legal range.
pub open spec fn spec_effective_value(
    raw: int,
    increases: Seq<(AbilityId, AbilityScore)>,
    id: AbilityId,
) -> u8 {
    spec_ability_capped(raw + spec_bonus_total(increases, id))
}

/// The Constitution modifier that hit points are derived from: the
/// modifier of the effective Constitution score, or 0 for a character
/// that has no Constitution ability at all.
pub open spec fn spec_con_modifier(
    abilities: Seq<(AbilityId, AbilityScore)>,
    increases: Seq<(AbilityId, AbilityScore)>,
) -> int {
    if assoc_contains(abilities, AbilityId(CONSTITUTION)) {
        spec_ability_modifier(
            spec_effective_value(
                assoc_map(abilities)[AbilityId(CONSTITUTION)].spec_value() as int,
                increases,
                AbilityId(CONSTITUTION),
            ) as int,
        )
    } else {
        0
    }
}

/// The hit points derived from a roll history and a Constitution
/// modifier: the sum of the rolls, plus the modifier once per roll, and
/// never less than 1.
pub open spec fn spec_derived_hit_points(history: Seq<u8>, con_modifier: int) -> int {
    let total = sum_of(history) + history.len() * con_modifier;
    if total < 1 {
        1
    } else {
        total
    }
}

/// Every ability the compendium registers appears in the character's
/// store, in registration order, at the default score of 10.
pub open spec fn spec_default_abilities(c: Character, comp: StandardCompendium) -> bool {
    &&& c.spec_abilities().len() == comp.spec_abilities().len()
    &&& forall|i: int|
        0 <= i < c.spec_abilities().len() ==> #[trigger] c.spec_abilities()[i].0
            == comp.spec_abilities()[i] && c.spec_abilities()[i].1.spec_value() == 10
}

/// Every skill the compendium registers appears in the character's
/// store, in registration order, with no proficiency.
pub open spec fn spec_default_skills(c: Character, comp: StandardCompendium) -> bool {
    &&& c.spec_skills().len() == comp.spec_skills().len()
    &&& forall|i: int|
        0 <= i < c.spec_skills().len() ==> #[trigger] c.spec_skills()[i].0 == comp.spec_skills()[
            i].0 && c.spec_skills()[i].1 == Proficiency(false)
}

/// Hit points follow the Constitution modifier: as long as neither total
/// is clamped at the minimum of 1, changing the modifier changes the
/// derived hit points by exactly the modifier difference once per
/// recorded roll.
pub proof fn lemma_hit_points_follow_con_modifier(history: Seq<u8>, before: int, after: int)
    requires
        sum_of(history) + history.len() * before >= 1,
        sum_of(history) + history.len() * after >= 1,
    ensures
        spec_derived_hit_points(history, after) - spec_derived_hit_points(history, before)
            == history.len() * (after - before),
{
    vstd::arithmetic::mul::lemma_mul_is_distributive_sub(history.len() as int, after, before);
}

/// Derived hit points always fit the 16-bit domain of the hit-point
/// primitive: at least 1, and at most the largest possible roll total
/// plus the largest possible Constitution bonus.
pub proof fn lemma_derived_hit_points_in_domain(history: Seq<u8>, con_modifier: int)
    requires
        history.len() <= crate::hit_points::HIT_POINTS_HISTORY_CAP,
        -5 <= con_modifier <= 10,
    ensures
        1 <= spec_derived_hit_points(history, con_modifier) <= 5300,
{
    crate::hit_points::lemma_sum_of_bounds(history);
    let n = history.len() as int;
    assert(-100 <= n * con_modifier <= 200) by (nonlinear_arith)
        requires
            0 <= n <= 20,
            -5 <= con_modifier <= 10,
    ;
}

/// A fictional character. The main entity of a game.
///
/// Objects of this kind contain all information needed to represent a PC
/// (playable character) or a NPC (non-playable character). This structure
/// does not handle the character in battle: its purpose is to describe an
/// entity so that one creature with these properties can be spawned into
/// a battle, possibly many times.
#[derive(Debug)]
pub struct Character {
    id: CharacterId,
    race: RaceId,
    class: ClassId,
    level: Level,
    hit_points: HitPoints,
    hit_points_history: HitPointsHistory,
    abilities: Vec<(AbilityId, AbilityScore)>,
    skills: Vec<(SkillId, Proficiency)>,
}

impl Character {
    /// The character's id.
    pub closed spec fn spec_id(self) -> CharacterId {
        self.id
    }

    /// The character's race.
    pub closed spec fn spec_race(self) -> RaceId {
        self.race
    }

    /// The character's class.
    pub closed spec fn spec_class(self) -> ClassId {
        self.class
    }

    /// The character's level.
    pub closed spec fn spec_level(self) -> Level {
        self.level
    }

    /// The character's derived hit points.
    pub closed spec fn spec_hit_points(self) -> HitPoints {
        self.hit_points
    }

    /// The character's hit-point rolls, one per level.
    pub closed spec fn spec_history(self) -> Seq<u8> {
        self.hit_points_history.spec_results()
    }

    /// The character's stored ability scores, without race bonuses.
    pub closed spec fn spec_abilities(self) -> Seq<(AbilityId, AbilityScore)> {
        self.abilities@
    }

    /// The character's skill proficiencies.
    pub closed spec fn spec_skills(self) -> Seq<(SkillId, Proficiency)> {
        self.skills@
    }

    /// A character is well formed when it stores at most one score per
    /// ability, at most one proficiency per skill, and a valid roll
    /// history.
    pub open spec fn wf(self) -> bool {
        &&& assoc_keys_unique(self.spec_abilities())
        &&& assoc_keys_unique(self.spec_skills())
        &&& self.spec_history().len() <= crate::hit_points::HIT_POINTS_HISTORY_CAP
        &&& forall|i: int|
            0 <= i < self.spec_history().len() ==> #[trigger] self.spec_history()[i] != 0
    }

    /// The character's hit points match the derived formula for the
    /// catalog in `comp`.
    pub open spec fn spec_hit_points_derived(self, comp: StandardCompendium) -> bool {
        &&& self.spec_hit_points().spec_value() == spec_derived_hit_points(
            self.spec_history(),
            spec_con_modifier(
                self.spec_abilities(),
                spec_race_increases(comp, self.spec_race()@),
            ),
        )
        &&& self.spec_hit_points().spec_max() == self.spec_hit_points().spec_value()
    }

    /// Constructs a new `Character`.
    ///
    /// The character's race and class must exist in the registry's
    /// current compendium; ability scores and skill proficiencies are
    /// seeded from every ability and skill the compendium registers, and
    /// first-level hit points are rolled as the class's maximum.
    #[verifier::rlimit(50)]
    pub fn new(registry: &CompendiumRegistry, id: CharacterId, race: RaceId, class: ClassId) -> (r:
        SRDResult<Self>)
        ensures
            !registry.spec_current().spec_classes_map().dom().contains(class@) ==> (r matches Err(e)
                && e matches SRDError::ClassNotFound(c) && c@ == class@),
            registry.spec_current().spec_classes_map().dom().contains(class@) && !registry
                .spec_current()
                .spec_races_map()
                .dom()
                .contains(race@) ==> (r matches Err(e) && e matches SRDError::RaceNotFound(x) && x@
                == race@),
            registry.spec_current().spec_classes_map().dom().contains(class@) && registry
                .spec_current()
                .spec_races_map()
                .dom()
                .contains(race@) ==> (r matches Ok(c) && c.wf()),
            registry.spec_current().spec_classes_map().dom().contains(class@) && registry
                .spec_current()
                .spec_races_map()
                .dom()
                .contains(race@) ==> (r matches Ok(c) && c.spec_id()@ == id@ && c.spec_race()@
                == race@ && c.spec_class()@ == class@),
            registry.spec_current().spec_classes_map().dom().contains(class@) && registry
                .spec_current()
                .spec_races_map()
                .dom()
                .contains(race@) ==> (r matches Ok(c) && c.spec_level().spec_value() == 1),
            registry.spec_current().spec_classes_map().dom().contains(class@) && registry
                .spec_current()
                .spec_races_map()
                .dom()
                .contains(race@) ==> (r matches Ok(c) && c.spec_history() == seq![
                crate::dice::spec_die_sides(
                    registry.spec_current().spec_classes_map()[class@].spec_hit_dice().die,
                ),
            ]),
            registry.spec_current().spec_classes_map().dom().contains(class@) && registry
                .spec_current()
                .spec_races_map()
                .dom()
                .contains(race@) ==> (r matches Ok(c) && spec_default_abilities(
                c,
                registry.spec_current(),
            )),
            registry.spec_current().spec_classes_map().dom().contains(class@) && registry
                .spec_current()
                .spec_races_map()
                .dom()
                .contains(race@) ==> (r matches Ok(c) && spec_default_skills(
                c,
                registry.spec_current(),
            )),
            registry.spec_current().spec_classes_map().dom().contains(class@) && registry
                .spec_current()
                .spec_races_map()
                .dom()
                .contains(race@) ==> (r matches Ok(c) && c.spec_hit_points_derived(
                registry.spec_current(),
            )),
    {
        let comp = compendium(registry);
        let first_level_hp = match comp.class_model(&class) {
            Some(model) => model.hit_points_at_1st_level(),
            None => {
                return Err(SRDError::ClassNotFound(class));
            },
        };
        if comp.race_model(&race).is_none() {
            return Err(SRDError::RaceNotFound(race));
        }
        let mut hit_points_history = HitPointsHistory::default();
        let added = hit_points_history.add_result(first_level_hp);
        proof {
            assert(added is Ok);
        }
        let comp_abilities = comp.abilities();
        let mut abilities: Vec<(AbilityId, AbilityScore)> = Vec::new();
        let mut i: usize = 0;
        while i < comp_abilities.len()
            invariant
                0 <= i <= comp_abilities@.len(),
                abilities@.len() == i,
                forall|j: int|
                    0 <= j < i ==> #[trigger] abilities@[j].0 == comp_abilities@[j]
                        && abilities@[j].1.spec_value() == 10,
            decreases comp_abilities@.len() - i,
        {
            abilities.push((comp_abilities[i], AbilityScore::capped(10)));
            i = i + 1;
        }
        let comp_skill_ids = comp.skills();
        let mut skills: Vec<(SkillId, Proficiency)> = Vec::new();
        let mut j: usize = 0;
        while j < comp_skill_ids.len()
            invariant
                0 <= j <= comp_skill_ids@.len(),
                skills@.len() == j,
                forall|k: int|
                    0 <= k < j ==> #[trigger] skills@[k].0 == comp_skill_ids@[k] && skills@[k].1
                        == Proficiency(false),
            decreases comp_skill_ids@.len() - j,
        {
            skills.push((comp_skill_ids[j], Proficiency(false)));
            j = j + 1;
        }
        let mut instance = Self {
            id,
            race,
            class,
            level: Level::default(),
            hit_points: HitPoints::from_value(first_level_hp as i64),
            hit_points_history,
            abilities,
            skills,
        };
        proof {
            assert(assoc_keys_unique(instance.spec_abilities())) by {
                assert forall|x: int, y: int|
                    0 <= x < y < instance.spec_abilities().len() implies instance.spec_abilities()[
                    x].0 != instance.spec_abilities()[y].0 by {
                    assert(comp_abilities@.no_duplicates());
                }
            }
            assert(assoc_keys_unique(instance.spec_skills())) by {
                assert forall|x: int, y: int|
                    0 <= x < y < instance.spec_skills().len() implies instance.spec_skills()[x].0
                    != instance.spec_skills()[y].0 by {
                    assert(comp_skill_ids@[x] == comp.spec_skills()[x].0);
                    assert(comp_skill_ids@[y] == comp.spec_skills()[y].0);
                }
            }
        }
        instance.apply_ability_bonuses(registry);
        proof {
            let ghost comp = registry.spec_current();
            assert(instance.wf());
            assert(instance.spec_level().spec_value() == 1);
            assert(instance.spec_history() == seq![
                crate::dice::spec_die_sides(
                    comp.spec_classes_map()[instance.spec_class()@].spec_hit_dice().die,
                ),
            ]);
            assert(spec_default_abilities(instance, comp)) by {
                assert(forall|i: int|
                    0 <= i < instance.spec_abilities().len() ==> #[trigger] instance
                        .spec_abilities()[i].0 == comp.spec_abilities()[i]
                        && instance.spec_abilities()[i].1.spec_value() == 10);
            }
            assert(spec_default_skills(instance, comp)) by {
                assert forall|i: int|
                    0 <= i < instance.spec_skills().len() implies #[trigger] instance
                        .spec_skills()[i].0 == comp.spec_skills()[i].0 && instance.spec_skills()[
                        i].1 == Proficiency(false) by {
                    assert(instance.spec_skills()[i].0 == comp_skill_ids@[i]);
                    assert(comp_skill_ids@[i] == comp.spec_skills()[i].0);
                }
            }
            assert(instance.spec_hit_points_derived(comp));
        }
        Ok(instance)
    }

    /// Returns the character's id.
    pub fn id(&self) -> (r: &CharacterId)
        ensures
            *r == self.spec_id(),
    {
        &self.id
    }

    /// Returns the character's race.
    pub fn race(&self) -> (r: &RaceId)
        ensures
            *r == self.spec_race(),
    {
        &self.race
    }

    /// Returns the character's class.
    pub fn class(&self) -> (r: &ClassId)
        ensures
            *r == self.spec_class(),
    {
        &self.class
    }

    /// Returns the character's level.
    pub fn level(&self) -> (r: &Level)
        ensures
            *r == self.spec_level(),
    {
        &self.level
    }

    /// Returns the character's hit points.
    pub fn hit_points(&self) -> (r: &HitPoints)
        ensures
            *r == self.spec_hit_points(),
    {
        &self.hit_points
    }

    /// Returns the character's stored ability scores, without race
    /// bonuses.
    pub fn raw_abilities(&self) -> (r: &Vec<(AbilityId, AbilityScore)>)
        ensures
            r@ == self.spec_abilities(),
    {
        &self.abilities
    }

    /// Returns the character's ability scores with race bonuses applied:
    /// each stored score raised by the sum of the matching race
    /// increases, clamped into the legal range. The stored scores are not
    /// modified.
    pub fn abilities(&self, registry: &CompendiumRegistry) -> (r: Vec<(AbilityId, AbilityScore)>)
        ensures
            r@.len() == self.spec_abilities().len(),
            forall|i: int|
                0 <= i < r@.len() ==> #[trigger] r@[i].0 == self.spec_abilities()[i].0
                    && r@[i].1.spec_value() == spec_effective_value(
                    self.spec_abilities()[i].1.spec_value() as int,
                    spec_race_increases(registry.spec_current(), self.spec_race()@),
                    self.spec_abilities()[i].0,
                ),
    {
        let comp = compendium(registry);
        let model = comp.race_model(&self.race);
        let ghost increases = spec_race_increases(registry.spec_current(), self.spec_race()@);
        let mut result: Vec<(AbilityId, AbilityScore)> = Vec::new();
        let mut i: usize = 0;
        while i < self.abilities.len()
            invariant
                0 <= i <= self.spec_abilities().len(),
                result@.len() == i,
                increases == spec_race_increases(registry.spec_current(), self.spec_race()@),
                model matches Some(m) ==> registry.spec_current().spec_races_map().dom().contains(
                    self.spec_race()@,
                ) && *m == registry.spec_current().spec_races_map()[self.spec_race()@],
                model is None ==> !registry.spec_current().spec_races_map().dom().contains(
                    self.spec_race()@,
                ),
                forall|j: int|
                    0 <= j < i ==> #[trigger] result@[j].0 == self.spec_abilities()[j].0
                        && result@[j].1.spec_value() == spec_effective_value(
                        self.spec_abilities()[j].1.spec_value() as int,
                        increases,
                        self.spec_abilities()[j].0,
                    ),
            decreases self.spec_abilities().len() - i,
        {
            let (ability_id, raw) = self.abilities[i];
            let effective = effective_score(raw, model, ability_id);
            proof {
                match model {
                    Some(m) => {
                        assert(increases == m.spec_increases());
                    },
                    None => {
                        assert(spec_bonus_total(increases, ability_id) == 0);
                    },
                }
            }
            result.push((ability_id, effective));
            i = i + 1;
        }
        result
    }

    /// Returns the character's skill proficiencies.
    pub fn skills(&self) -> (r: &Vec<(SkillId, Proficiency)>)
        ensures
            r@ == self.spec_skills(),
    {
        &self.skills
    }

    /// Adds or replaces one ability score, and recomputes the hit points
    /// that depend on it.
    pub fn add_ability(&mut self, registry: &CompendiumRegistry, ability: AbilityId, score: AbilityScore)
        requires
            old(self).wf(),
        ensures
            final(self).wf(),
            final(self).spec_abilities() == spec_upsert(
                old(self).spec_abilities(),
                ability,
                score,
            ),
            assoc_map(final(self).spec_abilities()) == assoc_map(
                old(self).spec_abilities(),
            ).insert(ability, score),
            final(self).spec_skills() == old(self).spec_skills(),
            final(self).spec_id() == old(self).spec_id(),
            final(self).spec_race() == old(self).spec_race(),
            final(self).spec_class() == old(self).spec_class(),
            final(self).spec_level() == old(self).spec_level(),
            final(self).spec_history() == old(self).spec_history(),
            final(self).spec_hit_points_derived(registry.spec_current()),
    {
        proof {
            lemma_assoc_upsert(old(self).spec_abilities(), ability, score);
        }
        match self.ability_index(ability) {
            Some(i) => {
                self.abilities.set(i, (ability, score));
                proof {
                    let s = old(self).spec_abilities();
                    let j = crate::util::assoc_index_of(s, ability);
                    assert(0 <= j < s.len() && s[j].0 == ability);
                    lemma_assoc_index_unique(s, i as int, j);
                }
            },
            None => {
                self.abilities.push((ability, score));
            },
        }
        self.apply_ability_bonuses(registry);
    }

    /// Adds or replaces one skill proficiency.
    pub fn add_skill(&mut self, skill: SkillId, proficiency: Proficiency)
        requires
            old(self).wf(),
        ensures
            final(self).wf(),
            final(self).spec_skills() == spec_upsert(old(self).spec_skills(), skill, proficiency),
            assoc_map(final(self).spec_skills()) == assoc_map(old(self).spec_skills()).insert(
                skill,
                proficiency,
            ),
            final(self).spec_abilities() == old(self).spec_abilities(),
            final(self).spec_id() == old(self).spec_id(),
            final(self).spec_race() == old(self).spec_race(),
            final(self).spec_class() == old(self).spec_class(),
            final(self).spec_level() == old(self).spec_level(),
            final(self).spec_history() == old(self).spec_history(),
            final(self).spec_hit_points() == old(self).spec_hit_points(),
    {
        proof {
            lemma_assoc_upsert(old(self).spec_skills(), skill, proficiency);
        }
        match self.skill_index(skill) {
            Some(i) => {
                self.skills.set(i, (skill, proficiency));
                proof {
                    let s = old(self).spec_skills();
                    let j = crate::util::assoc_index_of(s, skill);
                    assert(0 <= j < s.len() && s[j].0 == skill);
                    lemma_assoc_index_unique(s, i as int, j);
                }
            },
            None => {
                self.skills.push((skill, proficiency));
            },
        }
    }

    /// Finds the position of an ability's entry.
    fn ability_index(&self, ability: AbilityId) -> (r: Option<usize>)
        ensures
            r matches Some(i) ==> i < self.spec_abilities().len()
                && self.spec_abilities()[i as int].0 == ability,
            r is None ==> !assoc_contains(self.spec_abilities(), ability),
    {
        let mut i: usize = 0;
        while i < self.abilities.len()
            invariant
                0 <= i <= self.spec_abilities().len(),
                forall|j: int| 0 <= j < i ==> self.spec_abilities()[j].0 != ability,
            decreases self.spec_abilities().len() - i,
        {
            if self.abilities[i].0 == ability {
                return Some(i);
            }
            i = i + 1;
        }
        None
    }

    /// Finds the position of a skill's entry.
    fn skill_index(&self, skill: SkillId) -> (r: Option<usize>)
        ensures
            r matches Some(i) ==> i < self.spec_skills().len() && self.spec_skills()[i as int].0
                == skill,
            r is None ==> !assoc_contains(self.spec_skills(), skill),
    {
        let mut i: usize = 0;
        while i < self.skills.len()
            invariant
                0 <= i <= self.spec_skills().len(),
                forall|j: int| 0 <= j < i ==> self.spec_skills()[j].0 != skill,
            decreases self.spec_skills().len() - i,
        {
            if self.skills[i].0 == skill {
                return Some(i);
            }
            i = i + 1;
        }
        None
    }

    /// Applies ability bonuses to the character's derived values.
    fn apply_ability_bonuses(&mut self, registry: &CompendiumRegistry)
        requires
            old(self).wf(),
        ensures
            final(self).wf(),
            final(self).spec_abilities() == old(self).spec_abilities(),
            final(self).spec_skills() == old(self).spec_skills(),
            final(self).spec_id() == old(self).spec_id(),
            final(self).spec_race() == old(self).spec_race(),
            final(self).spec_class() == old(self).spec_class(),
            final(self).spec_level() == old(self).spec_level(),
            final(self).spec_history() == old(self).spec_history(),
            final(self).spec_hit_points_derived(registry.spec_current()),
    {
        self.apply_constitution_bonus(registry);
    }

    /// Recomputes the character's hit points from the roll history and
    /// the effective Constitution modifier.
    fn apply_constitution_bonus(&mut self, registry: &CompendiumRegistry)
        requires
            old(self).wf(),
        ensures
            final(self).wf(),
            final(self).spec_abilities() == old(self).spec_abilities(),
            final(self).spec_skills() == old(self).spec_skills(),
            final(self).spec_id() == old(self).spec_id(),
            final(self).spec_race() == old(self).spec_race(),
            final(self).spec_class() == old(self).spec_class(),
            final(self).spec_level() == old(self).spec_level(),
            final(self).spec_history() == old(self).spec_history(),
            final(self).spec_hit_points_derived(registry.spec_current()),
    {
        let comp = compendium(registry);
        let model = comp.race_model(&self.race);
        let ghost increases = spec_race_increases(registry.spec_current(), self.spec_race()@);
        let modifier: i8 = match self.ability_index(AbilityId(CONSTITUTION)) {
            Some(i) => {
                let raw = self.abilities[i].1;
                proof {
                    lemma_assoc_map_index(self.spec_abilities(), i as int);
                }
                let effective = effective_score(raw, model, AbilityId(CONSTITUTION));
                proof {
                    match model {
                        Some(m) => {
                            assert(increases == m.spec_increases());
                        },
                        None => {
                            assert(spec_bonus_total(increases, AbilityId(CONSTITUTION)) == 0);
                        },
                    }
                }
                effective.modifier()
            },
            None => 0,
        };
        let base: i64 = self.hit_points_history.total() as i64;
        let count: i64 = self.hit_points_history.count() as i64;
        proof {
            crate::hit_points::lemma_sum_of_bounds(self.spec_history());
            let c: int = count as int;
            let m: int = modifier as int;
            assert(-100 <= c * m <= 200) by (nonlinear_arith)
                requires
                    0 <= c <= 20,
                    -5 <= m <= 10,
            ;
        }
        let bonus: i64 = count * (modifier as i64);
        let total: i64 = base + bonus;
        let hit_points: i64 = if total < 1 {
            1
        } else {
            total
        };
        self.hit_points = HitPoints::from_value(hit_points);
    }
}

/// The stored score `raw` raised by the race's total bonus for the
/// ability `id`, clamped into the legal range. A character without a
/// registered race gets no bonus.
fn effective_score(raw: AbilityScore, model: Option<&GenericRaceModel>, id: AbilityId) -> (r:
    AbilityScore)
    ensures
        r.spec_value() == spec_ability_capped(
            raw.spec_value() + match model {
                Some(m) => spec_bonus_total(m.spec_increases(), id),
                None => 0,
            },
    ),
{
    let bonus: u8 = match model {
        Some(m) => m.bonus_total_saturated(id),
        None => 0,
    };
    let raw_value = raw.value();
    let sum: u16 = raw_value as u16 + bonus as u16;
    let capped: u8 = if sum > 30 {
        30
    } else {
        sum as u8
    };
    AbilityScore::capped(capped)
}

impl PartialEq for Character {
    /// Characters are compared by id only.
    fn eq(&self, other: &Self) -> (r: bool) {
        self.id.0 == other.id.0
    }
}

impl vstd::std_specs::cmp::PartialEqSpecImpl for Character {
    open spec fn obeys_eq_spec() -> bool {
        true
    }

    open spec fn eq_spec(&self, other: &Self) -> bool {
        self.spec_id()@ == other.spec_id()@
    }
}

} // verus!
