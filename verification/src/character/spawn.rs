//! Spawn system: turns a character definition into the seed structures
//! consumed by the external battle engine.

use crate::character::class::spec_proficiency_bonus_at_level;
use crate::character::{spec_effective_value, spec_race_increases, Character};
use crate::compendium::{compendium, CompendiumRegistry};
use crate::error::{SRDError, SRDResult};
use crate::rules::action::{ActionInitializer, ActionsSeed};
use crate::rules::statistic::{StatisticInitializer, StatisticsSeed};
use vstd::prelude::*;

verus! {

/// The six statistics every creature starts with, before its abilities
/// and skills: race, class, level, size, proficiency bonus and hit
/// points, in this order.
pub open spec fn spec_base_statistics_of(
    character: Character,
    registry: CompendiumRegistry,
    entries: Seq<StatisticInitializer>,
) -> bool {
    let comp = registry.spec_current();
    &&& entries.len() == 6
    &&& (entries[0] matches StatisticInitializer::Race(r) && r@ == character.spec_race()@)
    &&& (entries[1] matches StatisticInitializer::Class(c) && c@ == character.spec_class()@)
    &&& (entries[2] matches StatisticInitializer::Level(l) && l == character.spec_level())
    &&& (entries[3] matches StatisticInitializer::Size(s) && s == comp.spec_races_map()[
        character.spec_race()@].spec_size())
    &&& (entries[4] matches StatisticInitializer::ProficiencyBonus(b) && b.0
        == spec_proficiency_bonus_at_level(character.spec_level().spec_value() as int))
    &&& (entries[5] matches StatisticInitializer::HitPoints(h) && h
        == character.spec_hit_points())
}

/// One ability statistic per stored ability, carrying the effective
/// (race-bonused) score, in storage order.
pub open spec fn spec_ability_statistics_of(
    character: Character,
    registry: CompendiumRegistry,
    entries: Seq<StatisticInitializer>,
) -> bool {
    let abilities = character.spec_abilities();
    let increases = spec_race_increases(registry.spec_current(), character.spec_race()@);
    &&& entries.len() == abilities.len()
    &&& forall|i: int|
        0 <= i < entries.len() ==> (#[trigger] entries[i] matches StatisticInitializer::Ability(
            id,
            score,
        ) && id == abilities[i].0 && score.spec_value() == spec_effective_value(
            abilities[i].1.spec_value() as int,
            increases,
            abilities[i].0,
        ))
}

/// One skill statistic per stored skill, in storage order.
pub open spec fn spec_skill_statistics_of(
    character: Character,
    entries: Seq<StatisticInitializer>,
) -> bool {
    let skills = character.spec_skills();
    &&& entries.len() == skills.len()
    &&& forall|i: int|
        0 <= i < entries.len() ==> (#[trigger] entries[i] matches StatisticInitializer::Skill(
            id,
            proficiency,
        ) && id == skills[i].0 && proficiency == skills[i].1)
}

/// Helper to build the engine seeds for the given character.
pub struct CharacterSpawner<'a> {
    character: &'a Character,
}

impl<'a> CharacterSpawner<'a> {
    /// The character the seeds are built for.
    pub closed spec fn spec_character(self) -> Character {
        *self.character
    }

    /// Constructs a spawner for the given character.
    pub fn new(character: &'a Character) -> (r: Self)
        ensures
            r.spec_character() == *character,
    {
        Self { character }
    }

    /// Builds the statistics seed: the six base statistics followed by
    /// one entry per ability and one per skill.
    ///
    /// The character's race and class must still exist in the registry's
    /// compendium; otherwise the matching lookup error is returned.
    pub fn build_statistics(&self, registry: &CompendiumRegistry) -> (r: SRDResult<StatisticsSeed>)
        ensures
            !registry.spec_current().spec_races_map().dom().contains(
                self.spec_character().spec_race()@,
            ) ==> (r matches Err(e) && e matches SRDError::RaceNotFound(x) && x@
                == self.spec_character().spec_race()@),
            registry.spec_current().spec_races_map().dom().contains(
                self.spec_character().spec_race()@,
            ) && !registry.spec_current().spec_classes_map().dom().contains(
                self.spec_character().spec_class()@,
            ) ==> (r matches Err(e) && e matches SRDError::ClassNotFound(x) && x@
                == self.spec_character().spec_class()@),
            registry.spec_current().spec_races_map().dom().contains(
                self.spec_character().spec_race()@,
            ) && registry.spec_current().spec_classes_map().dom().contains(
                self.spec_character().spec_class()@,
            ) ==> (r matches Ok(seed) && {
                let n_abilities = self.spec_character().spec_abilities().len();
                let n_skills = self.spec_character().spec_skills().len();
                &&& seed.statistics@.len() == 6 + n_abilities + n_skills
                &&& spec_base_statistics_of(
                    self.spec_character(),
                    *registry,
                    seed.statistics@.subrange(0, 6),
                )
                &&& spec_ability_statistics_of(
                    self.spec_character(),
                    *registry,
                    seed.statistics@.subrange(6, 6 + n_abilities as int),
                )
                &&& spec_skill_statistics_of(
                    self.spec_character(),
                    seed.statistics@.subrange(
                        6 + n_abilities as int,
                        seed.statistics@.len() as int,
                    ),
                )
            }),
    {
        let mut seed = StatisticsSeed::default();
        self.add_base_statistics(registry, &mut seed)?;
        let ghost base = seed.statistics@;
        self.add_abilities(registry, &mut seed);
        let ghost with_abilities = seed.statistics@;
        self.add_skills(&mut seed);
        proof {
            let n_abilities = self.spec_character().spec_abilities().len();
            assert(base.skip(0) =~= base);
            assert(seed.statistics@.subrange(0, 6) =~= base);
            assert(seed.statistics@.subrange(6, 6 + n_abilities as int) =~= with_abilities.skip(
                6,
            ));
            assert(seed.statistics@.subrange(6 + n_abilities as int, seed.statistics@.len() as int)
                =~= seed.statistics@.skip(6 + n_abilities as int));
        }
        Ok(seed)
    }

    /// Appends the six base statistics to the seed.
    fn add_base_statistics(&self, registry: &CompendiumRegistry, seed: &mut StatisticsSeed) -> (r:
        SRDResult<()>)
        ensures
            !registry.spec_current().spec_races_map().dom().contains(
                self.spec_character().spec_race()@,
            ) ==> (r matches Err(e) && e matches SRDError::RaceNotFound(x) && x@
                == self.spec_character().spec_race()@ && final(seed).statistics@ == old(
                seed,
            ).statistics@),
            registry.spec_current().spec_races_map().dom().contains(
                self.spec_character().spec_race()@,
            ) && !registry.spec_current().spec_classes_map().dom().contains(
                self.spec_character().spec_class()@,
            ) ==> (r matches Err(e) && e matches SRDError::ClassNotFound(x) && x@
                == self.spec_character().spec_class()@ && final(seed).statistics@ == old(
                seed,
            ).statistics@),
            registry.spec_current().spec_races_map().dom().contains(
                self.spec_character().spec_race()@,
            ) && registry.spec_current().spec_classes_map().dom().contains(
                self.spec_character().spec_class()@,
            ) ==> (r matches Ok(u) && final(seed).statistics@.len() == old(seed).statistics@.len()
                + 6 && final(seed).statistics@.subrange(0, old(seed).statistics@.len() as int)
                == old(seed).statistics@ && spec_base_statistics_of(
                self.spec_character(),
                *registry,
                final(seed).statistics@.skip(old(seed).statistics@.len() as int),
            )),
    {
        let comp = compendium(registry);
        let race_model = match comp.race_model(self.character.race()) {
            Some(model) => model,
            None => {
                return Err(SRDError::RaceNotFound(self.character.race().clone()));
            },
        };
        let class_model = match comp.class_model(self.character.class()) {
            Some(model) => model,
            None => {
                return Err(SRDError::ClassNotFound(self.character.class().clone()));
            },
        };
        let size = race_model.size();
        let bonus = class_model.proficiency_bonus(self.character.level());
        seed.statistics.push(StatisticInitializer::Race(self.character.race().clone()));
        seed.statistics.push(StatisticInitializer::Class(self.character.class().clone()));
        seed.statistics.push(StatisticInitializer::Level(*self.character.level()));
        seed.statistics.push(StatisticInitializer::Size(size));
        seed.statistics.push(StatisticInitializer::ProficiencyBonus(bonus));
        seed.statistics.push(StatisticInitializer::HitPoints(*self.character.hit_points()));
        proof {
            assert(final(seed).statistics@.subrange(0, old(seed).statistics@.len() as int) =~= old(
                seed,
            ).statistics@);
        }
        Ok(())
    }

    /// Appends one ability statistic per stored ability, carrying the
    /// effective (race-bonused) scores.
    fn add_abilities(&self, registry: &CompendiumRegistry, seed: &mut StatisticsSeed)
        ensures
            final(seed).statistics@.len() == old(seed).statistics@.len()
                + self.spec_character().spec_abilities().len(),
            final(seed).statistics@.subrange(0, old(seed).statistics@.len() as int) == old(
                seed,
            ).statistics@,
            spec_ability_statistics_of(
                self.spec_character(),
                *registry,
                final(seed).statistics@.skip(old(seed).statistics@.len() as int),
            ),
    {
        let effective = self.character.abilities(registry);
        proof {
            assert(self.spec_character() == *self.character);
            assert forall|j: int| 0 <= j < effective@.len() implies (#[trigger] effective@[j].0
                == self.spec_character().spec_abilities()[j].0 && effective@[j].1.spec_value()
                == spec_effective_value(
                self.spec_character().spec_abilities()[j].1.spec_value() as int,
                spec_race_increases(
                    registry.spec_current(),
                    self.spec_character().spec_race()@,
                ),
                self.spec_character().spec_abilities()[j].0,
            )) by {
                assert(effective@[j].0 == (*self.character).spec_abilities()[j].0);
            }
        }
        let mut i: usize = 0;
        #[verifier::loop_isolation(false)]
        while i < effective.len()
            invariant
                0 <= i <= effective@.len(),
                seed.statistics@.len() == old(seed).statistics@.len() + i,
                seed.statistics@.subrange(0, old(seed).statistics@.len() as int) == old(
                    seed,
                ).statistics@,
                forall|j: int|
                    0 <= j < i ==> (#[trigger] seed.statistics@[old(seed).statistics@.len() + j]
                        matches StatisticInitializer::Ability(id, score) && id == effective@[j].0
                        && score == effective@[j].1),
            decreases effective@.len() - i,
        {
            let (id, score) = effective[i];
            seed.statistics.push(StatisticInitializer::Ability(id, score));
            proof {
                assert(seed.statistics@.subrange(0, old(seed).statistics@.len() as int) =~= old(
                    seed,
                ).statistics@);
            }
            i = i + 1;
        }
        proof {
            let n = old(seed).statistics@.len() as int;
            let entries = seed.statistics@.skip(n);
            let abilities = self.spec_character().spec_abilities();
            let increases = spec_race_increases(
                registry.spec_current(),
                self.spec_character().spec_race()@,
            );
            assert forall|k: int| 0 <= k < entries.len() implies (#[trigger] entries[k]
                matches StatisticInitializer::Ability(id, score) && id == abilities[k].0
                && score.spec_value() == spec_effective_value(
                abilities[k].1.spec_value() as int,
                increases,
                abilities[k].0,
            )) by {
                assert(entries[k] == seed.statistics@[n + k]);
            }
        }
    }

    /// Appends one skill statistic per stored skill.
    fn add_skills(&self, seed: &mut StatisticsSeed)
        ensures
            final(seed).statistics@.len() == old(seed).statistics@.len()
                + self.spec_character().spec_skills().len(),
            final(seed).statistics@.subrange(0, old(seed).statistics@.len() as int) == old(
                seed,
            ).statistics@,
            spec_skill_statistics_of(
                self.spec_character(),
                final(seed).statistics@.skip(old(seed).statistics@.len() as int),
            ),
    {
        let skills = self.character.skills();
        let mut i: usize = 0;
        while i < skills.len()
            invariant
                0 <= i <= skills@.len(),
                skills@ == self.spec_character().spec_skills(),
                seed.statistics@.len() == old(seed).statistics@.len() + i,
                seed.statistics@.subrange(0, old(seed).statistics@.len() as int) == old(
                    seed,
                ).statistics@,
                forall|j: int|
                    0 <= j < i ==> (#[trigger] seed.statistics@[old(seed).statistics@.len() + j]
                        matches StatisticInitializer::Skill(id, proficiency) && id == skills@[j].0
                        && proficiency == skills@[j].1),
            decreases skills@.len() - i,
        {
            let (id, proficiency) = skills[i];
            seed.statistics.push(StatisticInitializer::Skill(id, proficiency));
            proof {
                assert(seed.statistics@.subrange(0, old(seed).statistics@.len() as int) =~= old(
                    seed,
                ).statistics@);
            }
            i = i + 1;
        }
        proof {
            let n = old(seed).statistics@.len() as int;
            let entries = seed.statistics@.skip(n);
            assert forall|k: int| 0 <= k < entries.len() implies (#[trigger] entries[k]
                matches StatisticInitializer::Skill(id, proficiency) && id
                == self.spec_character().spec_skills()[k].0 && proficiency
                == self.spec_character().spec_skills()[k].1) by {
                assert(entries[k] == seed.statistics@[n + k]);
            }
        }
    }

    /// Builds the actions seed: the fixed default action set.
    pub fn build_actions(&self) -> (r: ActionsSeed)
        ensures
            r.actions@ =~= seq![ActionInitializer::Movement, ActionInitializer::Attack],
    {
        let mut seed = ActionsSeed::default();
        self.add_base_actions(&mut seed);
        seed
    }

    /// Appends the default actions to the seed.
    fn add_base_actions(&self, seed: &mut ActionsSeed)
        ensures
            final(seed).actions@ == old(seed).actions@.push(ActionInitializer::Movement).push(
                ActionInitializer::Attack,
            ),
    {
        seed.actions.push(ActionInitializer::Movement);
        seed.actions.push(ActionInitializer::Attack);
    }
}

} // verus!
