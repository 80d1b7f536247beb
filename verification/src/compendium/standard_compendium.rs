//! Classic implementation of the compendium.

use crate::ability::{AbilityId, CHARISMA, CONSTITUTION, DEXTERITY, INTELLIGENCE, STRENGTH, WISDOM};
use crate::character::class::fighter::{fighter_model, spec_is_fighter_model, FIGHTER};
use crate::character::class::{ClassId, ClassModel};
use crate::character::race::generic_model::GenericRaceModel;
use crate::character::race::hill_dwarf::{hill_dwarf_model, spec_is_hill_dwarf_model, HILL_DWARF};
use crate::character::race::RaceId;
use crate::skill::SkillId;
use crate::util::{
    assoc_contains, assoc_keys_unique, assoc_map, lemma_assoc_index_unique,
    lemma_assoc_map_contains, lemma_assoc_map_index, lemma_assoc_upsert, spec_upsert,
};
use vstd::prelude::*;

verus! {

/// The ability identifiers of the SRD, in registration order.
pub open spec fn spec_srd_abilities() -> Seq<AbilityId> {
    seq![
        AbilityId(0),
        AbilityId(1),
        AbilityId(2),
        AbilityId(3),
        AbilityId(4),
        AbilityId(5),
    ]
}

/// The skills of the SRD with their associated abilities, in registration
/// order.
pub open spec fn spec_srd_skills() -> Seq<(SkillId, AbilityId)> {
    seq![
        (SkillId(0), AbilityId(1)),
        (SkillId(1), AbilityId(4)),
        (SkillId(2), AbilityId(3)),
        (SkillId(3), AbilityId(0)),
        (SkillId(4), AbilityId(5)),
        (SkillId(5), AbilityId(3)),
        (SkillId(6), AbilityId(4)),
        (SkillId(7), AbilityId(5)),
        (SkillId(8), AbilityId(3)),
        (SkillId(9), AbilityId(4)),
        (SkillId(10), AbilityId(3)),
        (SkillId(11), AbilityId(4)),
        (SkillId(12), AbilityId(5)),
        (SkillId(13), AbilityId(5)),
        (SkillId(14), AbilityId(3)),
        (SkillId(15), AbilityId(1)),
        (SkillId(16), AbilityId(1)),
        (SkillId(17), AbilityId(4)),
    ]
}

/// The entries of a registry keyed by a string id, with each key replaced
/// by its character sequence.
pub open spec fn spec_entries_by_name<I: View<V = Seq<char>>, M>(s: Seq<(I, M)>) -> Seq<
    (Seq<char>, M),
> {
    s.map_values(|p: (I, M)| (p.0@, p.1))
}

/// A compendium holding the full content of the SRD and nothing else.
pub open spec fn spec_is_srd_compendium(c: StandardCompendium) -> bool {
    &&& c.spec_version() == 0
    &&& c.spec_abilities() == spec_srd_abilities()
    &&& c.spec_skills() == spec_srd_skills()
    &&& c.spec_races().len() == 1
    &&& c.spec_races()[0].0@ == "_hill_dwarf"@
    &&& spec_is_hill_dwarf_model(c.spec_races()[0].1)
    &&& c.spec_classes().len() == 1
    &&& c.spec_classes()[0].0@ == "_fighter"@
    &&& spec_is_fighter_model(c.spec_classes()[0].1)
}

/// Classic implementation of the compendium.
/// It allows registering new components at runtime; registering an id a
/// second time replaces its entry.
#[derive(Debug)]
pub struct StandardCompendium {
    abilities: Vec<AbilityId>,
    skills: Vec<(SkillId, AbilityId)>,
    races: Vec<(RaceId, GenericRaceModel)>,
    classes: Vec<(ClassId, ClassModel)>,
    version: u32,
}

impl StandardCompendium {
    /// The registered ability ids, in registration order.
    pub closed spec fn spec_abilities(self) -> Seq<AbilityId> {
        self.abilities@
    }

    /// The registered skills with their associated abilities, in
    /// registration order.
    pub closed spec fn spec_skills(self) -> Seq<(SkillId, AbilityId)> {
        self.skills@
    }

    /// The registered races with their models, in registration order.
    pub closed spec fn spec_races(self) -> Seq<(RaceId, GenericRaceModel)> {
        self.races@
    }

    /// The registered classes with their models, in registration order.
    pub closed spec fn spec_classes(self) -> Seq<(ClassId, ClassModel)> {
        self.classes@
    }

    /// The compendium's version.
    pub closed spec fn spec_version(self) -> u32 {
        self.version
    }

    /// The mapping from skill to associated ability.
    pub open spec fn spec_skills_map(self) -> Map<SkillId, AbilityId> {
        assoc_map(self.spec_skills())
    }

    /// The mapping from race name to race model.
    pub open spec fn spec_races_map(self) -> Map<Seq<char>, GenericRaceModel> {
        assoc_map(spec_entries_by_name(self.spec_races()))
    }

    /// The mapping from class name to class model.
    pub open spec fn spec_classes_map(self) -> Map<Seq<char>, ClassModel> {
        assoc_map(spec_entries_by_name(self.spec_classes()))
    }

    /// A compendium is well formed when every registry holds at most one
    /// entry per id.
    pub open spec fn wf(self) -> bool {
        &&& self.spec_abilities().no_duplicates()
        &&& assoc_keys_unique(self.spec_skills())
        &&& assoc_keys_unique(spec_entries_by_name(self.spec_races()))
        &&& assoc_keys_unique(spec_entries_by_name(self.spec_classes()))
    }

    /// Constructs a compendium without any registered content.
    fn empty() -> (r: Self)
        ensures
            r.wf(),
            r.spec_abilities() =~= Seq::<AbilityId>::empty(),
            r.spec_skills() =~= Seq::<(SkillId, AbilityId)>::empty(),
            r.spec_races() =~= Seq::<(RaceId, GenericRaceModel)>::empty(),
            r.spec_classes() =~= Seq::<(ClassId, ClassModel)>::empty(),
            r.spec_version() == 0,
    {
        let r = Self {
            abilities: Vec::new(),
            skills: Vec::new(),
            races: Vec::new(),
            classes: Vec::new(),
            version: 0,
        };
        proof {
            assert(spec_entries_by_name(r.spec_races()) =~= Seq::<
                (Seq<char>, GenericRaceModel),
            >::empty());
            assert(spec_entries_by_name(r.spec_classes()) =~= Seq::<
                (Seq<char>, ClassModel),
            >::empty());
        }
        r
    }

    /// Constructs a new `StandardCompendium` with all modules from the SRD.
    pub fn with_srd() -> (r: Self)
        ensures
            r.wf(),
            spec_is_srd_compendium(r),
    {
        let mut compendium = Self::empty();
        compendium.add_srd_abilities();
        compendium.add_srd_skills();
        compendium.add_srd_races();
        compendium.add_srd_classes();
        compendium
    }

    /// Sets the version of this compendium.
    pub fn set_version(&mut self, version: u32)
        requires
            old(self).wf(),
        ensures
            final(self).wf(),
            final(self).spec_version() == version,
            final(self).spec_abilities() == old(self).spec_abilities(),
            final(self).spec_skills() == old(self).spec_skills(),
            final(self).spec_races() == old(self).spec_races(),
            final(self).spec_classes() == old(self).spec_classes(),
    {
        self.version = version;
    }

    /// Returns the version of this compendium.
    pub fn version(&self) -> (r: u32)
        ensures
            r == self.spec_version(),
    {
        self.version
    }

    /// Returns whether an ability is already registered.
    fn ability_registered(&self, ability: AbilityId) -> (r: bool)
        ensures
            r == self.spec_abilities().contains(ability),
    {
        let mut i: usize = 0;
        while i < self.abilities.len()
            invariant
                0 <= i <= self.spec_abilities().len(),
                forall|j: int| 0 <= j < i ==> self.spec_abilities()[j] != ability,
            decreases self.spec_abilities().len() - i,
        {
            if self.abilities[i] == ability {
                return true;
            }
            i = i + 1;
        }
        false
    }

    /// Adds a new ability; an ability already registered is left as it is.
    pub fn add_ability(&mut self, ability: AbilityId)
        requires
            old(self).wf(),
        ensures
            final(self).wf(),
            final(self).spec_abilities() == if old(self).spec_abilities().contains(ability) {
                old(self).spec_abilities()
            } else {
                old(self).spec_abilities().push(ability)
            },
            final(self).spec_skills() == old(self).spec_skills(),
            final(self).spec_races() == old(self).spec_races(),
            final(self).spec_classes() == old(self).spec_classes(),
            final(self).spec_version() == old(self).spec_version(),
    {
        let found = self.ability_registered(ability);
        if !found {
            proof {
                assert(!old(self).spec_abilities().contains(ability));
            }
            self.abilities.push(ability);
            proof {
                assert forall|x: int, y: int|
                    x != y && 0 <= x < self.spec_abilities().len() && 0 <= y
                        < self.spec_abilities().len() implies self.spec_abilities()[x]
                    != self.spec_abilities()[y] by {
                    if y == self.spec_abilities().len() - 1 && x < y {
                        assert(old(self).spec_abilities()[x] == self.spec_abilities()[x]);
                    }
                    if x == self.spec_abilities().len() - 1 && y < x {
                        assert(old(self).spec_abilities()[y] == self.spec_abilities()[y]);
                    }
                }
                assert(self.spec_abilities().no_duplicates());
            }
        }
    }

    /// Adds all abilities from the SRD; on a compendium with no abilities
    /// registered yet, the result is exactly the SRD's ability list.
    pub fn add_srd_abilities(&mut self)
        requires
            old(self).wf(),
        ensures
            final(self).wf(),
            old(self).spec_abilities().len() == 0 ==> final(self).spec_abilities()
                == spec_srd_abilities(),
            final(self).spec_skills() == old(self).spec_skills(),
            final(self).spec_races() == old(self).spec_races(),
            final(self).spec_classes() == old(self).spec_classes(),
            final(self).spec_version() == old(self).spec_version(),
    {
        self.add_ability(AbilityId(STRENGTH));
        self.add_ability(AbilityId(DEXTERITY));
        self.add_ability(AbilityId(CONSTITUTION));
        self.add_ability(AbilityId(INTELLIGENCE));
        self.add_ability(AbilityId(WISDOM));
        self.add_ability(AbilityId(CHARISMA));
        proof {
            if old(self).spec_abilities().len() == 0 {
                assert(self.spec_abilities() =~= spec_srd_abilities());
            }
        }
    }

    /// Returns all registered abilities, in registration order.
    pub fn abilities(&self) -> (r: &Vec<AbilityId>)
        ensures
            r@ == self.spec_abilities(),
    {
        &self.abilities
    }

    /// Finds the position of a skill's entry.
    fn skill_index(&self, skill: SkillId) -> (r: Option<usize>)
        ensures
            r matches Some(i) ==> i < self.spec_skills().len() && self.spec_skills()[i as int].0
                == skill,
            r is None ==> !assoc_contains(self.spec_skills(), skill),
    {
        let mut i: usize = 0;
        while i < self.skills.len()
            invariant
                0 <= i <= self.spec_skills().len(),
                forall|j: int| 0 <= j < i ==> self.spec_skills()[j].0 != skill,
            decreases self.spec_skills().len() - i,
        {
            if self.skills[i].0 == skill {
                return Some(i);
            }
            i = i + 1;
        }
        None
    }

    /// Adds or replaces a skill and the ability to which it's connected.
    pub fn add_skill(&mut self, skill: SkillId, dependency: AbilityId)
        requires
            old(self).wf(),
        ensures
            final(self).wf(),
            final(self).spec_skills() == spec_upsert(old(self).spec_skills(), skill, dependency),
            final(self).spec_skills_map() == old(self).spec_skills_map().insert(
                skill,
                dependency,
            ),
            final(self).spec_abilities() == old(self).spec_abilities(),
            final(self).spec_races() == old(self).spec_races(),
            final(self).spec_classes() == old(self).spec_classes(),
            final(self).spec_version() == old(self).spec_version(),
    {
        proof {
            lemma_assoc_upsert(old(self).spec_skills(), skill, dependency);
        }
        match self.skill_index(skill) {
            Some(i) => {
                self.skills.set(i, (skill, dependency));
                proof {
                    let s = old(self).spec_skills();
                    let j = crate::util::assoc_index_of(s, skill);
                    assert(0 <= j < s.len() && s[j].0 == skill);
                    lemma_assoc_index_unique(s, i as int, j);
                }
            },
            None => {
                self.skills.push((skill, dependency));
            },
        }
    }

    /// Adds all skills from the SRD; on a compendium with no skills
    /// registered yet, the result is exactly the SRD's skill table.
    #[verifier::rlimit(50)]
    pub fn add_srd_skills(&mut self)
        requires
            old(self).wf(),
        ensures
            final(self).wf(),
            old(self).spec_skills().len() == 0 ==> final(self).spec_skills() == spec_srd_skills(),
            final(self).spec_abilities() == old(self).spec_abilities(),
            final(self).spec_races() == old(self).spec_races(),
            final(self).spec_classes() == old(self).spec_classes(),
            final(self).spec_version() == old(self).spec_version(),
    {
        self.add_skill(SkillId(crate::skill::ACROBATICS), AbilityId(DEXTERITY));
        self.add_skill(SkillId(crate::skill::ANIMAL_HANDLING), AbilityId(WISDOM));
        self.add_skill(SkillId(crate::skill::ARCANA), AbilityId(INTELLIGENCE));
        self.add_skill(SkillId(crate::skill::ATHLETICS), AbilityId(STRENGTH));
        self.add_skill(SkillId(crate::skill::DECEPTION), AbilityId(CHARISMA));
        self.add_skill(SkillId(crate::skill::HISTORY), AbilityId(INTELLIGENCE));
        self.add_skill(SkillId(crate::skill::INSIGHT), AbilityId(WISDOM));
        self.add_skill(SkillId(crate::skill::INTIMIDATION), AbilityId(CHARISMA));
        self.add_skill(SkillId(crate::skill::INVESTIGATION), AbilityId(INTELLIGENCE));
        self.add_skill(SkillId(crate::skill::MEDICINE), AbilityId(WISDOM));
        self.add_skill(SkillId(crate::skill::NATURE), AbilityId(INTELLIGENCE));
        self.add_skill(SkillId(crate::skill::PERCEPTION), AbilityId(WISDOM));
        self.add_skill(SkillId(crate::skill::PERFORMANCE), AbilityId(CHARISMA));
        self.add_skill(SkillId(crate::skill::PERSUASION), AbilityId(CHARISMA));
        self.add_skill(SkillId(crate::skill::RELIGION), AbilityId(INTELLIGENCE));
        self.add_skill(SkillId(crate::skill::SLEIGHT_OF_HAND), AbilityId(DEXTERITY));
        self.add_skill(SkillId(crate::skill::STEALTH), AbilityId(DEXTERITY));
        self.add_skill(SkillId(crate::skill::SURVIVAL), AbilityId(WISDOM));
        proof {
            if old(self).spec_skills().len() == 0 {
                assert(self.spec_skills() =~= spec_srd_skills());
            }
        }
    }

    /// Returns all registered skill ids, in registration order.
    pub fn skills(&self) -> (r: Vec<SkillId>)
        ensures
            r@.len() == self.spec_skills().len(),
            forall|i: int| 0 <= i < r@.len() ==> r@[i] == self.spec_skills()[i].0,
    {
        let mut ids: Vec<SkillId> = Vec::new();
        let mut i: usize = 0;
        while i < self.skills.len()
            invariant
                0 <= i <= self.spec_skills().len(),
                ids@.len() == i,
                forall|j: int| 0 <= j < i ==> ids@[j] == self.spec_skills()[j].0,
            decreases self.spec_skills().len() - i,
        {
            ids.push(self.skills[i].0);
            i = i + 1;
        }
        ids
    }

    /// Returns the ability associated to the given skill, or `None` if the
    /// skill doesn't exist.
    pub fn associated_ability(&self, skill: &SkillId) -> (r: Option<&AbilityId>)
        requires
            self.wf(),
        ensures
            r matches Some(a) ==> self.spec_skills_map().dom().contains(*skill) && *a
                == self.spec_skills_map()[*skill],
            r is None ==> !self.spec_skills_map().dom().contains(*skill),
    {
        proof {
            lemma_assoc_map_contains(self.spec_skills(), *skill);
        }
        match self.skill_index(*skill) {
            Some(i) => {
                proof {
                    lemma_assoc_map_index(self.spec_skills(), i as int);
                }
                Some(&self.skills[i].1)
            },
            None => None,
        }
    }

    /// Finds the position of a race's entry.
    fn race_index(&self, race: &RaceId) -> (r: Option<usize>)
        ensures
            r matches Some(i) ==> i < self.spec_races().len() && self.spec_races()[i as int].0@
                == race@,
            r is None ==> !assoc_contains(spec_entries_by_name(self.spec_races()), race@),
    {
        let mut i: usize = 0;
        while i < self.races.len()
            invariant
                0 <= i <= self.spec_races().len(),
                forall|j: int| 0 <= j < i ==> self.spec_races()[j].0@ != race@,
            decreases self.spec_races().len() - i,
        {
            if self.races[i].0 == *race {
                return Some(i);
            }
            i = i + 1;
        }
        proof {
            let entries = spec_entries_by_name(self.spec_races());
            assert forall|j: int| 0 <= j < entries.len() implies entries[j].0 != race@ by {
                assert(entries[j].0 == self.spec_races()[j].0@);
            }
        }
        None
    }

    /// Adds or replaces a character race and its model.
    pub fn add_race(&mut self, race: RaceId, model: GenericRaceModel)
        requires
            old(self).wf(),
        ensures
            final(self).wf(),
            final(self).spec_races_map() == old(self).spec_races_map().insert(race@, model),
            final(self).spec_races().len() == old(self).spec_races().len() + if assoc_contains(
                spec_entries_by_name(old(self).spec_races()),
                race@,
            ) {
                0int
            } else {
                1int
            },
            !assoc_contains(spec_entries_by_name(old(self).spec_races()), race@) ==> final(self).spec_races() == old(self).spec_races().push((race, model)),
            final(self).spec_abilities() == old(self).spec_abilities(),
            final(self).spec_skills() == old(self).spec_skills(),
            final(self).spec_classes() == old(self).spec_classes(),
            final(self).spec_version() == old(self).spec_version(),
    {
        proof {
            lemma_assoc_upsert(spec_entries_by_name(old(self).spec_races()), race@, model);
        }
        let ghost old_entries = spec_entries_by_name(old(self).spec_races());
        match self.race_index(&race) {
            Some(i) => {
                self.races.set(i, (race, model));
                proof {
                    let j = crate::util::assoc_index_of(old_entries, race@);
                    assert(old_entries[i as int].0 == race@);
                    assert(0 <= j < old_entries.len() && old_entries[j].0 == race@);
                    lemma_assoc_index_unique(old_entries, i as int, j);
                    assert(spec_entries_by_name(self.spec_races()) =~= spec_upsert(
                        old_entries,
                        race@,
                        model,
                    ));
                }
            },
            None => {
                self.races.push((race, model));
                proof {
                    assert(spec_entries_by_name(self.spec_races()) =~= spec_upsert(
                        old_entries,
                        race@,
                        model,
                    ));
                }
            },
        }
    }

    /// Adds all character races from the SRD; on a compendium with no
    /// races registered yet, the result holds exactly the SRD's races.
    pub fn add_srd_races(&mut self)
        requires
            old(self).wf(),
        ensures
            final(self).wf(),
            old(self).spec_races().len() == 0 ==> (final(self).spec_races().len() == 1 && final(self).spec_races()[0].0@ == "_hill_dwarf"@ && spec_is_hill_dwarf_model(
                final(self).spec_races()[0].1,
            )),
            final(self).spec_abilities() == old(self).spec_abilities(),
            final(self).spec_skills() == old(self).spec_skills(),
            final(self).spec_classes() == old(self).spec_classes(),
            final(self).spec_version() == old(self).spec_version(),
    {
        self.add_race(RaceId::from_str(HILL_DWARF), hill_dwarf_model());
    }

    /// Returns all registered race ids, in registration order.
    pub fn races(&self) -> (r: Vec<RaceId>)
        ensures
            r@.len() == self.spec_races().len(),
            forall|i: int| 0 <= i < r@.len() ==> r@[i]@ == self.spec_races()[i].0@,
    {
        let mut ids: Vec<RaceId> = Vec::new();
        let mut i: usize = 0;
        while i < self.races.len()
            invariant
                0 <= i <= self.spec_races().len(),
                ids@.len() == i,
                forall|j: int| 0 <= j < i ==> ids@[j]@ == self.spec_races()[j].0@,
            decreases self.spec_races().len() - i,
        {
            ids.push(self.races[i].0.clone());
            i = i + 1;
        }
        ids
    }

    /// Returns the model describing the given race, or `None` if the race
    /// doesn't exist.
    pub fn race_model(&self, race: &RaceId) -> (r: Option<&GenericRaceModel>)
        requires
            self.wf(),
        ensures
            r matches Some(m) ==> self.spec_races_map().dom().contains(race@) && *m
                == self.spec_races_map()[race@],
            r is None ==> !self.spec_races_map().dom().contains(race@),
    {
        proof {
            lemma_assoc_map_contains(spec_entries_by_name(self.spec_races()), race@);
        }
        match self.race_index(race) {
            Some(i) => {
                proof {
                    let entries = spec_entries_by_name(self.spec_races());
                    assert(entries[i as int].0 == race@);
                    lemma_assoc_map_index(entries, i as int);
                }
                Some(&self.races[i].1)
            },
            None => None,
        }
    }

    /// Finds the position of a class's entry.
    fn class_index(&self, class: &ClassId) -> (r: Option<usize>)
        ensures
            r matches Some(i) ==> i < self.spec_classes().len() && self.spec_classes()[i as int].0@
                == class@,
            r is None ==> !assoc_contains(spec_entries_by_name(self.spec_classes()), class@),
    {
        let mut i: usize = 0;
        while i < self.classes.len()
            invariant
                0 <= i <= self.spec_classes().len(),
                forall|j: int| 0 <= j < i ==> self.spec_classes()[j].0@ != class@,
            decreases self.spec_classes().len() - i,
        {
            if self.classes[i].0 == *class {
                return Some(i);
            }
            i = i + 1;
        }
        proof {
            let entries = spec_entries_by_name(self.spec_classes());
            assert forall|j: int| 0 <= j < entries.len() implies entries[j].0 != class@ by {
                assert(entries[j].0 == self.spec_classes()[j].0@);
            }
        }
        None
    }

    /// Adds or replaces a character class and its model.
    pub fn add_class(&mut self, class: ClassId, model: ClassModel)
        requires
            old(self).wf(),
        ensures
            final(self).wf(),
            final(self).spec_classes_map() == old(self).spec_classes_map().insert(class@, model),
            final(self).spec_classes().len() == old(self).spec_classes().len() + if assoc_contains(
                spec_entries_by_name(old(self).spec_classes()),
                class@,
            ) {
                0int
            } else {
                1int
            },
            !assoc_contains(spec_entries_by_name(old(self).spec_classes()), class@) ==> final(self).spec_classes() == old(self).spec_classes().push((class, model)),
            final(self).spec_abilities() == old(self).spec_abilities(),
            final(self).spec_skills() == old(self).spec_skills(),
            final(self).spec_races() == old(self).spec_races(),
            final(self).spec_version() == old(self).spec_version(),
    {
        proof {
            lemma_assoc_upsert(spec_entries_by_name(old(self).spec_classes()), class@, model);
        }
        let ghost old_entries = spec_entries_by_name(old(self).spec_classes());
        match self.class_index(&class) {
            Some(i) => {
                self.classes.set(i, (class, model));
                proof {
                    let j = crate::util::assoc_index_of(old_entries, class@);
                    assert(old_entries[i as int].0 == class@);
                    assert(0 <= j < old_entries.len() && old_entries[j].0 == class@);
                    lemma_assoc_index_unique(old_entries, i as int, j);
                    assert(spec_entries_by_name(self.spec_classes()) =~= spec_upsert(
                        old_entries,
                        class@,
                        model,
                    ));
                }
            },
            None => {
                self.classes.push((class, model));
                proof {
                    assert(spec_entries_by_name(self.spec_classes()) =~= spec_upsert(
                        old_entries,
                        class@,
                        model,
                    ));
                }
            },
        }
    }

    /// Adds all character classes from the SRD; on a compendium with no
    /// classes registered yet, the result holds exactly the SRD's classes.
    pub fn add_srd_classes(&mut self)
        requires
            old(self).wf(),
        ensures
            final(self).wf(),
            old(self).spec_classes().len() == 0 ==> (final(self).spec_classes().len() == 1 && final(self).spec_classes()[0].0@ == "_fighter"@ && spec_is_fighter_model(
                final(self).spec_classes()[0].1,
            )),
            final(self).spec_abilities() == old(self).spec_abilities(),
            final(self).spec_skills() == old(self).spec_skills(),
            final(self).spec_races() == old(self).spec_races(),
            final(self).spec_version() == old(self).spec_version(),
    {
        self.add_class(ClassId::from_str(FIGHTER), fighter_model());
    }

    /// Returns all registered class ids, in registration order.
    pub fn classes(&self) -> (r: Vec<ClassId>)
        ensures
            r@.len() == self.spec_classes().len(),
            forall|i: int| 0 <= i < r@.len() ==> r@[i]@ == self.spec_classes()[i].0@,
    {
        let mut ids: Vec<ClassId> = Vec::new();
        let mut i: usize = 0;
        while i < self.classes.len()
            invariant
                0 <= i <= self.spec_classes().len(),
                ids@.len() == i,
                forall|j: int| 0 <= j < i ==> ids@[j]@ == self.spec_classes()[j].0@,
            decreases self.spec_classes().len() - i,
        {
            ids.push(self.classes[i].0.clone());
            i = i + 1;
        }
        ids
    }

    /// Returns the model describing the given class, or `None` if the
    /// class doesn't exist.
    pub fn class_model(&self, class: &ClassId) -> (r: Option<&ClassModel>)
        requires
            self.wf(),
        ensures
            r matches Some(m) ==> self.spec_classes_map().dom().contains(class@) && *m
                == self.spec_classes_map()[class@],
            r is None ==> !self.spec_classes_map().dom().contains(class@),
    {
        proof {
            lemma_assoc_map_contains(spec_entries_by_name(self.spec_classes()), class@);
        }
        match self.class_index(class) {
            Some(i) => {
                proof {
                    let entries = spec_entries_by_name(self.spec_classes());
                    assert(entries[i as int].0 == class@);
                    lemma_assoc_map_index(entries, i as int);
                }
                Some(&self.classes[i].1)
            },
            None => None,
        }
    }
}

impl Default for StandardCompendium {
    /// Constructs a new `StandardCompendium` without any registered
    /// module.
    fn default() -> (r: Self)
        ensures
            r.wf(),
            r.spec_abilities() =~= Seq::<AbilityId>::empty(),
            r.spec_skills() =~= Seq::<(SkillId, AbilityId)>::empty(),
            r.spec_races() =~= Seq::<(RaceId, GenericRaceModel)>::empty(),
            r.spec_classes() =~= Seq::<(ClassId, ClassModel)>::empty(),
            r.spec_version() == 0,
    {
        Self::empty()
    }
}

} // verus!
