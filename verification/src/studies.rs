//! Studies: the hero builder information they draw on, and the walk through
//! every combination of skills for the slots that a study varies.
use crate::combinations::{count_combinations, count_fits, count_spec, is_combination_at, iter_combination};
use crate::dungeons::TrialDungeon;
use crate::hero_builder::Hero;
use crate::heroes::Team;
use crate::lookup::NameMap;
use crate::skills::{BlueprintInfo, HeroClassInfo, HeroSkillInfo, InnateSkillInfo, contains_string};
use crate::text::{has_lowercase, sort_by_lowercase, sorted_by_lowercase, views};
use vstd::prelude::*;

verus! {

/// Defines a holder for hero builder information necessary to create each variation of the subject hero(es)
pub struct HeroBuilderInformation {
    pub bp_map: NameMap<BlueprintInfo>,
    pub hero_classes: NameMap<HeroClassInfo>,
    pub hero_skill_tier_1_name_map: NameMap<String>,
    pub hero_skill_any_tier_to_tier_1_name_map: NameMap<String>,
    pub hero_skill_abbreviation_map: NameMap<String>,
    pub hero_abbreviation_skill_map: NameMap<String>,
    pub hero_skill_map: NameMap<HeroSkillInfo>,
    pub class_innate_skill_names_map: NameMap<String>,
    pub innate_skill_any_tier_to_tier_1_name_nap: NameMap<String>,
    pub innate_skill_map: NameMap<InnateSkillInfo>,
}

/// For each skill of `skillset` that the table knows, the tier-one name of
/// the skill it cannot be combined with; unknown skills are skipped.
pub open spec fn incompatible_skills_spec(
    skills: Map<Seq<char>, HeroSkillInfo>,
    skillset: Seq<Seq<char>>,
) -> Seq<Seq<char>>
    decreases skillset.len(),
{
    if skillset.len() == 0 {
        Seq::<Seq<char>>::empty()
    } else {
        let prev = incompatible_skills_spec(skills, skillset.drop_last());
        if skills.contains_key(skillset.last()) {
            prev.push(skills[skillset.last()].incompatible_with_t1_name@)
        } else {
            prev
        }
    }
}

/// The classes allowed for `skill` include `class`.
pub open spec fn allows_class(skill: HeroSkillInfo, class: Seq<char>) -> bool {
    exists|i: int| 0 <= i < skill.classes_allowed@.len() && #[trigger] skill.classes_allowed@[i]@ == class
}

/// The classes allowed for `skill` do not include `class`.
pub open spec fn excludes_class(skill: HeroSkillInfo, class: Seq<char>) -> bool {
    !allows_class(skill, class)
}

impl HeroBuilderInformation {
    /// The skills that the skills of `skillset` exclude.
    pub fn get_incompatible_skills(&self, skillset: &Vec<String>) -> (res: Vec<String>)
        ensures
            views(res@) == incompatible_skills_spec(self.hero_skill_map@, views(skillset@)),
    {
        let mut res: Vec<String> = Vec::new();
        let mut i: usize = 0;
        assert(views(skillset@).subrange(0, 0) =~= Seq::<Seq<char>>::empty());
        assert(views(res@) =~= Seq::<Seq<char>>::empty());
        while i < skillset.len()
            invariant
                i <= skillset@.len(),
                views(res@) == incompatible_skills_spec(
                    self.hero_skill_map@,
                    views(skillset@).subrange(0, i as int),
                ),
            decreases skillset@.len() - i,
        {
            proof {
                assert(views(skillset@).subrange(0, i + 1).drop_last() =~= views(skillset@).subrange(
                    0,
                    i as int,
                ));
            }
            match self.hero_skill_map.get(skillset[i].as_str()) {
                Some(hskill) => {
                    let ghost before = res@;
                    res.push(hskill.get_incompatible_with());
                    assert(views(res@) =~= views(before).push(hskill.incompatible_with_t1_name@));
                },
                None => {},
            }
            i = i + 1;
        }
        assert(views(skillset@).subrange(0, skillset@.len() as int) =~= views(skillset@));
        res
    }

    /// The names of the hero skills that `hero_class` may not learn (their
    /// allowed classes do not include it), each once, in the table's order.
    pub fn get_skills_incompatible_with_hero(&self, hero_class: String) -> (res: Vec<String>)
        ensures
            views(res@).no_duplicates(),
            forall|k: Seq<char>|
                views(res@).contains(k) <==> (#[trigger] self.hero_skill_map@.contains_key(k)
                    && excludes_class(self.hero_skill_map@[k], hero_class@)),
    {
        let map = &self.hero_skill_map;
        proof {
            use_type_invariant(map);
        }
        let n = map.num_entries();
        let mut res: Vec<String> = Vec::new();
        let ghost mut idx: Seq<int> = Seq::empty();
        let mut i: usize = 0;
        while i < n
            invariant
                map.wf(),
                n == map.size(),
                i <= n,
                idx.len() == res@.len(),
                forall|a: int|
                    0 <= a < idx.len() ==> 0 <= #[trigger] idx[a] < i && res@[a]@ == map.key_at(idx[a])
                        && excludes_class(map.value_at(idx[a]), hero_class@),
                forall|a: int, b: int| 0 <= a < b < idx.len() ==> #[trigger] idx[a] < #[trigger] idx[b],
                forall|j: int|
                    0 <= j < i && excludes_class(#[trigger] map.value_at(j), hero_class@) ==> idx.contains(j),
            decreases n - i,
        {
            let skill = map.entry_value(i);
            let allowed = skill.get_classes_allowed();
            if !contains_string(&allowed, &hero_class) {
                res.push(map.name_at(i).clone());
                proof {
                    let ghost old_idx = idx;
                    idx = idx.push(i as int);
                    assert forall|j: int|
                        0 <= j < i + 1 && excludes_class(#[trigger] map.value_at(j), hero_class@) implies idx.contains(j) by {
                        if j < i {
                            let a = choose|a: int| 0 <= a < old_idx.len() && old_idx[a] == j;
                            assert(idx[a] == j);
                        } else {
                            assert(idx[old_idx.len() as int] == j);
                        }
                    }
                }
            }
            i = i + 1;
        }
        proof {
            assert(views(res@).no_duplicates()) by {
                assert forall|a: int, b: int|
                    0 <= a < views(res@).len() && 0 <= b < views(res@).len() && a != b implies views(
                    res@,
                )[a] != views(res@)[b] by {
                    map.lemma_entry(idx[a]);
                    if a < b {
                        assert(idx[a] < idx[b]);
                    } else {
                        assert(idx[b] < idx[a]);
                    }
                }
            }
            assert forall|k: Seq<char>|
                views(res@).contains(k) <==> (#[trigger] self.hero_skill_map@.contains_key(k)
                    && excludes_class(self.hero_skill_map@[k], hero_class@)) by {
                if views(res@).contains(k) {
                    let a = choose|a: int| 0 <= a < views(res@).len() && views(res@)[a] == k;
                    map.lemma_entry(idx[a]);
                }
                if self.hero_skill_map@.contains_key(k) && excludes_class(
                    self.hero_skill_map@[k],
                    hero_class@,
                ) {
                    map.lemma_key(k);
                    let j = choose|j: int| 0 <= j < map.size() && map.key_at(j) == k;
                    map.lemma_entry(j);
                    assert(idx.contains(j));
                    let a = choose|a: int| 0 <= a < idx.len() && idx[a] == j;
                    assert(views(res@)[a] == k);
                }
            }
        }
        res
    }
}

/// The stages of a study.
#[derive(Debug, Clone, Copy, PartialEq, Eq, Structural)]
pub enum StudyStatus {
    Created,
    Running,
    Finished,
}

/// Defines a plan for generating and ranking Trials
/// A trial is run for each permutation of team/dungeon variation
pub struct Study {
    pub identifier: String,
    pub description: String,
    pub simulation_qty: i32,
    pub status: StudyStatus,
}

/// A new study, in the `Created` stage.
pub fn create_study(identifier: String, description: String, simulation_qty: i32) -> (res: Study)
    ensures
        res.identifier == identifier,
        res.description == description,
        res.simulation_qty == simulation_qty,
        res.status == StudyStatus::Created,
{
    Study { identifier, description, simulation_qty, status: StudyStatus::Created }
}

/// The strings of `v` that are not listed in `listed`, in order.
pub open spec fn without_listed(v: Seq<Seq<char>>, listed: Seq<Seq<char>>) -> Seq<Seq<char>>
    decreases v.len(),
{
    if v.len() == 0 {
        Seq::<Seq<char>>::empty()
    } else {
        let prev = without_listed(v.drop_last(), listed);
        if listed.contains(v.last()) {
            prev
        } else {
            prev.push(v.last())
        }
    }
}

proof fn lemma_without_listed_len(v: Seq<Seq<char>>, listed: Seq<Seq<char>>)
    ensures
        without_listed(v, listed).len() <= v.len(),
    decreases v.len(),
{
    if v.len() > 0 {
        lemma_without_listed_len(v.drop_last(), listed);
    }
}

/// The strings of `v` not listed in `listed`, in order.
pub fn remove_listed(v: &Vec<String>, listed: &Vec<String>) -> (res: Vec<String>)
    ensures
        views(res@) == without_listed(views(v@), views(listed@)),
{
    let mut res: Vec<String> = Vec::new();
    let mut i: usize = 0;
    assert(views(v@).subrange(0, 0) =~= Seq::<Seq<char>>::empty());
    assert(views(res@) =~= Seq::<Seq<char>>::empty());
    while i < v.len()
        invariant
            i <= v@.len(),
            views(res@) == without_listed(views(v@).subrange(0, i as int), views(listed@)),
        decreases v@.len() - i,
    {
        proof {
            assert(views(v@).subrange(0, i + 1).drop_last() =~= views(v@).subrange(0, i as int));
        }
        let listed_here = contains_string(listed, &v[i]);
        proof {
            if listed_here {
                let j = choose|j: int| 0 <= j < listed@.len() && #[trigger] listed@[j]@ == v@[i as int]@;
                assert(views(listed@)[j] == v@[i as int]@);
            } else {
                assert forall|j: int| 0 <= j < views(listed@).len() implies views(listed@)[j]
                    != views(v@).subrange(0, i + 1).last() by {
                    assert(listed@[j]@ != v@[i as int]@);
                }
            }
        }
        if !listed_here {
            let ghost before = res@;
            res.push(v[i].clone());
            assert(views(res@) =~= views(before).push(v@[i as int]@));
        }
        i = i + 1;
    }
    assert(views(v@).subrange(0, v@.len() as int) =~= views(v@));
    res
}

/// The walk through the combinations of the valid skills over the skill
/// slots that a study varies: the slots not taken by preset skills.
pub struct SkillVariations {
    valid_skills: Vec<String>,
    valid_skills_count: i64,
    preset_skills: Vec<String>,
    varying_skill_slot_count: i64,
    skill_combination_index: i64,
}

impl SkillVariations {
    /// The counts match the lists, the number of combinations can be counted
    /// in `i64`, and the walk has not gone backwards.
    #[verifier::type_invariant]
    pub closed spec fn wf(&self) -> bool {
        &&& self.valid_skills_count == self.valid_skills@.len()
        &&& self.varying_skill_slot_count == 4 - self.preset_skills@.len()
        &&& count_fits(self.valid_skills_count as int, self.varying_skill_slot_count as int)
        &&& self.skill_combination_index >= 0
    }

    /// The skills varied upon, in order.
    pub closed spec fn valid_skills_spec(&self) -> Seq<Seq<char>> {
        views(self.valid_skills@)
    }

    /// The preset skills.
    pub closed spec fn preset_skills_spec(&self) -> Seq<Seq<char>> {
        views(self.preset_skills@)
    }

    /// The number of skill slots varied upon.
    pub closed spec fn varying_slots(&self) -> int {
        self.varying_skill_slot_count as int
    }

    /// The position of the current combination.
    pub closed spec fn index_spec(&self) -> int {
        self.skill_combination_index as int
    }

    /// The number of combinations in the walk.
    pub open spec fn total_spec(&self) -> int {
        count_spec(self.valid_skills_spec().len() as int, self.varying_slots())
    }

    /// Starts the walk over `valid_skills` without the preset skills, ordered
    /// by their lower-case forms.
    pub fn new(valid_skills: Vec<String>, preset_skills: Vec<String>) -> (res: SkillVariations)
        requires
            valid_skills@.len() <= i64::MAX,
            preset_skills@.len() <= i64::MAX,
            count_fits(
                without_listed(views(valid_skills@), views(preset_skills@)).len() as int,
                4 - preset_skills@.len(),
            ),
        ensures
            res.valid_skills_spec().to_multiset() == without_listed(
                views(valid_skills@),
                views(preset_skills@),
            ).to_multiset(),
            sorted_by_lowercase(res.valid_skills_spec()),
            forall|key: Seq<char>|
                #[trigger] res.valid_skills_spec().filter(has_lowercase(key)) == without_listed(
                    views(valid_skills@),
                    views(preset_skills@),
                ).filter(has_lowercase(key)),
            res.preset_skills_spec() == views(preset_skills@),
            res.varying_slots() == 4 - preset_skills@.len(),
            res.index_spec() == 0,
    {
        let vs = remove_listed(&valid_skills, &preset_skills);
        let vs = sort_by_lowercase(vs);
        proof {
            vstd::seq_lib::to_multiset_len(views(vs@));
            vstd::seq_lib::to_multiset_len(without_listed(views(valid_skills@), views(preset_skills@)));
            lemma_without_listed_len(views(valid_skills@), views(preset_skills@));
        }
        let valid_skills_count = vs.len() as i64;
        let varying_skill_slot_count = 4 - preset_skills.len() as i64;
        SkillVariations {
            valid_skills: vs,
            valid_skills_count,
            preset_skills,
            varying_skill_slot_count,
            skill_combination_index: 0,
        }
    }

    /// How many combinations have been walked.
    pub fn count_skill_variations_completed(&self) -> (res: i64)
        ensures
            res == self.index_spec(),
    {
        self.skill_combination_index
    }

    /// How many combinations the walk holds.
    pub fn count_skill_variations_total(&self) -> (res: i64)
        ensures
            res == self.total_spec(),
    {
        proof {
            use_type_invariant(self);
        }
        count_combinations(self.valid_skills_count, self.varying_skill_slot_count)
    }

    /// How many combinations remain to be walked.
    pub fn count_skill_variations_remaining(&self) -> (res: i64)
        ensures
            res == self.total_spec() - self.index_spec(),
    {
        proof {
            use_type_invariant(self);
        }
        count_combinations(self.valid_skills_count, self.varying_skill_slot_count)
            - self.skill_combination_index
    }

    /// The indices (into the valid skills) of the combination at position
    /// `combination_index`; nothing for a position outside the walk.
    pub fn get_skillset_at_specific_combination_index(&self, combination_index: i64) -> (res: Vec<i64>)
        ensures
            !(0 <= combination_index < self.total_spec()) ==> res@.len() == 0,
            0 <= combination_index < self.total_spec() ==> is_combination_at(
                res@,
                combination_index as int,
                self.valid_skills_spec().len() as int,
                self.varying_slots(),
            ),
    {
        proof {
            use_type_invariant(self);
        }
        iter_combination(combination_index, self.valid_skills_count, self.varying_skill_slot_count)
    }

    /// The indices (into the valid skills) of the current combination.
    pub fn get_skillset_at_current_combination_index(&self) -> (res: Vec<i64>)
        ensures
            !(0 <= self.index_spec() < self.total_spec()) ==> res@.len() == 0,
            0 <= self.index_spec() < self.total_spec() ==> is_combination_at(
                res@,
                self.index_spec(),
                self.valid_skills_spec().len() as int,
                self.varying_slots(),
            ),
    {
        self.get_skillset_at_specific_combination_index(self.skill_combination_index)
    }

    /// Moves the walk on to the next combination.
    pub fn increment_combination_index(&mut self)
        requires
            old(self).index_spec() < i64::MAX,
        ensures
            final(self).index_spec() == old(self).index_spec() + 1,
            final(self).valid_skills_spec() == old(self).valid_skills_spec(),
            final(self).preset_skills_spec() == old(self).preset_skills_spec(),
            final(self).varying_slots() == old(self).varying_slots(),
    {
        proof {
            use_type_invariant(&*self);
        }
        self.skill_combination_index = self.skill_combination_index + 1;
    }

    /// The valid skills at the given indices.
    pub fn translate_skillset_from_indices(&self, indices_array: Vec<i64>) -> (res: Vec<String>)
        requires
            forall|i: int|
                0 <= i < indices_array@.len() ==> 0 <= #[trigger] indices_array@[i] < self.valid_skills_spec().len(),
        ensures
            views(res@).len() == indices_array@.len(),
            forall|i: int|
                0 <= i < indices_array@.len() ==> #[trigger] views(res@)[i] == self.valid_skills_spec()[indices_array@[i] as int],
    {
        let mut res: Vec<String> = Vec::new();
        let mut i: usize = 0;
        while i < indices_array.len()
            invariant
                i <= indices_array@.len(),
                forall|k: int|
                    0 <= k < indices_array@.len() ==> 0 <= #[trigger] indices_array@[k] < self.valid_skills@.len(),
                res@.len() == i,
                forall|k: int|
                    0 <= k < i ==> #[trigger] res@[k]@ == self.valid_skills@[indices_array@[k] as int]@,
            decreases indices_array@.len() - i,
        {
            let idx = indices_array[i];
            let ghost before = res@;
            let len = self.valid_skills.len();
            assert(idx < len);
            res.push(self.valid_skills[idx as usize].clone());
            assert(res@[i as int]@ == self.valid_skills@[idx as int]@);
            assert forall|k: int| 0 <= k < i + 1 implies #[trigger] res@[k]@ == self.valid_skills@[indices_array@[k] as int]@ by {
                if k < i {
                    assert(res@[k] == before[k]);
                }
            }
            i = i + 1;
        }
        res
    }

    /// The preset skills followed by the skills of the current combination.
    pub fn get_full_translated_skillset_at_current_combination_index(&self) -> (res: Vec<String>)
        ensures
            0 <= self.index_spec() < self.total_spec() ==> exists|c: Seq<i64>|
                is_combination_at(
                    c,
                    self.index_spec(),
                    self.valid_skills_spec().len() as int,
                    self.varying_slots(),
                ) && #[trigger] views(res@) == self.preset_skills_spec() + c.map_values(
                    |k: i64| self.valid_skills_spec()[k as int],
                ),
            !(0 <= self.index_spec() < self.total_spec()) ==> views(res@) == self.preset_skills_spec(),
    {
        let mut res = crate::skills::clone_strings(&self.preset_skills);
        let indices = self.get_skillset_at_current_combination_index();
        let mut translated = self.translate_skillset_from_indices(indices);
        let ghost before = res@;
        let ghost t = translated@;
        res.append(&mut translated);
        proof {
            assert(views(res@) =~= views(before) + views(t));
            if 0 <= self.index_spec() < self.total_spec() {
                assert(views(t) =~= indices@.map_values(|k: i64| self.valid_skills_spec()[k as int]));
            } else {
                assert(views(res@) =~= views(before));
            }
        }
        res
    }
}

/// An extension of Study for generating and ranking Trials for each combination of skills for a single hero with a static Duo partner
pub struct StaticDuoSkillStudy {
    pub study: Study,
    pub base_team: Team,
    pub subject_hero_identifier: String,
    pub subject_hero_builder: Hero,
    pub variations: SkillVariations,
    pub dungeons: Vec<TrialDungeon>,
    pub automatic_rank_difficulty_optimization: bool,
}

/// Creates a study that varies the skills of `subject_hero_identifier` over
/// the valid skills that are not preset, ordered by their lower-case forms.
pub fn create_static_duo_skill_study(
    identifier: String,
    description: String,
    simulation_qty: i32,
    base_team: Team,
    valid_skills: Vec<String>,
    preset_skills: Vec<String>,
    subject_hero_identifier: String,
    subject_hero_builder: Hero,
    dungeons: Vec<TrialDungeon>,
    automatic_rank_difficulty_optimization: bool,
) -> (res: StaticDuoSkillStudy)
    requires
        valid_skills@.len() <= i64::MAX,
        preset_skills@.len() <= i64::MAX,
        count_fits(
            without_listed(views(valid_skills@), views(preset_skills@)).len() as int,
            4 - preset_skills@.len(),
        ),
    ensures
        res.variations.valid_skills_spec().to_multiset() == without_listed(
            views(valid_skills@),
            views(preset_skills@),
        ).to_multiset(),
        sorted_by_lowercase(res.variations.valid_skills_spec()),
        forall|key: Seq<char>|
            #[trigger] res.variations.valid_skills_spec().filter(has_lowercase(key))
                == without_listed(views(valid_skills@), views(preset_skills@)).filter(
                has_lowercase(key),
            ),
        res.variations.preset_skills_spec() == views(preset_skills@),
        res.variations.varying_slots() == 4 - preset_skills@.len(),
        res.variations.index_spec() == 0,
        res.study.identifier == identifier,
        res.study.description == description,
        res.study.simulation_qty == simulation_qty,
        res.study.status == StudyStatus::Created,
        res.subject_hero_identifier == subject_hero_identifier,
        res.dungeons@ == dungeons@,
        res.automatic_rank_difficulty_optimization == automatic_rank_difficulty_optimization,
{
    StaticDuoSkillStudy {
        study: create_study(identifier, description, simulation_qty),
        base_team,
        subject_hero_identifier,
        subject_hero_builder,
        variations: SkillVariations::new(valid_skills, preset_skills),
        dungeons,
        automatic_rank_difficulty_optimization,
    }
}

impl StaticDuoSkillStudy {
    /// How many combinations have been tried.
    pub fn _count_skill_variations_completed(&self) -> (res: i64)
        ensures
            res == self.variations.index_spec(),
    {
        self.variations.count_skill_variations_completed()
    }

    /// How many combinations the study tries in all.
    pub fn _count_skill_variations_total(&self) -> (res: i64)
        ensures
            res == self.variations.total_spec(),
    {
        self.variations.count_skill_variations_total()
    }

    /// The skill indices of the combination at position `combination_index`.
    pub fn _get_skillset_at_specific_combination_index(&self, combination_index: i64) -> (res: Vec<i64>)
        ensures
            !(0 <= combination_index < self.variations.total_spec()) ==> res@.len() == 0,
            0 <= combination_index < self.variations.total_spec() ==> is_combination_at(
                res@,
                combination_index as int,
                self.variations.valid_skills_spec().len() as int,
                self.variations.varying_slots(),
            ),
    {
        self.variations.get_skillset_at_specific_combination_index(combination_index)
    }

    /// How many combinations remain to be tried.
    pub fn count_skill_variations_remaining(&self) -> (res: i64)
        ensures
            res == self.variations.total_spec() - self.variations.index_spec(),
    {
        self.variations.count_skill_variations_remaining()
    }

    /// The skill indices of the current combination.
    pub fn get_skillset_at_current_combination_index(&self) -> (res: Vec<i64>)
        ensures
            !(0 <= self.variations.index_spec() < self.variations.total_spec()) ==> res@.len() == 0,
            0 <= self.variations.index_spec() < self.variations.total_spec() ==> is_combination_at(
                res@,
                self.variations.index_spec(),
                self.variations.valid_skills_spec().len() as int,
                self.variations.varying_slots(),
            ),
    {
        self.variations.get_skillset_at_current_combination_index()
    }

    /// Moves on to the next combination.
    pub fn increment_combination_index(&mut self)
        requires
            old(self).variations.index_spec() < i64::MAX,
        ensures
            final(self).variations.index_spec() == old(self).variations.index_spec() + 1,
            final(self).variations.valid_skills_spec() == old(self).variations.valid_skills_spec(),
            final(self).variations.preset_skills_spec() == old(self).variations.preset_skills_spec(),
            final(self).variations.varying_slots() == old(self).variations.varying_slots(),
    {
        self.variations.increment_combination_index();
    }

    /// One step of running the study: while combinations remain, the study
    /// is running and the step gives the full skillset of the current
    /// combination, for a trial to be run on; once none remain, the study is
    /// finished and the step gives nothing. The walk itself does not move.
    pub fn next_trial_skillset(&mut self) -> (res: Option<Vec<String>>)
        requires
            old(self).variations.index_spec() <= old(self).variations.total_spec(),
        ensures
            final(self).variations.index_spec() == old(self).variations.index_spec(),
            final(self).variations.valid_skills_spec() == old(self).variations.valid_skills_spec(),
            final(self).variations.preset_skills_spec() == old(self).variations.preset_skills_spec(),
            final(self).variations.varying_slots() == old(self).variations.varying_slots(),
            final(self).study.identifier == old(self).study.identifier,
            final(self).study.description == old(self).study.description,
            final(self).study.simulation_qty == old(self).study.simulation_qty,
            final(self).subject_hero_identifier == old(self).subject_hero_identifier,
            final(self).dungeons@ == old(self).dungeons@,
            old(self).variations.index_spec() < old(self).variations.total_spec() ==> {
                &&& final(self).study.status == StudyStatus::Running
                &&& res matches Some(v) && exists|c: Seq<i64>|
                    is_combination_at(
                        c,
                        old(self).variations.index_spec(),
                        old(self).variations.valid_skills_spec().len() as int,
                        old(self).variations.varying_slots(),
                    ) && #[trigger] views(v@) == old(self).variations.preset_skills_spec()
                        + c.map_values(|k: i64| old(self).variations.valid_skills_spec()[k as int])
            },
            old(self).variations.index_spec() == old(self).variations.total_spec() ==> {
                &&& final(self).study.status == StudyStatus::Finished
                &&& res is None
            },
    {
        proof {
            use_type_invariant(&self.variations);
        }
        if self.count_skill_variations_remaining() > 0 {
            self.study.status = StudyStatus::Running;
            Some(self.get_full_translated_skillset_at_current_combination_index())
        } else {
            self.study.status = StudyStatus::Finished;
            None
        }
    }

    /// The valid skills at the given indices.
    pub fn translate_skillset_from_indices(&self, indices_array: Vec<i64>) -> (res: Vec<String>)
        requires
            forall|i: int|
                0 <= i < indices_array@.len() ==> 0 <= #[trigger] indices_array@[i]
                    < self.variations.valid_skills_spec().len(),
        ensures
            views(res@).len() == indices_array@.len(),
            forall|i: int|
                0 <= i < indices_array@.len() ==> #[trigger] views(res@)[i]
                    == self.variations.valid_skills_spec()[indices_array@[i] as int],
    {
        self.variations.translate_skillset_from_indices(indices_array)
    }

    /// The preset skills followed by the skills of the current combination.
    pub fn get_full_translated_skillset_at_current_combination_index(&self) -> (res: Vec<String>)
        ensures
            0 <= self.variations.index_spec() < self.variations.total_spec() ==> exists|c: Seq<i64>|
                is_combination_at(
                    c,
                    self.variations.index_spec(),
                    self.variations.valid_skills_spec().len() as int,
                    self.variations.varying_slots(),
                ) && #[trigger] views(res@) == self.variations.preset_skills_spec() + c.map_values(
                    |k: i64| self.variations.valid_skills_spec()[k as int],
                ),
            !(0 <= self.variations.index_spec() < self.variations.total_spec()) ==> views(res@)
                == self.variations.preset_skills_spec(),
    {
        self.variations.get_full_translated_skillset_at_current_combination_index()
    }
}

/// An extension of Study for generating and ranking Trials for each combination of skills for a single hero on a team
pub struct SingleHeroSkillStudy<D> {
    pub study: Study,
    pub base_team: Team,
    pub subject_hero_identifier: String,
    pub variations: SkillVariations,
    pub dungeons: Vec<D>,
}

/// Creates a study that varies the skills of `subject_hero_identifier` over
/// the valid skills that are not preset, ordered by their lower-case forms.
pub fn create_single_hero_skill_study<D>(
    identifier: String,
    description: String,
    simulation_qty: i32,
    base_team: Team,
    valid_skills: Vec<String>,
    preset_skills: Vec<String>,
    subject_hero_identifier: String,
    dungeons: Vec<D>,
) -> (res: SingleHeroSkillStudy<D>)
    requires
        valid_skills@.len() <= i64::MAX,
        preset_skills@.len() <= i64::MAX,
        count_fits(
            without_listed(views(valid_skills@), views(preset_skills@)).len() as int,
            4 - preset_skills@.len(),
        ),
    ensures
        res.variations.valid_skills_spec().to_multiset() == without_listed(
            views(valid_skills@),
            views(preset_skills@),
        ).to_multiset(),
        sorted_by_lowercase(res.variations.valid_skills_spec()),
        forall|key: Seq<char>|
            #[trigger] res.variations.valid_skills_spec().filter(has_lowercase(key))
                == without_listed(views(valid_skills@), views(preset_skills@)).filter(
                has_lowercase(key),
            ),
        res.variations.preset_skills_spec() == views(preset_skills@),
        res.variations.varying_slots() == 4 - preset_skills@.len(),
        res.variations.index_spec() == 0,
        res.study.identifier == identifier,
        res.study.description == description,
        res.study.simulation_qty == simulation_qty,
        res.study.status == StudyStatus::Created,
        res.subject_hero_identifier == subject_hero_identifier,
        res.dungeons@ == dungeons@,
{
    SingleHeroSkillStudy {
        study: create_study(identifier, description, simulation_qty),
        base_team,
        subject_hero_identifier,
        variations: SkillVariations::new(valid_skills, preset_skills),
        dungeons,
    }
}

impl<D> SingleHeroSkillStudy<D> {
    /// How many combinations have been tried.
    pub fn count_skill_variations_completed(&self) -> (res: i64)
        ensures
            res == self.variations.index_spec(),
    {
        self.variations.count_skill_variations_completed()
    }

    /// How many combinations the study tries in all.
    pub fn count_skill_variations_total(&self) -> (res: i64)
        ensures
            res == self.variations.total_spec(),
    {
        self.variations.count_skill_variations_total()
    }

    /// How many combinations remain to be tried.
    pub fn count_skill_variations_remaining(&self) -> (res: i64)
        ensures
            res == self.variations.total_spec() - self.variations.index_spec(),
    {
        self.variations.count_skill_variations_remaining()
    }

    /// The skill indices of the combination at position `combination_index`.
    pub fn get_skillset_at_specific_combination_index(&self, combination_index: i64) -> (res: Vec<i64>)
        ensures
            !(0 <= combination_index < self.variations.total_spec()) ==> res@.len() == 0,
            0 <= combination_index < self.variations.total_spec() ==> is_combination_at(
                res@,
                combination_index as int,
                self.variations.valid_skills_spec().len() as int,
                self.variations.varying_slots(),
            ),
    {
        self.variations.get_skillset_at_specific_combination_index(combination_index)
    }

    /// The skill indices of the current combination.
    pub fn get_skillset_at_current_combination_index(&self) -> (res: Vec<i64>)
        ensures
            !(0 <= self.variations.index_spec() < self.variations.total_spec()) ==> res@.len() == 0,
            0 <= self.variations.index_spec() < self.variations.total_spec() ==> is_combination_at(
                res@,
                self.variations.index_spec(),
                self.variations.valid_skills_spec().len() as int,
                self.variations.varying_slots(),
            ),
    {
        self.variations.get_skillset_at_current_combination_index()
    }

    /// Moves on to the next combination.
    pub fn increment_combination_index(&mut self)
        requires
            old(self).variations.index_spec() < i64::MAX,
        ensures
            final(self).variations.index_spec() == old(self).variations.index_spec() + 1,
            final(self).variations.valid_skills_spec() == old(self).variations.valid_skills_spec(),
            final(self).variations.preset_skills_spec() == old(self).variations.preset_skills_spec(),
            final(self).variations.varying_slots() == old(self).variations.varying_slots(),
    {
        self.variations.increment_combination_index();
    }

    /// The valid skills at the given indices.
    pub fn translate_skillset_from_indices(&self, indices_array: Vec<i64>) -> (res: Vec<String>)
        requires
            forall|i: int|
                0 <= i < indices_array@.len() ==> 0 <= #[trigger] indices_array@[i]
                    < self.variations.valid_skills_spec().len(),
        ensures
            views(res@).len() == indices_array@.len(),
            forall|i: int|
                0 <= i < indices_array@.len() ==> #[trigger] views(res@)[i]
                    == self.variations.valid_skills_spec()[indices_array@[i] as int],
    {
        self.variations.translate_skillset_from_indices(indices_array)
    }

    /// The preset skills followed by the skills of the current combination.
    pub fn get_full_translated_skillset_at_current_combination_index(&self) -> (res: Vec<String>)
        ensures
            0 <= self.variations.index_spec() < self.variations.total_spec() ==> exists|c: Seq<i64>|
                is_combination_at(
                    c,
                    self.variations.index_spec(),
                    self.variations.valid_skills_spec().len() as int,
                    self.variations.varying_slots(),
                ) && #[trigger] views(res@) == self.variations.preset_skills_spec() + c.map_values(
                    |k: i64| self.variations.valid_skills_spec()[k as int],
                ),
            !(0 <= self.variations.index_spec() < self.variations.total_spec()) ==> views(res@)
                == self.variations.preset_skills_spec(),
    {
        self.variations.get_full_translated_skillset_at_current_combination_index()
    }
}

/// The skills that a skillset excludes are exactly the skills its known
/// members are incompatible with: for each member that the table knows, the
/// tier-one name in its `incompatible_with_t1_name` is listed, and every
/// listed name is that of some known member.
pub proof fn lemma_incompatible_skills_are_those_named(
    skills: Map<Seq<char>, HeroSkillInfo>,
    skillset: Seq<Seq<char>>,
)
    ensures
        forall|i: int|
            0 <= i < skillset.len() && skills.contains_key(skillset[i]) ==> incompatible_skills_spec(
                skills,
                skillset,
            ).contains(#[trigger] skills[skillset[i]].incompatible_with_t1_name@),
        forall|k: Seq<char>|
            #[trigger] incompatible_skills_spec(skills, skillset).contains(k) ==> exists|i: int|
                0 <= i < skillset.len() && skills.contains_key(skillset[i]) && #[trigger] skills[skillset[i]].incompatible_with_t1_name@
                    == k,
    decreases skillset.len(),
{
    if skillset.len() > 0 {
        let prev_set = skillset.drop_last();
        lemma_incompatible_skills_are_those_named(skills, prev_set);
        let prev = incompatible_skills_spec(skills, prev_set);
        let res = incompatible_skills_spec(skills, skillset);
        let last = skillset.last();
        assert forall|i: int|
            0 <= i < skillset.len() && skills.contains_key(skillset[i]) implies res.contains(
            #[trigger] skills[skillset[i]].incompatible_with_t1_name@,
        ) by {
            let k = skills[skillset[i]].incompatible_with_t1_name@;
            if i == skillset.len() - 1 {
                assert(res[res.len() - 1] == k);
            } else {
                assert(prev_set[i] == skillset[i]);
                assert(prev.contains(skills[prev_set[i]].incompatible_with_t1_name@));
                let j = choose|j: int| 0 <= j < prev.len() && prev[j] == k;
                assert(res[j] == k);
            }
        }
        assert forall|k: Seq<char>| #[trigger] res.contains(k) implies exists|i: int|
            0 <= i < skillset.len() && skills.contains_key(skillset[i]) && #[trigger] skills[skillset[i]].incompatible_with_t1_name@
                == k by {
            let j = choose|j: int| 0 <= j < res.len() && res[j] == k;
            if j < prev.len() {
                assert(prev[j] == k);
                assert(prev.contains(k));
                let i = choose|i: int|
                    0 <= i < prev_set.len() && skills.contains_key(prev_set[i]) && #[trigger] skills[prev_set[i]].incompatible_with_t1_name@
                        == k;
                assert(skillset[i] == prev_set[i]);
            } else {
                assert(skillset[skillset.len() - 1] == last);
            }
        }
    }
}

} // verus!
