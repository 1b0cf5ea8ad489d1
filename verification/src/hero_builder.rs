//! The hero builder's bookkeeping: skills, socketed elements and spirits,
//! the element quantity that equipment brings, and the innate skill tier.
use crate::lookup::NameMap;
use crate::skills::{
    BlueprintInfo, HeroClassInfo, HeroSkillInfo, InnateSkillInfo, contains_string, same_hero_skill,
};
use crate::text::{push_char, split, split_spec};
use vstd::prelude::*;

verus! {

/// What the hero builder keeps of a hero besides its combat statistics:
/// identity, class, level and rank, innate tier, element, skills and the six
/// equipment slots with their quality, socketed element and spirit.
pub struct Hero {
    pub identifier: String,
    pub class: String,
    pub level: u8,
    pub rank: u8,
    pub innate_tier: u8,
    pub element_type: String,
    pub element_qty: u16,
    pub hp_seeds: u8,
    pub atk_seeds: u8,
    pub def_seeds: u8,
    pub skills: [String; 4],
    pub equipment_equipped: [String; 6],
    pub equipment_quality: [String; 6],
    pub elements_socketed: [String; 6],
    pub spirits_socketed: [String; 6],
}

fn clone_six(a: &[String; 6]) -> (res: [String; 6])
    ensures
        res == *a,
{
    let res = [a[0].clone(), a[1].clone(), a[2].clone(), a[3].clone(), a[4].clone(), a[5].clone()];
    proof {
        vstd::array::axiom_array_ext_equal(res, *a);
    }
    assert(res =~= *a);
    res
}

impl Clone for Hero {
    fn clone(&self) -> (res: Self)
        ensures
            res == *self,
    {
        let skills = [
            self.skills[0].clone(),
            self.skills[1].clone(),
            self.skills[2].clone(),
            self.skills[3].clone(),
        ];
        proof {
            vstd::array::axiom_array_ext_equal(skills, self.skills);
        }
        assert(skills =~= self.skills);
        Hero {
            identifier: self.identifier.clone(),
            class: self.class.clone(),
            level: self.level,
            rank: self.rank,
            innate_tier: self.innate_tier,
            element_type: self.element_type.clone(),
            element_qty: self.element_qty,
            hp_seeds: self.hp_seeds,
            atk_seeds: self.atk_seeds,
            def_seeds: self.def_seeds,
            skills,
            equipment_equipped: clone_six(&self.equipment_equipped),
            equipment_quality: clone_six(&self.equipment_quality),
            elements_socketed: clone_six(&self.elements_socketed),
            spirits_socketed: clone_six(&self.spirits_socketed),
        }
    }
}

/// The skill that ends up in slot `i` when a hero is given `new_skills`: the
/// `i`-th of them, or the empty name when there are fewer.
pub open spec fn skill_slot(new_skills: Seq<String>, i: int) -> Seq<char> {
    if i < new_skills.len() {
        new_skills[i]@
    } else {
        Seq::<char>::empty()
    }
}

/// The hero's fields other than its skills are those of `other`.
pub open spec fn same_but_skills(h: Hero, other: Hero) -> bool {
    &&& h.identifier == other.identifier
    &&& h.class == other.class
    &&& h.level == other.level
    &&& h.rank == other.rank
    &&& h.innate_tier == other.innate_tier
    &&& h.element_type == other.element_type
    &&& h.element_qty == other.element_qty
    &&& h.hp_seeds == other.hp_seeds
    &&& h.atk_seeds == other.atk_seeds
    &&& h.def_seeds == other.def_seeds
    &&& h.equipment_equipped == other.equipment_equipped
    &&& h.equipment_quality == other.equipment_quality
    &&& h.elements_socketed == other.elements_socketed
    &&& h.spirits_socketed == other.spirits_socketed
}

/// How many of `spirits` are named `name`.
pub open spec fn count_name(spirits: Seq<String>, name: Seq<char>) -> nat
    decreases spirits.len(),
{
    if spirits.len() == 0 {
        0
    } else {
        count_name(spirits.drop_last(), name) + if spirits.last()@ == name {
            1nat
        } else {
            0nat
        }
    }
}

/// The element quantity that a socketed element of grade `grade` brings.
pub open spec fn grade_points(grade: Seq<char>) -> Option<u16> {
    if grade == "1"@ {
        Some(5)
    } else if grade == "2"@ {
        Some(10)
    } else if grade == "3"@ {
        Some(15)
    } else if grade == "4"@ {
        Some(25)
    } else {
        None
    }
}

/// Why a hero's equipment cannot be validated.
#[derive(Debug, Clone, Copy, PartialEq, Eq, Structural)]
pub enum EquipmentIssue {
    /// The hero's class is not among the known classes.
    UnknownClass,
    /// The item in this slot is not a known blueprint.
    UnknownEquipment(usize),
    /// The item in this slot is of a type the class may not use there.
    DisallowedItemType(usize),
    /// The element socketed in this slot is not written `[type] [grade]`.
    MalformedElement(usize),
    /// The element socketed in this slot is not the hero's element.
    UnknownElementType(usize),
    /// The grade of the element socketed in this slot is not 1 to 4.
    UnknownElementGrade(usize),
}

/// What is wrong with equipment slot `i`, if anything.
pub open spec fn slot_issue(
    hero: Hero,
    blueprints: Map<Seq<char>, BlueprintInfo>,
    class: HeroClassInfo,
    i: int,
) -> Option<EquipmentIssue> {
    let equipment = hero.equipment_equipped@[i]@;
    let parts = split_spec(hero.elements_socketed@[i]@, ' ');
    if !blueprints.contains_key(equipment) {
        Some(EquipmentIssue::UnknownEquipment(i as usize))
    } else if !(exists|j: int|
        0 <= j < class.equipment_allowed@[i]@.len() && #[trigger] class.equipment_allowed@[i]@[j]@
            == blueprints[equipment].type_@) {
        Some(EquipmentIssue::DisallowedItemType(i as usize))
    } else if parts.len() < 2 {
        Some(EquipmentIssue::MalformedElement(i as usize))
    } else if parts[0] != hero.element_type@ {
        Some(EquipmentIssue::UnknownElementType(i as usize))
    } else if grade_points(parts[1]) is None {
        Some(EquipmentIssue::UnknownElementGrade(i as usize))
    } else {
        None
    }
}

/// The first issue among slots `from..6`.
pub open spec fn first_slot_issue(
    hero: Hero,
    blueprints: Map<Seq<char>, BlueprintInfo>,
    class: HeroClassInfo,
    from: int,
) -> Option<EquipmentIssue>
    decreases 6 - from,
{
    if from >= 6 || from < 0 {
        None
    } else if slot_issue(hero, blueprints, class, from) is Some {
        slot_issue(hero, blueprints, class, from)
    } else {
        first_slot_issue(hero, blueprints, class, from + 1)
    }
}

/// The first reason that validating the hero's equipment fails for, if any.
pub open spec fn equipment_issue_spec(
    hero: Hero,
    blueprints: Map<Seq<char>, BlueprintInfo>,
    classes: Map<Seq<char>, HeroClassInfo>,
) -> Option<EquipmentIssue> {
    if !classes.contains_key(hero.class@) {
        Some(EquipmentIssue::UnknownClass)
    } else {
        first_slot_issue(hero, blueprints, classes[hero.class@], 0)
    }
}

/// The element quantity that slot `i` brings: the points of its element's
/// grade, and 5 more when the element is the item's elemental affinity.
pub open spec fn slot_points(hero: Hero, blueprints: Map<Seq<char>, BlueprintInfo>, i: int) -> u16 {
    let parts = split_spec(hero.elements_socketed@[i]@, ' ');
    let bonus: u16 = if parts[0] == blueprints[hero.equipment_equipped@[i]@].elemental_affinity@ {
        5
    } else {
        0
    };
    (grade_points(parts[1]).unwrap() + bonus) as u16
}

/// The element quantity that the first `k` slots bring.
pub open spec fn element_qty_upto(hero: Hero, blueprints: Map<Seq<char>, BlueprintInfo>, k: int) -> int
    decreases k,
{
    if k <= 0 {
        0
    } else {
        element_qty_upto(hero, blueprints, k - 1) + slot_points(hero, blueprints, k - 1)
    }
}

proof fn lemma_first_issue_none(
    hero: Hero,
    blueprints: Map<Seq<char>, BlueprintInfo>,
    class: HeroClassInfo,
    from: int,
    i: int,
)
    requires
        0 <= from <= i < 6,
        first_slot_issue(hero, blueprints, class, from) is None,
    ensures
        slot_issue(hero, blueprints, class, i) is None,
    decreases i - from,
{
    if from < i {
        lemma_first_issue_none(hero, blueprints, class, from + 1, i);
    }
}

proof fn lemma_first_issue_skip(
    hero: Hero,
    blueprints: Map<Seq<char>, BlueprintInfo>,
    class: HeroClassInfo,
    i: int,
)
    requires
        0 <= i <= 6,
        forall|j: int| 0 <= j < i ==> slot_issue(hero, blueprints, class, j) is None,
    ensures
        first_slot_issue(hero, blueprints, class, 0) == first_slot_issue(hero, blueprints, class, i),
    decreases i,
{
    if i > 0 {
        lemma_first_issue_skip(hero, blueprints, class, i - 1);
    }
}

impl Hero {
    /// Puts `new_skills` in the four skill slots; slots beyond the skills
    /// given are left empty, skills beyond four are dropped.
    pub fn set_hero_skills(&mut self, new_skills: Vec<String>)
        ensures
            same_but_skills(*final(self), *old(self)),
            forall|i: int| 0 <= i < 4 ==> #[trigger] final(self).skills@[i]@ == skill_slot(new_skills@, i),
    {
        let s0 = skill_or_empty(&new_skills, 0);
        let s1 = skill_or_empty(&new_skills, 1);
        let s2 = skill_or_empty(&new_skills, 2);
        let s3 = skill_or_empty(&new_skills, 3);
        self.skills = [s0, s1, s2, s3];
    }

    /// How many of the socketed spirits are named `spirit_name`.
    pub fn calculate_spirit_qty(&self, spirit_name: String) -> (res: u8)
        ensures
            res == count_name(self.spirits_socketed@, spirit_name@),
    {
        let mut qty: u8 = 0;
        let mut i: usize = 0;
        while i < 6
            invariant
                i <= 6,
                self.spirits_socketed@.len() == 6,
                qty == count_name(self.spirits_socketed@.subrange(0, i as int), spirit_name@),
                qty <= i,
            decreases 6 - i,
        {
            proof {
                assert(self.spirits_socketed@.subrange(0, i + 1).drop_last()
                    =~= self.spirits_socketed@.subrange(0, i as int));
            }
            if self.spirits_socketed[i] == spirit_name {
                qty = qty + 1;
            }
            i = i + 1;
        }
        assert(self.spirits_socketed@.subrange(0, 6) =~= self.spirits_socketed@);
        qty
    }

    /// The first reason that `validate_equipment` would refuse the hero, if any.
    pub fn equipment_issue(
        &self,
        bp_map: &NameMap<BlueprintInfo>,
        hero_classes: &NameMap<HeroClassInfo>,
    ) -> (res: Option<EquipmentIssue>)
        ensures
            res == equipment_issue_spec(*self, bp_map@, hero_classes@),
    {
        let class = match hero_classes.get(self.class.as_str()) {
            Some(c) => c,
            None => {
                return Some(EquipmentIssue::UnknownClass);
            },
        };
        let mut i: usize = 0;
        while i < 6
            invariant
                i <= 6,
                hero_classes@.contains_key(self.class@),
                *class == hero_classes@[self.class@],
                forall|j: int| 0 <= j < i ==> slot_issue(*self, bp_map@, *class, j) is None,
            decreases 6 - i,
        {
            let issue = self.slot_issue(bp_map, class, i);
            if issue.is_some() {
                proof {
                    lemma_first_issue_skip(*self, bp_map@, *class, i as int);
                }
                return issue;
            }
            i = i + 1;
        }
        proof {
            lemma_first_issue_skip(*self, bp_map@, *class, 6);
        }
        None
    }

    fn slot_issue(&self, bp_map: &NameMap<BlueprintInfo>, class: &HeroClassInfo, i: usize) -> (res:
        Option<EquipmentIssue>)
        requires
            i < 6,
        ensures
            res == slot_issue(*self, bp_map@, *class, i as int),
    {
        let blueprint = match bp_map.get(self.equipment_equipped[i].as_str()) {
            Some(b) => b,
            None => {
                return Some(EquipmentIssue::UnknownEquipment(i));
            },
        };
        if !contains_string(&class.equipment_allowed[i], &blueprint.type_) {
            return Some(EquipmentIssue::DisallowedItemType(i));
        }
        let parts = split(self.elements_socketed[i].as_str(), ' ');
        if parts.len() < 2 {
            return Some(EquipmentIssue::MalformedElement(i));
        }
        if parts[0] != self.element_type {
            return Some(EquipmentIssue::UnknownElementType(i));
        }
        if grade_value(parts[1].as_str()).is_none() {
            return Some(EquipmentIssue::UnknownElementGrade(i));
        }
        None
    }

    /// Sets the element quantity that the hero's equipment brings: for each
    /// slot, the points of the socketed element's grade (5, 10, 15 or 25),
    /// and 5 more when the element matches the item's elemental affinity.
    pub fn validate_equipment(
        &mut self,
        bp_map: &NameMap<BlueprintInfo>,
        hero_classes: &NameMap<HeroClassInfo>,
    )
        requires
            equipment_issue_spec(*old(self), bp_map@, hero_classes@) is None,
        ensures
            final(self).element_qty == element_qty_upto(*old(self), bp_map@, 6),
            final(self).identifier == old(self).identifier,
            final(self).class == old(self).class,
            final(self).level == old(self).level,
            final(self).rank == old(self).rank,
            final(self).innate_tier == old(self).innate_tier,
            final(self).element_type == old(self).element_type,
            final(self).hp_seeds == old(self).hp_seeds,
            final(self).atk_seeds == old(self).atk_seeds,
            final(self).def_seeds == old(self).def_seeds,
            final(self).skills == old(self).skills,
            final(self).equipment_equipped == old(self).equipment_equipped,
            final(self).equipment_quality == old(self).equipment_quality,
            final(self).elements_socketed == old(self).elements_socketed,
            final(self).spirits_socketed == old(self).spirits_socketed,
    {
        let ghost class = hero_classes@[self.class@];
        let mut element_qty: u16 = 0;
        let mut i: usize = 0;
        while i < 6
            invariant
                i <= 6,
                hero_classes@.contains_key(self.class@),
                class == hero_classes@[self.class@],
                first_slot_issue(*self, bp_map@, class, 0) is None,
                element_qty == element_qty_upto(*self, bp_map@, i as int),
                element_qty <= 30 * i,
            decreases 6 - i,
        {
            proof {
                lemma_first_issue_none(*self, bp_map@, class, 0, i as int);
            }
            let blueprint = bp_map.get(self.equipment_equipped[i].as_str()).unwrap();
            let parts = split(self.elements_socketed[i].as_str(), ' ');
            let points = grade_value(parts[1].as_str()).unwrap();
            let mut slot: u16 = points;
            if parts[0] == blueprint.elemental_affinity {
                slot = slot + 5;
            }
            element_qty = element_qty + slot;
            i = i + 1;
        }
        self.element_qty = element_qty;
    }

    /// The name of the innate skill of the hero's class.
    pub fn calculate_innate_skill_name(&self, class_innate_skill_names_map: &NameMap<String>) -> (res:
        String)
        requires
            class_innate_skill_names_map@.contains_key(self.class@),
        ensures
            res@ == class_innate_skill_names_map@[self.class@]@,
    {
        class_innate_skill_names_map.get(self.class.as_str()).unwrap().clone()
    }

    /// Sets the hero's innate tier to the highest tier among the variants of
    /// its class's innate skill whose element requirement lies strictly below
    /// the hero's element quantity.
    pub fn calculate_innate_tier(
        &mut self,
        class_innate_skill_names_map: &NameMap<String>,
        innate_skill_map: &NameMap<InnateSkillInfo>,
    )
        requires
            class_innate_skill_names_map@.contains_key(old(self).class@),
            exists|k: Seq<char>|
                #[trigger] innate_skill_map@.contains_key(k) && is_innate_variant(
                    innate_skill_map@[k],
                    class_innate_skill_names_map@[old(self).class@]@,
                    old(self).element_qty,
                ),
        ensures
            is_max_innate_tier(
                final(self).innate_tier,
                innate_skill_map@,
                class_innate_skill_names_map@[old(self).class@]@,
                old(self).element_qty,
            ),
            final(self).identifier == old(self).identifier,
            final(self).class == old(self).class,
            final(self).element_qty == old(self).element_qty,
            final(self).element_type == old(self).element_type,
            final(self).skills == old(self).skills,
            final(self).equipment_equipped == old(self).equipment_equipped,
            final(self).elements_socketed == old(self).elements_socketed,
            final(self).spirits_socketed == old(self).spirits_socketed,
    {
        let innate_skill = self.calculate_innate_skill_name(class_innate_skill_names_map);
        let ghost name = innate_skill@;
        let mut best: Option<u8> = None;
        let mut i: usize = 0;
        let n = innate_skill_map.num_entries();
        proof {
            use_type_invariant(innate_skill_map);
        }
        while i < n
            invariant
                innate_skill_map.wf(),
                n == innate_skill_map.size(),
                i <= n,
                name == innate_skill@,
                match best {
                    Some(t) => (exists|j: int|
                        0 <= j < i && is_innate_variant(
                            innate_skill_map.value_at(j),
                            name,
                            self.element_qty,
                        ) && #[trigger] innate_skill_map.value_at(j).skill_tier == t) && forall|j: int|
                        0 <= j < i && is_innate_variant(
                            #[trigger] innate_skill_map.value_at(j),
                            name,
                            self.element_qty,
                        ) ==> innate_skill_map.value_at(j).skill_tier <= t,
                    None => forall|j: int|
                        0 <= j < i ==> !is_innate_variant(
                            #[trigger] innate_skill_map.value_at(j),
                            name,
                            self.element_qty,
                        ),
                },
            decreases n - i,
        {
            let skill = innate_skill_map.entry_value(i);
            if skill.tier_1_name == innate_skill && skill.element_qty_req < self.element_qty {
                match best {
                    Some(t) => {
                        if skill.skill_tier > t {
                            best = Some(skill.skill_tier);
                        }
                    },
                    None => {
                        best = Some(skill.skill_tier);
                    },
                }
            }
            i = i + 1;
        }
        proof {
            let k = choose|k: Seq<char>|
                #[trigger] innate_skill_map@.contains_key(k) && is_innate_variant(
                    innate_skill_map@[k],
                    name,
                    self.element_qty,
                );
            innate_skill_map.lemma_key(k);
            let j = choose|j: int| 0 <= j < innate_skill_map.size() && innate_skill_map.key_at(j) == k;
            innate_skill_map.lemma_entry(j);
        }
        let tier = best.unwrap();
        proof {
            let t = tier;
            let j = choose|j: int|
                0 <= j < n && is_innate_variant(innate_skill_map.value_at(j), name, self.element_qty)
                    && #[trigger] innate_skill_map.value_at(j).skill_tier == t;
            innate_skill_map.lemma_entry(j);
            assert forall|k: Seq<char>|
                #[trigger] innate_skill_map@.contains_key(k) && is_innate_variant(
                    innate_skill_map@[k],
                    name,
                    self.element_qty,
                ) implies innate_skill_map@[k].skill_tier <= t by {
                innate_skill_map.lemma_key(k);
                let jj = choose|jj: int|
                    0 <= jj < innate_skill_map.size() && innate_skill_map.key_at(jj) == k;
                innate_skill_map.lemma_entry(jj);
            }
        }
        self.innate_tier = tier;
    }
}

impl Hero {
    /// Whether `calculate_innate_tier` can set the hero's innate tier: its
    /// class has an innate skill, and the hero's element quantity unlocks a
    /// variant of it.
    pub fn innate_tier_defined(
        &self,
        class_innate_skill_names_map: &NameMap<String>,
        innate_skill_map: &NameMap<InnateSkillInfo>,
    ) -> (res: bool)
        ensures
            res == (class_innate_skill_names_map@.contains_key(self.class@) && exists|k: Seq<char>|
                #[trigger] innate_skill_map@.contains_key(k) && is_innate_variant(
                    innate_skill_map@[k],
                    class_innate_skill_names_map@[self.class@]@,
                    self.element_qty,
                )),
    {
        let name = match class_innate_skill_names_map.get(self.class.as_str()) {
            Some(n) => n,
            None => {
                return false;
            },
        };
        proof {
            use_type_invariant(innate_skill_map);
        }
        let n = innate_skill_map.num_entries();
        let mut i: usize = 0;
        while i < n
            invariant
                innate_skill_map.wf(),
                n == innate_skill_map.size(),
                i <= n,
                class_innate_skill_names_map@.contains_key(self.class@),
                *name == class_innate_skill_names_map@[self.class@],
                forall|j: int|
                    0 <= j < i ==> !is_innate_variant(
                        #[trigger] innate_skill_map.value_at(j),
                        name@,
                        self.element_qty,
                    ),
            decreases n - i,
        {
            let skill = innate_skill_map.entry_value(i);
            if skill.tier_1_name == *name && skill.element_qty_req < self.element_qty {
                proof {
                    innate_skill_map.lemma_entry(i as int);
                    let k = innate_skill_map.key_at(i as int);
                    assert(innate_skill_map@.contains_key(k));
                    assert(innate_skill_map@[k] == *skill);
                    assert(is_innate_variant(innate_skill_map@[k], name@, self.element_qty));
                }
                return true;
            }
            i = i + 1;
        }
        proof {
            assert forall|k: Seq<char>|
                #[trigger] innate_skill_map@.contains_key(k) implies !is_innate_variant(
                innate_skill_map@[k],
                name@,
                self.element_qty,
            ) by {
                innate_skill_map.lemma_key(k);
                let j = choose|j: int| 0 <= j < innate_skill_map.size() && innate_skill_map.key_at(j) == k;
                innate_skill_map.lemma_entry(j);
            }
        }
        false
    }
}

/// An innate skill is a variant of the innate skill named `name` that an
/// element quantity `qty` unlocks: a tier of that skill whose element
/// requirement lies strictly below `qty`.
pub open spec fn is_innate_variant(skill: InnateSkillInfo, name: Seq<char>, qty: u16) -> bool {
    skill.tier_1_name@ == name && skill.element_qty_req < qty
}

/// `tier` is the highest tier among the unlocked variants of the innate skill `name`.
pub open spec fn is_max_innate_tier(
    tier: u8,
    innate_skills: Map<Seq<char>, InnateSkillInfo>,
    name: Seq<char>,
    qty: u16,
) -> bool {
    &&& exists|k: Seq<char>|
        #[trigger] innate_skills.contains_key(k) && is_innate_variant(innate_skills[k], name, qty)
            && innate_skills[k].skill_tier == tier
    &&& forall|k: Seq<char>|
        #[trigger] innate_skills.contains_key(k) && is_innate_variant(innate_skills[k], name, qty)
            ==> innate_skills[k].skill_tier <= tier
}

fn skill_or_empty(skills: &Vec<String>, i: usize) -> (res: String)
    ensures
        res@ == skill_slot(skills@, i as int),
{
    if i < skills.len() {
        skills[i].clone()
    } else {
        String::new()
    }
}

/// The points of an element grade written as text.
fn grade_value(grade: &str) -> (res: Option<u16>)
    ensures
        res == grade_points(grade@),
{
    if crate::text::str_equals(grade, "1") {
        Some(5)
    } else if crate::text::str_equals(grade, "2") {
        Some(10)
    } else if crate::text::str_equals(grade, "3") {
        Some(15)
    } else if crate::text::str_equals(grade, "4") {
        Some(25)
    } else {
        None
    }
}

/// The decimal digit `d` as a character.
pub open spec fn digit_char(d: int) -> char {
    (48 + d) as char
}

/// The decimal rendering of a `u8`, without leading zeros.
pub open spec fn decimal_u8(v: u8) -> Seq<char> {
    if v < 10 {
        seq![digit_char(v as int)]
    } else if v < 100 {
        seq![digit_char((v / 10) as int), digit_char((v % 10) as int)]
    } else {
        seq![
            digit_char((v / 100) as int),
            digit_char(((v / 10) % 10) as int),
            digit_char((v % 10) as int),
        ]
    }
}

fn digit(d: u8) -> (res: char)
    requires
        d < 10,
    ensures
        res == digit_char(d as int),
{
    (48u8 + d) as char
}

/// The name under which the tier-`tier` variant of a skill is listed: its
/// tier-one name, a space, `T` and the tier in decimal.
pub open spec fn tier_name(tier_1_name: Seq<char>, tier: u8) -> Seq<char> {
    tier_1_name + " T"@ + decimal_u8(tier)
}

/// The name under which the tier-`tier` variant of a skill is listed.
pub fn tier_formatted_skill_name(tier_1_name: &String, tier: u8) -> (res: String)
    ensures
        res@ == tier_name(tier_1_name@, tier),
{
    let mut res = tier_1_name.clone();
    res.append(" T");
    if tier < 10 {
        push_char(&mut res, digit(tier));
    } else if tier < 100 {
        push_char(&mut res, digit(tier / 10));
        push_char(&mut res, digit(tier % 10));
    } else {
        push_char(&mut res, digit(tier / 100));
        push_char(&mut res, digit((tier / 10) % 10));
        push_char(&mut res, digit(tier % 10));
    }
    assert(res@ =~= tier_name(tier_1_name@, tier));
    res
}

/// The variant of `skill` at tier `tier`, found through the table of tier
/// names, if the tables list it.
pub open spec fn tier_variant(
    tier_names: Map<Seq<char>, String>,
    skills: Map<Seq<char>, HeroSkillInfo>,
    skill: HeroSkillInfo,
    tier: u8,
) -> Option<HeroSkillInfo> {
    let name = tier_name(skill.tier_1_name@, tier);
    if tier_names.contains_key(name) && skills.contains_key(tier_names[name]@) {
        Some(skills[tier_names[name]@])
    } else {
        None
    }
}

pub open spec fn tier_walk_measure(tier: u8, checked_upgrade: bool) -> nat {
    if checked_upgrade {
        if tier <= 4 {
            (4 - tier) as nat
        } else {
            0
        }
    } else {
        (tier + 5) as nat
    }
}

/// The search for the tier that an element quantity `qty` supports, from
/// `skill` at tier `tier`: look up the variant at the current tier; below its
/// requirement step down (and stop if a step up was already tried); above it
/// and under tier 4 step up; else stop. The result is the tier reached and
/// the variant listed at that tier; `None` when a lookup fails or the tier
/// would fall below zero.
pub open spec fn tier_walk(
    tier_names: Map<Seq<char>, String>,
    skills: Map<Seq<char>, HeroSkillInfo>,
    qty: u16,
    skill: HeroSkillInfo,
    tier: u8,
    checked_upgrade: bool,
) -> Option<(u8, HeroSkillInfo)>
    decreases tier_walk_measure(tier, checked_upgrade),
{
    match tier_variant(tier_names, skills, skill, tier) {
        None => None,
        Some(variant) => {
            if qty < variant.element_qty_req {
                if tier == 0 {
                    None
                } else if checked_upgrade {
                    match tier_variant(tier_names, skills, variant, (tier - 1) as u8) {
                        Some(last) => Some(((tier - 1) as u8, last)),
                        None => None,
                    }
                } else {
                    tier_walk(tier_names, skills, qty, variant, (tier - 1) as u8, false)
                }
            } else if qty > variant.element_qty_req && tier < 4 {
                tier_walk(tier_names, skills, qty, variant, (tier + 1) as u8, true)
            } else {
                match tier_variant(tier_names, skills, variant, tier) {
                    Some(last) => Some((tier, last)),
                    None => None,
                }
            }
        },
    }
}

/// The tier of the skill `base_skill_name` that a hero with element quantity
/// `qty` reaches, and the variant listed at that tier.
pub open spec fn hero_skill_tier_spec(
    tier_names: Map<Seq<char>, String>,
    skills: Map<Seq<char>, HeroSkillInfo>,
    qty: u16,
    base_skill_name: Seq<char>,
) -> Option<(u8, HeroSkillInfo)> {
    if skills.contains_key(base_skill_name) {
        let base = skills[base_skill_name];
        tier_walk(tier_names, skills, qty, base, base.skill_tier, false)
    } else {
        None
    }
}

fn lookup_tier_variant(
    hero_skill_tier_1_name_map: &NameMap<String>,
    hero_skill_map: &NameMap<HeroSkillInfo>,
    skill: &HeroSkillInfo,
    tier: u8,
) -> (res: Option<HeroSkillInfo>)
    ensures
        match tier_variant(hero_skill_tier_1_name_map@, hero_skill_map@, *skill, tier) {
            Some(v) => res matches Some(r) && same_hero_skill(r, v),
            None => res is None,
        },
{
    let name = tier_formatted_skill_name(&skill.tier_1_name, tier);
    match hero_skill_tier_1_name_map.get(name.as_str()) {
        Some(adjusted) => match hero_skill_map.get(adjusted.as_str()) {
            Some(variant) => Some(variant.clone()),
            None => None,
        },
        None => None,
    }
}

proof fn lemma_tier_variant_same(
    tier_names: Map<Seq<char>, String>,
    skills: Map<Seq<char>, HeroSkillInfo>,
    a: HeroSkillInfo,
    b: HeroSkillInfo,
    tier: u8,
)
    requires
        same_hero_skill(a, b),
    ensures
        tier_variant(tier_names, skills, a, tier) == tier_variant(tier_names, skills, b, tier),
{
}

proof fn lemma_tier_walk_same(
    tier_names: Map<Seq<char>, String>,
    skills: Map<Seq<char>, HeroSkillInfo>,
    qty: u16,
    a: HeroSkillInfo,
    b: HeroSkillInfo,
    tier: u8,
    checked_upgrade: bool,
)
    requires
        same_hero_skill(a, b),
    ensures
        tier_walk(tier_names, skills, qty, a, tier, checked_upgrade) == tier_walk(
            tier_names,
            skills,
            qty,
            b,
            tier,
            checked_upgrade,
        ),
{
    lemma_tier_variant_same(tier_names, skills, a, b, tier);
}

impl Hero {
    /// The tier of the skill `base_skill_name` that the hero's element
    /// quantity reaches, and the skill listed at that tier. Where the skill is
    /// listed at tiers 1 to 4 with strictly growing element requirements and
    /// the quantity meets that of tier 1, this is the highest tier whose
    /// requirement the quantity meets, whichever tier `base_skill_name` names.
    pub fn calculate_hero_skill_tier(
        &self,
        hero_skill_tier_1_name_map: &NameMap<String>,
        hero_skill_map: &NameMap<HeroSkillInfo>,
        base_skill_name: String,
    ) -> (res: (u8, HeroSkillInfo))
        requires
            hero_skill_tier_spec(
                hero_skill_tier_1_name_map@,
                hero_skill_map@,
                self.element_qty,
                base_skill_name@,
            ) is Some,
        ensures
            ({
                let expected = hero_skill_tier_spec(
                    hero_skill_tier_1_name_map@,
                    hero_skill_map@,
                    self.element_qty,
                    base_skill_name@,
                ).unwrap();
                res.0 == expected.0 && same_hero_skill(res.1, expected.1)
            }),
            ({
                let sm = hero_skill_map@;
                let tn = hero_skill_tier_1_name_map@;
                let qty = self.element_qty;
                sm.contains_key(base_skill_name@) && 1 <= sm[base_skill_name@].skill_tier <= 4
                    && tiers_ascend(tn, sm, sm[base_skill_name@].tier_1_name@, qty) ==> {
                    let name = sm[base_skill_name@].tier_1_name@;
                    let t = reached_tier(tn, sm, name, qty);
                    res.0 == t && same_hero_skill(res.1, named_variant(tn, sm, name, t).unwrap())
                }
            }),
    {
        self.try_calculate_hero_skill_tier(hero_skill_tier_1_name_map, hero_skill_map, base_skill_name).unwrap()
    }

    /// The tier of the skill `base_skill_name` that the hero's element
    /// quantity reaches, and the skill listed at that tier; `None` where the
    /// tables miss a name the search looks up, or the tier would fall below
    /// zero.
    pub fn try_calculate_hero_skill_tier(
        &self,
        hero_skill_tier_1_name_map: &NameMap<String>,
        hero_skill_map: &NameMap<HeroSkillInfo>,
        base_skill_name: String,
    ) -> (res: Option<(u8, HeroSkillInfo)>)
        ensures
            match hero_skill_tier_spec(
                hero_skill_tier_1_name_map@,
                hero_skill_map@,
                self.element_qty,
                base_skill_name@,
            ) {
                Some(expected) => res matches Some(r) && r.0 == expected.0 && same_hero_skill(
                    r.1,
                    expected.1,
                ),
                None => res is None,
            },
            ({
                let sm = hero_skill_map@;
                let tn = hero_skill_tier_1_name_map@;
                let qty = self.element_qty;
                sm.contains_key(base_skill_name@) && 1 <= sm[base_skill_name@].skill_tier <= 4
                    && tiers_ascend(tn, sm, sm[base_skill_name@].tier_1_name@, qty) ==> {
                    let name = sm[base_skill_name@].tier_1_name@;
                    let t = reached_tier(tn, sm, name, qty);
                    res matches Some(r) && r.0 == t && same_hero_skill(
                        r.1,
                        named_variant(tn, sm, name, t).unwrap(),
                    )
                }
            }),
    {
        let res = self.walk_hero_skill_tier(hero_skill_tier_1_name_map, hero_skill_map, base_skill_name);
        proof {
            let sm = hero_skill_map@;
            if sm.contains_key(base_skill_name@) && 1 <= sm[base_skill_name@].skill_tier <= 4
                && tiers_ascend(
                hero_skill_tier_1_name_map@,
                sm,
                sm[base_skill_name@].tier_1_name@,
                self.element_qty,
            ) {
                lemma_starting_tier_does_not_matter(
                    hero_skill_tier_1_name_map@,
                    sm,
                    self.element_qty,
                    base_skill_name@,
                    base_skill_name@,
                );
            }
        }
        res
    }

    /// The search of `try_calculate_hero_skill_tier`.
    fn walk_hero_skill_tier(
        &self,
        hero_skill_tier_1_name_map: &NameMap<String>,
        hero_skill_map: &NameMap<HeroSkillInfo>,
        base_skill_name: String,
    ) -> (res: Option<(u8, HeroSkillInfo)>)
        ensures
            match hero_skill_tier_spec(
                hero_skill_tier_1_name_map@,
                hero_skill_map@,
                self.element_qty,
                base_skill_name@,
            ) {
                Some(expected) => res matches Some(r) && r.0 == expected.0 && same_hero_skill(
                    r.1,
                    expected.1,
                ),
                None => res is None,
            },
    {
        let ghost tn = hero_skill_tier_1_name_map@;
        let ghost sm = hero_skill_map@;
        let ghost qty = self.element_qty;
        let ghost expected = hero_skill_tier_spec(tn, sm, qty, base_skill_name@);
        let mut skill = match hero_skill_map.get(base_skill_name.as_str()) {
            Some(s) => s.clone(),
            None => {
                return None;
            },
        };
        let mut tier = skill.skill_tier;
        let mut checked_upgrade = false;
        proof {
            lemma_tier_walk_same(tn, sm, qty, skill, sm[base_skill_name@], tier, false);
        }
        loop
            invariant_except_break
                tier_walk(tn, sm, qty, skill, tier, checked_upgrade) == expected,
                checked_upgrade ==> tier <= 4,
            invariant
                tn == hero_skill_tier_1_name_map@,
                sm == hero_skill_map@,
                qty == self.element_qty,
                expected == hero_skill_tier_spec(tn, sm, qty, base_skill_name@),
            ensures
                expected == match tier_variant(tn, sm, skill, tier) {
                    Some(last) => Some((tier, last)),
                    None => None,
                },
            decreases tier_walk_measure(tier, checked_upgrade),
        {
            let variant = match lookup_tier_variant(hero_skill_tier_1_name_map, hero_skill_map, &skill, tier) {
                Some(v) => v,
                None => {
                    return None;
                },
            };
            let ghost v = tier_variant(tn, sm, skill, tier).unwrap();
            proof {
                lemma_tier_variant_same(tn, sm, variant, v, tier);
                if tier >= 1 {
                    lemma_tier_variant_same(tn, sm, variant, v, (tier - 1) as u8);
                }
                if tier < 4 {
                    lemma_tier_variant_same(tn, sm, variant, v, (tier + 1) as u8);
                }
                if tier >= 1 {
                    lemma_tier_walk_same(tn, sm, qty, variant, v, (tier - 1) as u8, false);
                }
                if tier < 4 {
                    lemma_tier_walk_same(tn, sm, qty, variant, v, (tier + 1) as u8, true);
                }
            }
            let skill_tier_ele_req = variant.element_qty_req;
            skill = variant;
            if self.element_qty < skill_tier_ele_req {
                if tier == 0 {
                    return None;
                }
                tier = tier - 1;
                if checked_upgrade {
                    break;
                }
            } else if self.element_qty > skill_tier_ele_req && tier < 4 {
                tier = tier + 1;
                checked_upgrade = true;
            } else {
                break;
            }
        }
        match lookup_tier_variant(hero_skill_tier_1_name_map, hero_skill_map, &skill, tier) {
            Some(last) => Some((tier, last)),
            None => None,
        }
    }
}

/// The variant listed for the skill with tier-one name `name` at tier
/// `tier`, if the tables list it.
pub open spec fn named_variant(
    tier_names: Map<Seq<char>, String>,
    skills: Map<Seq<char>, HeroSkillInfo>,
    name: Seq<char>,
    tier: u8,
) -> Option<HeroSkillInfo> {
    let key = tier_name(name, tier);
    if tier_names.contains_key(key) && skills.contains_key(tier_names[key]@) {
        Some(skills[tier_names[key]@])
    } else {
        None
    }
}

/// The element requirement of the variant listed at `tier`.
pub open spec fn tier_req(
    tier_names: Map<Seq<char>, String>,
    skills: Map<Seq<char>, HeroSkillInfo>,
    name: Seq<char>,
    tier: u8,
) -> u16 {
    named_variant(tier_names, skills, name, tier).unwrap().element_qty_req
}

/// The tables list the skill `name` at each tier from 1 to 4, each variant
/// under that same tier-one name, with element requirements that strictly
/// grow with the tier, and `qty` meets the requirement of tier 1.
pub open spec fn tiers_ascend(
    tier_names: Map<Seq<char>, String>,
    skills: Map<Seq<char>, HeroSkillInfo>,
    name: Seq<char>,
    qty: u16,
) -> bool {
    &&& forall|t: u8|
        1 <= t <= 4 ==> #[trigger] named_variant(tier_names, skills, name, t) is Some
            && named_variant(tier_names, skills, name, t).unwrap().tier_1_name@ == name
    &&& tier_req(tier_names, skills, name, 1) < tier_req(tier_names, skills, name, 2)
    &&& tier_req(tier_names, skills, name, 2) < tier_req(tier_names, skills, name, 3)
    &&& tier_req(tier_names, skills, name, 3) < tier_req(tier_names, skills, name, 4)
    &&& tier_req(tier_names, skills, name, 1) <= qty
}

/// The highest tier from 1 to 4 whose element requirement `qty` meets.
pub open spec fn reached_tier(
    tier_names: Map<Seq<char>, String>,
    skills: Map<Seq<char>, HeroSkillInfo>,
    name: Seq<char>,
    qty: u16,
) -> u8 {
    if tier_req(tier_names, skills, name, 4) <= qty {
        4
    } else if tier_req(tier_names, skills, name, 3) <= qty {
        3
    } else if tier_req(tier_names, skills, name, 2) <= qty {
        2
    } else {
        1
    }
}

/// From any tier from 1 to 4 of a skill whose tiers ascend, the search ends
/// at the highest tier that `qty` meets; after a step up from tier `t - 1`,
/// `qty` exceeds the requirement of tier `t - 1`.
proof fn lemma_tier_walk_reaches(
    tier_names: Map<Seq<char>, String>,
    skills: Map<Seq<char>, HeroSkillInfo>,
    qty: u16,
    skill: HeroSkillInfo,
    tier: u8,
    checked_upgrade: bool,
)
    requires
        tiers_ascend(tier_names, skills, skill.tier_1_name@, qty),
        1 <= tier <= 4,
        checked_upgrade ==> tier >= 2 && qty > tier_req(
            tier_names,
            skills,
            skill.tier_1_name@,
            (tier - 1) as u8,
        ),
    ensures
        ({
            let name = skill.tier_1_name@;
            let t = reached_tier(tier_names, skills, name, qty);
            tier_walk(tier_names, skills, qty, skill, tier, checked_upgrade) == Some(
                (t, named_variant(tier_names, skills, name, t).unwrap()),
            )
        }),
    decreases tier_walk_measure(tier, checked_upgrade),
{
    let name = skill.tier_1_name@;
    let variant = named_variant(tier_names, skills, name, tier).unwrap();
    assert(named_variant(tier_names, skills, name, tier) is Some);
    assert(tier_variant(tier_names, skills, skill, tier) == Some(variant));
    assert(variant.tier_1_name@ == name);
    assert(named_variant(tier_names, skills, name, 1) is Some);
    assert(named_variant(tier_names, skills, name, 2) is Some);
    assert(named_variant(tier_names, skills, name, 3) is Some);
    assert(named_variant(tier_names, skills, name, 4) is Some);
    if qty < variant.element_qty_req {
        if checked_upgrade {
            assert(tier_variant(tier_names, skills, variant, (tier - 1) as u8) == named_variant(
                tier_names,
                skills,
                name,
                (tier - 1) as u8,
            ));
        } else {
            lemma_tier_walk_reaches(tier_names, skills, qty, variant, (tier - 1) as u8, false);
        }
    } else if qty > variant.element_qty_req && tier < 4 {
        lemma_tier_walk_reaches(tier_names, skills, qty, variant, (tier + 1) as u8, true);
    } else {
        assert(tier_variant(tier_names, skills, variant, tier) == named_variant(
            tier_names,
            skills,
            name,
            tier,
        ));
    }
}

/// The tier named in a skill name does not matter: for two skill names that
/// name the same skill (the same tier-one name) at any tiers from 1 to 4,
/// where the skill is listed at every tier from 1 to 4 with element
/// requirements that strictly grow and `qty` meets that of tier 1, the search
/// gives the same result, the highest tier whose requirement `qty` meets and
/// the variant listed at that tier.
pub proof fn lemma_starting_tier_does_not_matter(
    tier_names: Map<Seq<char>, String>,
    skills: Map<Seq<char>, HeroSkillInfo>,
    qty: u16,
    base_a: Seq<char>,
    base_b: Seq<char>,
)
    requires
        skills.contains_key(base_a),
        skills.contains_key(base_b),
        skills[base_a].tier_1_name@ == skills[base_b].tier_1_name@,
        1 <= skills[base_a].skill_tier <= 4,
        1 <= skills[base_b].skill_tier <= 4,
        tiers_ascend(tier_names, skills, skills[base_a].tier_1_name@, qty),
    ensures
        ({
            let name = skills[base_a].tier_1_name@;
            let t = reached_tier(tier_names, skills, name, qty);
            hero_skill_tier_spec(tier_names, skills, qty, base_a) == Some(
                (t, named_variant(tier_names, skills, name, t).unwrap()),
            )
        }),
        hero_skill_tier_spec(tier_names, skills, qty, base_a) == hero_skill_tier_spec(
            tier_names,
            skills,
            qty,
            base_b,
        ),
{
    let a = skills[base_a];
    let b = skills[base_b];
    lemma_tier_walk_reaches(tier_names, skills, qty, a, a.skill_tier, false);
    lemma_tier_walk_reaches(tier_names, skills, qty, b, b.skill_tier, false);
}

/// The element type socketed in slot `i`: the word before the grade.
pub open spec fn socketed_type(hero: Hero, i: int) -> Seq<char> {
    split_spec(hero.elements_socketed@[i]@, ' ')[0]
}

/// The points of the grade of the element socketed in slot `i`.
pub open spec fn socketed_grade_points(hero: Hero, i: int) -> int {
    grade_points(split_spec(hero.elements_socketed@[i]@, ' ')[1]).unwrap() as int
}

/// The grade points of the elements socketed in the first `k` slots.
pub open spec fn grade_points_upto(hero: Hero, k: int) -> int
    decreases k,
{
    if k <= 0 {
        0
    } else {
        grade_points_upto(hero, k - 1) + socketed_grade_points(hero, k - 1)
    }
}

/// How many of the first `k` slots hold an element of the type that is the
/// elemental affinity of the item equipped there.
pub open spec fn affinity_slots_upto(hero: Hero, blueprints: Map<Seq<char>, BlueprintInfo>, k: int) -> int
    decreases k,
{
    if k <= 0 {
        0
    } else {
        affinity_slots_upto(hero, blueprints, k - 1) + if socketed_type(hero, k - 1)
            == blueprints[hero.equipment_equipped@[k - 1]@].elemental_affinity@ {
            1int
        } else {
            0int
        }
    }
}

/// The elemental affinity of the gear decides the bonus: a slot brings the
/// points of its element's grade, and 5 more exactly when the element's type
/// is the elemental affinity of the item equipped in that slot. Over the six
/// slots, the element quantity is the sum of the grade points plus 5 for each
/// slot whose element matches its item's affinity.
pub proof fn lemma_element_qty_is_grades_plus_affinity_bonus(
    hero: Hero,
    blueprints: Map<Seq<char>, BlueprintInfo>,
    k: int,
)
    requires
        0 <= k <= 6,
        forall|i: int|
            0 <= i < k ==> #[trigger] grade_points(split_spec(hero.elements_socketed@[i]@, ' ')[1]) is Some,
    ensures
        forall|i: int|
            0 <= i < k && socketed_type(hero, i) != blueprints[hero.equipment_equipped@[i]@].elemental_affinity@
                ==> #[trigger] slot_points(hero, blueprints, i) == socketed_grade_points(hero, i),
        forall|i: int|
            0 <= i < k && socketed_type(hero, i) == blueprints[hero.equipment_equipped@[i]@].elemental_affinity@
                ==> #[trigger] slot_points(hero, blueprints, i) == socketed_grade_points(hero, i) + 5,
        element_qty_upto(hero, blueprints, k) == grade_points_upto(hero, k) + 5 * affinity_slots_upto(
            hero,
            blueprints,
            k,
        ),
    decreases k,
{
    if k > 0 {
        lemma_element_qty_is_grades_plus_affinity_bonus(hero, blueprints, k - 1);
        assert(grade_points(split_spec(hero.elements_socketed@[k - 1]@, ' ')[1]) is Some);
    }
}

} // verus!
