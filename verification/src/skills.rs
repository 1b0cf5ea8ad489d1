//! What the hero builder and the studies read of hero skills, innate skills,
//! blueprints and hero classes: names, tiers, element requirements, item
//! types and the classes allowed.
use crate::lookup::NameMap;
use crate::text::{lemma_split_nonempty, split, split_spec, str_equals, views};
use vstd::prelude::*;

verus! {

/// The last piece of the name `k` cut at spaces is `T4`: the name is that of
/// a skill at its fourth tier.
pub open spec fn names_tier_four(k: Seq<char>) -> bool {
    split_spec(k, ' ').last() == "T4"@
}

/// The values of the first `n` entries of `m` whose names are fourth-tier
/// names, in table order.
pub open spec fn tier_four_values(m: NameMap<String>, n: nat) -> Seq<Seq<char>>
    decreases n,
{
    if n == 0 {
        Seq::<Seq<char>>::empty()
    } else {
        let prev = tier_four_values(m, (n - 1) as nat);
        if names_tier_four(m.key_at(n - 1)) {
            prev.push(m.value_at(n - 1)@)
        } else {
            prev
        }
    }
}

/// The skills a study may vary upon: out of the table from tiered skill names
/// to tier-one names, the tier-one names of the entries whose name ends in the
/// word `T4` (one per skill), in table order.
pub fn valid_skills_from_tier_names(tier_1_name_map: &NameMap<String>) -> (res: Vec<String>)
    ensures
        views(res@) == tier_four_values(*tier_1_name_map, tier_1_name_map.size()),
{
    let mut res: Vec<String> = Vec::new();
    let mut i: usize = 0;
    while i < tier_1_name_map.num_entries()
        invariant
            i <= tier_1_name_map.size(),
            views(res@) == tier_four_values(*tier_1_name_map, i as nat),
        decreases tier_1_name_map.size() - i,
    {
        let name = tier_1_name_map.name_at(i);
        let parts = split(name.as_str(), ' ');
        proof {
            lemma_split_nonempty(name@, ' ');
        }
        let ghost before = res@;
        if str_equals(parts[parts.len() - 1].as_str(), "T4") {
            res.push(tier_1_name_map.entry_value(i).clone());
            assert(views(res@) =~= views(before).push(tier_1_name_map.value_at(i as int)@));
        }
        i = i + 1;
    }
    res
}

/// A copy of a list of strings.
pub fn clone_strings(v: &Vec<String>) -> (res: Vec<String>)
    ensures
        res@ == v@,
{
    let mut res: Vec<String> = Vec::new();
    let mut i: usize = 0;
    while i < v.len()
        invariant
            i <= v@.len(),
            res@ == v@.subrange(0, i as int),
        decreases v@.len() - i,
    {
        res.push(v[i].clone());
        i = i + 1;
        assert(res@ =~= v@.subrange(0, i as int));
    }
    assert(res@ =~= v@);
    res
}

/// Whether `names` holds a string equal to `name`.
pub fn contains_string(names: &Vec<String>, name: &String) -> (res: bool)
    ensures
        res == exists|i: int| 0 <= i < names@.len() && #[trigger] names@[i]@ == name@,
{
    let mut i: usize = 0;
    while i < names.len()
        invariant
            i <= names@.len(),
            forall|j: int| 0 <= j < i ==> #[trigger] names@[j]@ != name@,
        decreases names@.len() - i,
    {
        if names[i] == *name {
            return true;
        }
        i = i + 1;
    }
    false
}

/// Information on hero skills
pub struct HeroSkillInfo {
    pub name: String,
    pub type_: String,
    pub skill_tier: u8,
    pub rarity: String,
    pub element_qty_req: u16,
    pub tier_1_name: String,
    pub requires_class_promotion: bool,
    pub incompatible_with_t1_name: String,
    pub item_types: Vec<String>,
    pub classes_allowed: Vec<String>,
}

/// Two skill records hold the same information.
pub open spec fn same_hero_skill(a: HeroSkillInfo, b: HeroSkillInfo) -> bool {
    &&& a.name == b.name
    &&& a.type_ == b.type_
    &&& a.skill_tier == b.skill_tier
    &&& a.rarity == b.rarity
    &&& a.element_qty_req == b.element_qty_req
    &&& a.tier_1_name == b.tier_1_name
    &&& a.requires_class_promotion == b.requires_class_promotion
    &&& a.incompatible_with_t1_name == b.incompatible_with_t1_name
    &&& a.item_types@ == b.item_types@
    &&& a.classes_allowed@ == b.classes_allowed@
}

impl Clone for HeroSkillInfo {
    fn clone(&self) -> (res: Self)
        ensures
            same_hero_skill(res, *self),
    {
        HeroSkillInfo {
            name: self.name.clone(),
            type_: self.type_.clone(),
            skill_tier: self.skill_tier,
            rarity: self.rarity.clone(),
            element_qty_req: self.element_qty_req,
            tier_1_name: self.tier_1_name.clone(),
            requires_class_promotion: self.requires_class_promotion,
            incompatible_with_t1_name: self.incompatible_with_t1_name.clone(),
            item_types: clone_strings(&self.item_types),
            classes_allowed: clone_strings(&self.classes_allowed),
        }
    }
}

impl HeroSkillInfo {
    /// The tier-one name of the skill this one cannot be combined with.
    pub fn get_incompatible_with(&self) -> (res: String)
        ensures
            res@ == self.incompatible_with_t1_name@,
    {
        self.incompatible_with_t1_name.clone()
    }

    /// The classes that may learn the skill.
    pub fn get_classes_allowed(&self) -> (res: Vec<String>)
        ensures
            res@ == self.classes_allowed@,
    {
        clone_strings(&self.classes_allowed)
    }
}

/// Information on innate skills
pub struct InnateSkillInfo {
    pub name: String,
    pub type_: String,
    pub skill_tier: u8,
    pub element_qty_req: u16,
    pub tier_1_name: String,
    pub requires_class_promotion: bool,
    pub item_types: Vec<String>,
    pub classes_allowed: Vec<String>,
}

impl InnateSkillInfo {
    pub fn get_skill_tier(&self) -> (res: u8)
        ensures
            res == self.skill_tier,
    {
        self.skill_tier
    }

    pub fn get_tier_1_name(&self) -> (res: String)
        ensures
            res@ == self.tier_1_name@,
    {
        self.tier_1_name.clone()
    }

    pub fn get_element_qty_req(&self) -> (res: u16)
        ensures
            res == self.element_qty_req,
    {
        self.element_qty_req
    }
}

/// What the hero builder reads of a blueprint: its name, item type, unlock
/// prerequisite and affinities.
pub struct BlueprintInfo {
    pub name: String,
    pub type_: String,
    pub unlock_prerequisite: String,
    pub elemental_affinity: String,
    pub spirit_affinity: String,
}

/// What the hero builder reads of a hero class: its name, element, the item
/// types allowed in each of the six equipment slots, and its innate skills.
pub struct HeroClassInfo {
    pub class: String,
    pub element_type: String,
    pub equipment_allowed: [Vec<String>; 6],
    pub innate_skills: [String; 4],
}

} // verus!
