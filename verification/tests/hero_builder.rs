use adept::hero_builder::{tier_formatted_skill_name, EquipmentIssue, Hero};
use adept::lookup::NameMap;
use adept::skills::{BlueprintInfo, HeroClassInfo, HeroSkillInfo, InnateSkillInfo};

fn s(x: &str) -> String {
    x.to_string()
}

fn six(x: &str) -> [String; 6] {
    [s(x), s(x), s(x), s(x), s(x), s(x)]
}

fn hero() -> Hero {
    Hero {
        identifier: s("Daimyo_Main"),
        class: s("Daimyo"),
        level: 40,
        rank: 10,
        innate_tier: 1,
        element_type: s("Fire"),
        element_qty: 0,
        hp_seeds: 10,
        atk_seeds: 20,
        def_seeds: 30,
        skills: [s("Warlord"), s(""), s(""), s("")],
        equipment_equipped: six("Katana"),
        equipment_quality: six("Epic"),
        elements_socketed: [s("Fire 4"), s("Fire 3"), s("Fire 2"), s("Fire 1"), s("Fire 1"), s("Fire 1")],
        spirits_socketed: [s("Wolf T9"), s("Wolf T9"), s("Bear T7"), s("Ox T4"), s("Wolf T4"), s("Ox T4")],
    }
}

fn blueprints() -> NameMap<BlueprintInfo> {
    let mut m = NameMap::new();
    m.insert(
        s("Katana"),
        BlueprintInfo {
            name: s("Katana"),
            type_: s("Sword"),
            unlock_prerequisite: s("Crafting"),
            elemental_affinity: s("Fire"),
            spirit_affinity: s("---"),
        },
    );
    m.insert(
        s("Staff"),
        BlueprintInfo {
            name: s("Staff"),
            type_: s("Staff"),
            unlock_prerequisite: s("Crafting"),
            elemental_affinity: s("Water"),
            spirit_affinity: s("---"),
        },
    );
    m
}

fn classes() -> NameMap<HeroClassInfo> {
    let swords = vec![s("Sword")];
    let mut m = NameMap::new();
    m.insert(
        s("Daimyo"),
        HeroClassInfo {
            class: s("Daimyo"),
            element_type: s("Fire"),
            equipment_allowed: [
                swords.clone(),
                swords.clone(),
                swords.clone(),
                swords.clone(),
                swords.clone(),
                swords,
            ],
            innate_skills: [s("Bushido"), s("Bushido"), s("Bushido"), s("Bushido")],
        },
    );
    m
}

#[test]
fn set_hero_skills_fills_missing_slots_with_empty_names() {
    let mut h = hero();
    h.set_hero_skills(vec![s("a"), s("b")]);
    assert_eq!(h.skills, [s("a"), s("b"), s(""), s("")]);
    h.set_hero_skills(vec![s("1"), s("2"), s("3"), s("4"), s("5")]);
    assert_eq!(h.skills, [s("1"), s("2"), s("3"), s("4")]);
    assert_eq!(h.identifier, "Daimyo_Main");
}

#[test]
fn spirit_quantities() {
    let h = hero();
    assert_eq!(h.calculate_spirit_qty(s("Wolf T9")), 2);
    assert_eq!(h.calculate_spirit_qty(s("Ox T4")), 2);
    assert_eq!(h.calculate_spirit_qty(s("Wolf")), 0);
}

#[test]
fn validate_equipment_counts_element_points() {
    let mut h = hero();
    assert_eq!(h.equipment_issue(&blueprints(), &classes()), None);
    h.validate_equipment(&blueprints(), &classes());
    // 25 + 15 + 10 + 5 + 5 + 5 grade points, and 5 more per slot for the affinity.
    assert_eq!(h.element_qty, 65 + 30);
}

#[test]
fn equipment_issues() {
    let bp = blueprints();
    let cl = classes();
    let mut h = hero();
    h.class = s("Mage");
    assert_eq!(h.equipment_issue(&bp, &cl), Some(EquipmentIssue::UnknownClass));
    let mut h = hero();
    h.equipment_equipped[2] = s("Axe");
    assert_eq!(h.equipment_issue(&bp, &cl), Some(EquipmentIssue::UnknownEquipment(2)));
    let mut h = hero();
    h.equipment_equipped[1] = s("Staff");
    assert_eq!(h.equipment_issue(&bp, &cl), Some(EquipmentIssue::DisallowedItemType(1)));
    let mut h = hero();
    h.elements_socketed[3] = s("Fire");
    assert_eq!(h.equipment_issue(&bp, &cl), Some(EquipmentIssue::MalformedElement(3)));
    let mut h = hero();
    h.elements_socketed[4] = s("Water 2");
    assert_eq!(h.equipment_issue(&bp, &cl), Some(EquipmentIssue::UnknownElementType(4)));
    let mut h = hero();
    h.elements_socketed[5] = s("Fire 9");
    assert_eq!(h.equipment_issue(&bp, &cl), Some(EquipmentIssue::UnknownElementGrade(5)));
}

fn innate(name: &str, tier: u8, req: u16) -> InnateSkillInfo {
    InnateSkillInfo {
        name: s(name),
        type_: s("Innate"),
        skill_tier: tier,
        element_qty_req: req,
        tier_1_name: s("Bushido"),
        requires_class_promotion: false,
        item_types: vec![],
        classes_allowed: vec![s("Daimyo")],
    }
}

#[test]
fn innate_tier_is_highest_unlocked() {
    let mut names = NameMap::new();
    names.insert(s("Daimyo"), s("Bushido"));
    let mut innates = NameMap::new();
    innates.insert(s("Bushido"), innate("Bushido", 1, 0));
    innates.insert(s("Bushido T2"), innate("Bushido T2", 2, 30));
    innates.insert(s("Bushido T3"), innate("Bushido T3", 3, 60));
    innates.insert(s("Bushido T4"), innate("Bushido T4", 4, 90));
    let mut h = hero();
    assert_eq!(h.calculate_innate_skill_name(&names), "Bushido");
    h.element_qty = 60;
    assert!(h.innate_tier_defined(&names, &innates));
    h.calculate_innate_tier(&names, &innates);
    assert_eq!(h.innate_tier, 2);
    h.element_qty = 91;
    h.calculate_innate_tier(&names, &innates);
    assert_eq!(h.innate_tier, 4);
    h.element_qty = 0;
    assert!(!h.innate_tier_defined(&names, &innates));
    h.class = s("Lord");
    assert!(!h.innate_tier_defined(&names, &innates));
}

fn hero_skill(name: &str, tier: u8, req: u16) -> HeroSkillInfo {
    HeroSkillInfo {
        name: s(name),
        type_: s("Generic"),
        skill_tier: tier,
        rarity: s("Rare"),
        element_qty_req: req,
        tier_1_name: s("Warlord"),
        requires_class_promotion: false,
        incompatible_with_t1_name: s(""),
        item_types: vec![],
        classes_allowed: vec![s("Daimyo")],
    }
}

fn skill_tables() -> (NameMap<String>, NameMap<HeroSkillInfo>) {
    let mut tiers = NameMap::new();
    let mut skills = NameMap::new();
    let names = ["Warlord", "Conqueror", "Overlord", "Emperor", "Supreme"];
    for t in 0..5u8 {
        let n = names[t as usize];
        tiers.insert(tier_formatted_skill_name(&s("Warlord"), t), s(n));
        skills.insert(s(n), hero_skill(n, t, 20 * t as u16));
    }
    (tiers, skills)
}

#[test]
fn tier_formatted_names() {
    assert_eq!(tier_formatted_skill_name(&s("Warlord"), 1), "Warlord T1");
    assert_eq!(tier_formatted_skill_name(&s("All Natural"), 12), "All Natural T12");
    assert_eq!(tier_formatted_skill_name(&s("X"), 255), "X T255");
}

#[test]
fn hero_skill_tier_follows_element_quantity() {
    let (tiers, skills) = skill_tables();
    let mut h = hero();
    h.element_qty = 45;
    let (tier, skill) = h.calculate_hero_skill_tier(&tiers, &skills, s("Conqueror"));
    assert_eq!(tier, 2);
    assert_eq!(skill.name, "Overlord");
    h.element_qty = 40;
    let (tier, skill) = h.calculate_hero_skill_tier(&tiers, &skills, s("Supreme"));
    assert_eq!(tier, 2);
    assert_eq!(skill.name, "Overlord");
    h.element_qty = 200;
    let (tier, _) = h.calculate_hero_skill_tier(&tiers, &skills, s("Warlord"));
    assert_eq!(tier, 4);
}

#[test]
fn hero_skill_tier_fails_on_missing_tables() {
    let (tiers, skills) = skill_tables();
    let h = hero();
    assert!(h.try_calculate_hero_skill_tier(&tiers, &skills, s("Nope")).is_none());
    let empty: NameMap<String> = NameMap::new();
    assert!(h.try_calculate_hero_skill_tier(&empty, &skills, s("Warlord")).is_none());
    let mut h = hero();
    h.element_qty = 25;
    assert_eq!(h.try_calculate_hero_skill_tier(&tiers, &skills, s("Warlord")).map(|(t, _)| t), Some(1));
}

#[test]
fn hero_skill_tier_does_not_depend_on_the_named_tier() {
    let (tiers, skills) = skill_tables();
    let mut h = hero();
    for qty in [20u16, 30, 40, 55, 60, 79, 80, 150] {
        h.element_qty = qty;
        let expected = if qty >= 80 { 4 } else if qty >= 60 { 3 } else if qty >= 40 { 2 } else { 1 };
        for base in ["Conqueror", "Overlord", "Emperor", "Supreme"] {
            let (tier, skill) = h.calculate_hero_skill_tier(&tiers, &skills, s(base));
            assert_eq!(tier, expected);
            assert_eq!(skill.skill_tier, expected);
        }
    }
}
