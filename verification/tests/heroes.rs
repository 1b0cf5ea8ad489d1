use adept::equipment::{BoosterType, ElementType};
use adept::heroes::{
    archetype_of_class, create_sim_hero_profile, create_team, team_counts_within_bounds, HeroArchetype, StringVec,
};

fn s(x: &str) -> String {
    x.to_string()
}

#[test]
fn archetypes_of_classes() {
    assert_eq!(archetype_of_class("Daimyo"), Some(HeroArchetype::RedFighter));
    assert_eq!(archetype_of_class("Jarl"), Some(HeroArchetype::RedFighter));
    assert_eq!(archetype_of_class("Trickster"), Some(HeroArchetype::GreenRogue));
    assert_eq!(archetype_of_class("Arch Druid"), Some(HeroArchetype::BlueSpellcaster));
    assert_eq!(archetype_of_class("King Reinholdt"), Some(HeroArchetype::Champion));
    assert_eq!(archetype_of_class("Necromancer"), None);
}

#[test]
fn sim_hero_profile_fields() {
    let h = create_sim_hero_profile(s("Bers"), s("Berserker"), 35, 9, 3, s("Earth")).unwrap();
    assert_eq!(h.archetype, HeroArchetype::RedFighter);
    assert_eq!(h.element_type, ElementType::Earth);
    assert_eq!(h.berserker_level, 4);
    let h = create_sim_hero_profile(s("J"), s("Jarl"), 35, 2, 3, s("Earth")).unwrap();
    assert_eq!(h.berserker_level, 2);
    let h = create_sim_hero_profile(s("M"), s("Mage"), 35, 9, 3, s("Fire")).unwrap();
    assert_eq!(h.berserker_level, 0);
}

#[test]
fn sim_hero_profile_unknown_class() {
    assert_eq!(
        create_sim_hero_profile(s("X"), s("Necromancer"), 1, 1, 1, s("Fire")).err(),
        Some("Unknown Class, Could Not Create Hero")
    );
    assert_eq!(
        create_sim_hero_profile(s("X"), s("Wizard"), 1, 1, 1, s("Plasma")).err(),
        Some("Unknown Class, Could Not Create Hero")
    );
}

#[test]
fn sim_hero_profile_unknown_element() {
    assert_eq!(
        create_sim_hero_profile(s("X"), s("Mage"), 1, 1, 1, s("Plasma")).err(),
        Some("Unknown Element Type, Could Not Create Hero")
    );
    assert_eq!(
        create_sim_hero_profile(s("X"), s("Lord"), 1, 1, 1, s("fire")).err(),
        Some("Unknown Element Type, Could Not Create Hero")
    );
}

#[test]
fn team_counts_and_champion() {
    let heroes = vec![
        create_sim_hero_profile(s("a"), s("Trickster"), 40, 5, 1, s("Air")).unwrap(),
        create_sim_hero_profile(s("b"), s("Polonia"), 40, 8, 1, s("Air")).unwrap(),
        create_sim_hero_profile(s("c"), s("Lord"), 40, 5, 1, s("Fire")).unwrap(),
        create_sim_hero_profile(s("d"), s("Cleric"), 40, 5, 1, s("Light")).unwrap(),
        create_sim_hero_profile(s("e"), s("Thief"), 40, 5, 1, s("Dark")).unwrap(),
    ];
    let team = create_team(heroes, Some(BoosterType::MegaPowerBooster)).unwrap();
    assert_eq!(team.get_heroes_len(), 5);
    assert_eq!(team.get_num_archetypes(), (1, 2, 1, 1));
    assert_eq!(team.get_champion_info(), (s("Polonia"), 3));
    assert_eq!(team.get_booster(), Some(BoosterType::MegaPowerBooster));
    assert_eq!(team.get_class_index(s("Lord")), Some(2));
    assert_eq!(team.get_class_index(s("Monk")), None);
    assert_eq!(team.get_index_of_hero_with_identifier(&s("e")), Some(4));
    assert_eq!(team.get_index_of_hero_with_identifier(&s("z")), None);
}

#[test]
fn team_without_champion() {
    let heroes = vec![create_sim_hero_profile(s("a"), s("Lord"), 40, 12, 1, s("Fire")).unwrap()];
    let team = create_team(heroes, None).unwrap();
    assert_eq!(team.get_champion_info(), (s("None"), 1));
    assert_eq!(team.get_num_archetypes(), (0, 0, 1, 0));
}

#[test]
fn champion_tier_by_rank() {
    for (rank, tier) in [(1u8, 1u8), (4, 2), (7, 3), (11, 4), (15, 4)] {
        let heroes = vec![create_sim_hero_profile(s("c"), s("Argon"), 40, rank, 1, s("Any")).unwrap()];
        let team = create_team(heroes, None).unwrap();
        assert_eq!(team.get_champion_info(), (s("Argon"), tier));
    }
}

#[test]
fn empty_team_is_refused() {
    assert_eq!(create_team(vec![], None).err(), Some("cannot form team with < 1 hero"));
}

#[test]
fn team_head_counts_bounds() {
    let lord = create_sim_hero_profile(s("l"), s("Lord"), 40, 5, 1, s("Fire")).unwrap();
    let trickster = create_sim_hero_profile(s("t"), s("Trickster"), 40, 5, 1, s("Air")).unwrap();
    assert!(team_counts_within_bounds(&vec![]));
    assert!(team_counts_within_bounds(&vec![lord.clone(); 255]));
    assert!(!team_counts_within_bounds(&vec![lord.clone(); 256]));
    let mut mixed = vec![lord.clone(); 200];
    mixed.extend(vec![trickster.clone(); 200]);
    assert!(team_counts_within_bounds(&mixed));
    assert!(!team_counts_within_bounds(&vec![trickster; 300]));
}

#[test]
fn string_vec_display() {
    let mut v = StringVec::new();
    v.push(s("Lord: 100.00 (50.00%)"));
    assert_eq!(v.to_display_string(), "[Lord: 100.00 (50.00%)]");
    v.push(s("Mage: 0.00 (0.00%)"));
    v.push(s("c"));
    assert_eq!(v.to_display_string(), "[Lord: 100.00 (50.00%), Mage: 0.00 (0.00%), c]");
}
