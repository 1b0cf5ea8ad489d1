use adept::dungeons::create_trial_dungeon;
use adept::hero_builder::Hero;
use adept::heroes::{create_sim_hero_profile, create_team};
use adept::studies::{
    create_single_hero_skill_study, create_static_duo_skill_study, create_study, remove_listed,
    SkillVariations, StudyStatus,
};

fn s(x: &str) -> String {
    x.to_string()
}

fn strings(items: &[&str]) -> Vec<String> {
    items.iter().map(|x| x.to_string()).collect()
}

fn six(x: &str) -> [String; 6] {
    [s(x), s(x), s(x), s(x), s(x), s(x)]
}

fn builder_hero() -> Hero {
    Hero {
        identifier: s("Daimyo_Main"),
        class: s("Daimyo"),
        level: 40,
        rank: 10,
        innate_tier: 4,
        element_type: s("Fire"),
        element_qty: 120,
        hp_seeds: 0,
        atk_seeds: 0,
        def_seeds: 0,
        skills: [s(""), s(""), s(""), s("")],
        equipment_equipped: six("Sword"),
        equipment_quality: six("Epic"),
        elements_socketed: six("Fire 4"),
        spirits_socketed: six("Wolf T9"),
    }
}

#[test]
fn study_starts_created() {
    let st = create_study(s("id"), s("desc"), 100);
    assert_eq!(st.identifier, "id");
    assert_eq!(st.description, "desc");
    assert_eq!(st.simulation_qty, 100);
    assert_eq!(st.status, StudyStatus::Created);
}

#[test]
fn remove_listed_keeps_order() {
    assert_eq!(
        remove_listed(&strings(&["a", "b", "c", "b"]), &strings(&["b"])),
        strings(&["a", "c"])
    );
    assert_eq!(remove_listed(&strings(&["a"]), &vec![]), strings(&["a"]));
}

#[test]
fn skill_variations_walk_all_combinations() {
    let mut v = SkillVariations::new(
        strings(&["warlord", "Adept", "Bash", "Zen", "apt"]),
        strings(&["Bash", "Power Attack"]),
    );
    // Bash is preset; four skills remain, sorted ignoring case, for 2 slots.
    assert_eq!(v.count_skill_variations_total(), 6);
    assert_eq!(v.count_skill_variations_completed(), 0);
    assert_eq!(v.count_skill_variations_remaining(), 6);
    assert_eq!(v.get_skillset_at_current_combination_index(), vec![1, 0]);
    assert_eq!(
        v.get_full_translated_skillset_at_current_combination_index(),
        strings(&["Bash", "Power Attack", "apt", "Adept"])
    );
    let mut seen = Vec::new();
    while v.count_skill_variations_remaining() > 0 {
        let skills = v.get_full_translated_skillset_at_current_combination_index();
        assert_eq!(skills.len(), 4);
        assert!(!seen.contains(&skills));
        seen.push(skills);
        v.increment_combination_index();
    }
    assert_eq!(seen.len(), 6);
    assert_eq!(v.count_skill_variations_completed(), 6);
    assert_eq!(v.get_skillset_at_current_combination_index(), Vec::<i64>::new());
    assert_eq!(
        v.get_full_translated_skillset_at_current_combination_index(),
        strings(&["Bash", "Power Attack"])
    );
    assert_eq!(v.get_skillset_at_specific_combination_index(5), vec![3, 2]);
    assert_eq!(v.translate_skillset_from_indices(vec![3, 0]), strings(&["Zen", "Adept"]));
}

#[test]
fn static_duo_study_steps_through_its_trials() {
    let daimyo = create_sim_hero_profile(s("Daimyo_Main"), s("Daimyo"), 40, 10, 4, s("Fire")).unwrap();
    let lord = create_sim_hero_profile(s("Lord_Control"), s("Lord"), 40, 10, 4, s("Earth")).unwrap();
    let team = create_team(vec![daimyo, lord], None).unwrap();
    let mut study = create_static_duo_skill_study(
        s("Daimyo_Atk_Main_Duo"),
        s("Optimize Daimyo"),
        1000,
        team,
        strings(&["Warlord", "Adept", "Bash", "Zen"]),
        strings(&["Warlord", "Power Attack"]),
        s("Daimyo_Main"),
        builder_hero(),
        vec![create_trial_dungeon(s("Bleakspire Peak"), 7, Some(false))],
        false,
    );
    assert_eq!(study.study.status, StudyStatus::Created);
    assert_eq!(study._count_skill_variations_total(), 3);
    assert_eq!(study.count_skill_variations_remaining(), 3);
    let mut trials = Vec::new();
    while let Some(skills) = study.next_trial_skillset() {
        assert_eq!(study.study.status, StudyStatus::Running);
        trials.push(skills);
        study.increment_combination_index();
    }
    assert_eq!(study.study.status, StudyStatus::Finished);
    assert_eq!(
        trials,
        vec![
            strings(&["Warlord", "Power Attack", "Bash", "Adept"]),
            strings(&["Warlord", "Power Attack", "Zen", "Adept"]),
            strings(&["Warlord", "Power Attack", "Zen", "Bash"]),
        ]
    );
    assert_eq!(study._count_skill_variations_completed(), 3);
    assert_eq!(study._get_skillset_at_specific_combination_index(1), vec![2, 0]);
    assert_eq!(study.translate_skillset_from_indices(vec![1]), strings(&["Bash"]));
    assert_eq!(study.get_skillset_at_current_combination_index(), Vec::<i64>::new());
}

#[test]
fn an_empty_preset_name_takes_a_slot() {
    // A preset list holding an empty name gives that name a slot: three
    // slots vary. (A docket row whose preset field is blank yields no preset
    // names at all; see the docket tests.)
    let mut v = SkillVariations::new(strings(&["a", "b", "c", "d"]), strings(&[""]));
    assert_eq!(v.count_skill_variations_total(), 4);
    assert_eq!(v.get_full_translated_skillset_at_current_combination_index(), strings(&["", "c", "b", "a"]));
    v.increment_combination_index();
    assert_eq!(v.count_skill_variations_remaining(), 3);
}

#[test]
fn single_hero_study_counts() {
    let daimyo = create_sim_hero_profile(s("Daimyo_Main"), s("Daimyo"), 40, 10, 4, s("Fire")).unwrap();
    let team = create_team(vec![daimyo], None).unwrap();
    let mut study = create_single_hero_skill_study(
        s("Single"),
        s("desc"),
        10,
        team,
        strings(&["a", "b", "c", "d", "e", "f"]),
        vec![],
        s("Daimyo_Main"),
        vec![s("Bleakspire Peak")],
    );
    assert_eq!(study.count_skill_variations_total(), 15);
    assert_eq!(study.count_skill_variations_completed(), 0);
    assert_eq!(study.get_skillset_at_current_combination_index(), vec![3, 2, 1, 0]);
    assert_eq!(study.get_skillset_at_specific_combination_index(14), vec![5, 4, 3, 2]);
    study.increment_combination_index();
    assert_eq!(study.count_skill_variations_remaining(), 14);
    assert_eq!(study.get_full_translated_skillset_at_current_combination_index(), strings(&["e", "c", "b", "a"]));
    assert_eq!(study.translate_skillset_from_indices(vec![5]), strings(&["f"]));
}
