use adept::dungeons::{
    create_trial_dungeon, difficulty_name, encounter_plan_from_draws, miniboss_setting_description,
    parse_difficulty, parse_miniboss_setting, plan_encounter, MiniBossType,
};

const NAMES: [&str; 8] = [
    "Easy",
    "Medium",
    "Hard",
    "Extreme",
    "Boss Easy",
    "Boss Medium",
    "Boss Hard",
    "Boss Extreme",
];

#[test]
fn difficulty_names_round_trip() {
    for d in 1..=8usize {
        assert_eq!(difficulty_name(d), NAMES[d - 1]);
        assert_eq!(parse_difficulty(&difficulty_name(d)), Some(d));
    }
}

#[test]
fn parse_difficulty_refuses_unknown_names() {
    assert_eq!(parse_difficulty("easy"), None);
    assert_eq!(parse_difficulty("Boss  Hard"), None);
    assert_eq!(parse_difficulty(""), None);
}

#[test]
fn parse_miniboss_setting_names() {
    assert_eq!(parse_miniboss_setting("No Minibosses"), Some(Some(false)));
    assert_eq!(parse_miniboss_setting("Only Minibosses"), Some(Some(true)));
    assert_eq!(parse_miniboss_setting("Random Minibosses"), Some(None));
    assert_eq!(parse_miniboss_setting("Some Minibosses"), None);
}

#[test]
fn miniboss_setting_descriptions() {
    assert_eq!(miniboss_setting_description(Some(true)), "Force Only Minibosses");
    assert_eq!(miniboss_setting_description(Some(false)), "No Minibosses Allowed");
    assert_eq!(miniboss_setting_description(None), "Minibosses Allowed with Random Chance");
}

#[test]
fn mini_boss_rolls() {
    assert_eq!(MiniBossType::from_roll(0), MiniBossType::Agile);
    assert_eq!(MiniBossType::from_roll(1), MiniBossType::Dire);
    assert_eq!(MiniBossType::from_roll(2), MiniBossType::Huge);
    assert_eq!(MiniBossType::from_roll(3), MiniBossType::Legendary);
    assert_eq!(MiniBossType::from_roll(9), MiniBossType::Legendary);
    let drawn = MiniBossType::random();
    assert!(matches!(
        drawn,
        MiniBossType::Agile | MiniBossType::Dire | MiniBossType::Huge | MiniBossType::Legendary
    ));
}

#[test]
fn encounter_plan_for_normal_difficulty() {
    let plan = encounter_plan_from_draws(&vec![3], Some(true), 0, 0, 2).unwrap();
    assert!(!plan.is_boss);
    assert!(!plan.is_extreme);
    assert_eq!(plan.tier_index, 2);
    assert_eq!(plan.mini_boss, Some(MiniBossType::Huge));

    let plan = encounter_plan_from_draws(&vec![1, 4], Some(false), 1, 1, 1).unwrap();
    assert_eq!(plan.tier_index, 3);
    assert_eq!(plan.mini_boss, None);

    let plan = encounter_plan_from_draws(&vec![2], None, 0, 1, 0).unwrap();
    assert_eq!(plan.mini_boss, Some(MiniBossType::Agile));
    let plan = encounter_plan_from_draws(&vec![2], None, 0, 0, 0).unwrap();
    assert_eq!(plan.mini_boss, None);
}

#[test]
fn encounter_plan_for_boss_difficulty_has_no_mini_boss() {
    let plan = encounter_plan_from_draws(&vec![7], Some(true), 0, 1, 3).unwrap();
    assert!(plan.is_boss);
    assert_eq!(plan.tier_index, 2);
    assert_eq!(plan.mini_boss, None);
}

#[test]
fn encounter_plan_refuses_out_of_range_difficulty() {
    assert!(encounter_plan_from_draws(&vec![1, 9], None, 0, 0, 0).is_err());
    assert!(encounter_plan_from_draws(&vec![0], None, 0, 0, 0).is_err());
    assert!(plan_encounter(&vec![2, 0], None).is_err());
}

#[test]
fn plan_encounter_draws_from_the_settings() {
    for _ in 0..50 {
        let plan = plan_encounter(&vec![2, 6], Some(true)).unwrap();
        if plan.is_boss {
            assert_eq!(plan.tier_index, 1);
            assert_eq!(plan.mini_boss, None);
        } else {
            assert_eq!(plan.tier_index, 1);
            assert!(plan.mini_boss.is_some());
        }
        let plan = plan_encounter(&vec![4], Some(false)).unwrap();
        assert_eq!(plan.tier_index, 3);
        assert_eq!(plan.mini_boss, None);
    }
}

#[test]
fn trial_dungeon_holds_its_settings() {
    let t = create_trial_dungeon("Bleakspire Peak".to_string(), 7, Some(false));
    assert_eq!(t.dungeon, "Bleakspire Peak");
    assert_eq!(t.difficulty, 7);
    assert_eq!(t.force_minibosses, Some(false));
}

#[test]
fn encounter_plan_extreme_at_top_tiers() {
    let plan = encounter_plan_from_draws(&vec![4], Some(false), 0, 0, 0).unwrap();
    assert!(plan.is_extreme);
    assert!(!plan.is_boss);
    assert_eq!(plan.tier_index, 3);

    let plan = encounter_plan_from_draws(&vec![8], None, 0, 1, 1).unwrap();
    assert!(plan.is_extreme);
    assert!(plan.is_boss);
    assert_eq!(plan.tier_index, 3);

    let plan = encounter_plan_from_draws(&vec![3], Some(false), 0, 0, 0).unwrap();
    assert!(!plan.is_extreme);
    let plan = encounter_plan_from_draws(&vec![7], Some(false), 0, 0, 0).unwrap();
    assert!(!plan.is_extreme);
    let plan = plan_encounter(&vec![4], Some(false)).unwrap();
    assert!(plan.is_extreme);
}

#[test]
fn encounter_plan_error_message() {
    let msg = "difficulty settings must be within range 1-8 inclusive";
    assert_eq!(encounter_plan_from_draws(&vec![1, 9], None, 0, 0, 0), Err(msg));
    assert_eq!(plan_encounter(&vec![1, 9], None), Err(msg));
}
