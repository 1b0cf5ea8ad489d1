use adept::dockets::{
    dungeon_specifications_readable, parse_dungeons, parse_team, parse_valid_skills, plan_docket_study, resolve_team,
    translate_skillset_based_on_skill_name_format, Docket, DocketPlanFailure, DocketStudy,
    DocketStudyIssue, DocketStudySkillNameFormat, DocketStudyType,
};
use adept::equipment::BoosterType;
use adept::heroes::{create_sim_hero_profile, HeroProfile};
use adept::lookup::NameMap;
use adept::skills::HeroSkillInfo;
use adept::studies::HeroBuilderInformation;

fn s(x: &str) -> String {
    x.to_string()
}

fn strings(items: &[&str]) -> Vec<String> {
    items.iter().map(|x| x.to_string()).collect()
}

fn skill(name: &str, incompatible_with: &str, classes: &[&str]) -> HeroSkillInfo {
    HeroSkillInfo {
        name: s(name),
        type_: s("Generic"),
        skill_tier: 1,
        rarity: s("Common"),
        element_qty_req: 0,
        tier_1_name: s(name),
        requires_class_promotion: false,
        incompatible_with_t1_name: s(incompatible_with),
        item_types: vec![],
        classes_allowed: strings(classes),
    }
}

fn info() -> HeroBuilderInformation {
    let mut hero_skill_map = NameMap::new();
    hero_skill_map.insert(s("Warlord"), skill("Warlord", "Rampage", &["Lord"]));
    hero_skill_map.insert(s("Rampage"), skill("Rampage", "Warlord", &["Berserker"]));
    hero_skill_map.insert(s("Bash"), skill("Bash", "", &["Daimyo"]));
    hero_skill_map.insert(s("Adept"), skill("Adept", "", &["Lord"]));
    let mut abbreviations = NameMap::new();
    abbreviations.insert(s("War"), s("Warlord"));
    abbreviations.insert(s("Ram"), s("Rampage"));
    abbreviations.insert(s("Bas"), s("Bash"));
    let mut any_tier = NameMap::new();
    any_tier.insert(s("Warlord"), s("Warlord"));
    any_tier.insert(s("Conqueror"), s("Warlord"));
    any_tier.insert(s("Bash"), s("Bash"));
    HeroBuilderInformation {
        bp_map: NameMap::new(),
        hero_classes: NameMap::new(),
        hero_skill_tier_1_name_map: NameMap::new(),
        hero_skill_any_tier_to_tier_1_name_map: any_tier,
        hero_skill_abbreviation_map: NameMap::new(),
        hero_abbreviation_skill_map: abbreviations,
        hero_skill_map,
        class_innate_skill_names_map: NameMap::new(),
        innate_skill_any_tier_to_tier_1_name_nap: NameMap::new(),
        innate_skill_map: NameMap::new(),
    }
}

fn hero(identifier: &str, class: &str) -> HeroProfile {
    create_sim_hero_profile(s(identifier), s(class), 40, 10, 4, s("Fire")).unwrap()
}

fn heroes() -> NameMap<HeroProfile> {
    let mut m = NameMap::new();
    m.insert(s("Daimyo_Main"), hero("Daimyo_Main", "Daimyo"));
    m.insert(s("Lord_Control"), hero("Lord_Control", "Lord"));
    m
}

fn dungeons() -> NameMap<u8> {
    let mut m = NameMap::new();
    m.insert(s("Bleakspire Peak"), 1);
    m.insert(s("Howling Woods"), 2);
    m
}

fn study() -> DocketStudy {
    DocketStudy {
        completed: false,
        identifier: s("Daimyo_Atk_Main_Duo"),
        description: s("Optimize Daimyo for ATK with Lord Duo"),
        type_: DocketStudyType::StaticDuoSkillStudy,
        skill_name_format: DocketStudySkillNameFormat::Abbreviated,
        sim_qty: 1000,
        team_hero_identifiers: s("Daimyo_Main; Lord_Control"),
        team_booster: s("Power Booster"),
        preset_skills: s("War"),
        dungeon_specifications: s("Bleakspire Peak: Boss Hard : No Minibosses"),
        automatic_rank_difficulty_optimization: false,
        excluded_skills: s(""),
    }
}

#[test]
fn study_type_and_format_names() {
    assert_eq!(DocketStudyType::StaticDuoSkillStudy.name(), "StaticDuoSkillStudy");
    assert_eq!(DocketStudyType::from_name("StaticDuoSkillStudy"), Some(DocketStudyType::StaticDuoSkillStudy));
    assert_eq!(DocketStudyType::from_name("SingleHeroSkillStudy"), None);
    assert_eq!(DocketStudyType::default(), DocketStudyType::StaticDuoSkillStudy);
    for (f, n) in [
        (DocketStudySkillNameFormat::Abbreviated, "Abbreviated"),
        (DocketStudySkillNameFormat::FullTierOne, "FullTierOne"),
        (DocketStudySkillNameFormat::FullAnyTier, "FullAnyTier"),
    ] {
        assert_eq!(f.name(), n);
        assert_eq!(DocketStudySkillNameFormat::from_name(n), Some(f));
    }
    assert_eq!(DocketStudySkillNameFormat::from_name("Short"), None);
    assert_eq!(DocketStudySkillNameFormat::default(), DocketStudySkillNameFormat::FullAnyTier);
}

#[test]
fn valid_study_has_no_issue() {
    assert_eq!(study().validation_issue(true), None);
    assert!(study().is_valid(true));
}

#[test]
fn each_validation_issue() {
    let mut st = study();
    st.identifier = s("");
    assert_eq!(st.validation_issue(true), Some(DocketStudyIssue::MissingIdentifier));
    assert!(!st.is_valid(true));

    let mut st = study();
    st.sim_qty = 0;
    assert_eq!(st.validation_issue(true), Some(DocketStudyIssue::SimQtyOutOfRange));
    st.sim_qty = 50001;
    assert_eq!(st.validation_issue(true), Some(DocketStudyIssue::SimQtyOutOfRange));
    st.sim_qty = 50000;
    assert_eq!(st.validation_issue(true), None);
    st.sim_qty = 1;
    assert_eq!(st.validation_issue(true), None);

    assert_eq!(study().validation_issue(false), Some(DocketStudyIssue::RunoffThresholdOutOfRange));

    let mut st = study();
    st.team_hero_identifiers = s("");
    assert_eq!(st.validation_issue(true), Some(DocketStudyIssue::MissingTeamHeroIdentifiers));

    let mut st = study();
    st.team_booster = s("");
    assert_eq!(st.validation_issue(true), Some(DocketStudyIssue::MissingTeamBooster));

    let mut st = study();
    st.dungeon_specifications = s("");
    assert_eq!(st.validation_issue(true), Some(DocketStudyIssue::MissingDungeonSpecifications));

    let mut st = study();
    st.preset_skills = s("");
    st.excluded_skills = s("");
    assert_eq!(st.validation_issue(true), None);
}

#[test]
fn docket_bookkeeping() {
    let mut docket = Docket::default();
    assert_eq!(docket.get_num_studies(), 0);
    docket.set_path(s("input/study_docket.csv"));
    assert_eq!(docket.path, "input/study_docket.csv");
    let mut done = study();
    done.identifier = s("Done");
    done.completed = true;
    docket.add_study(study());
    docket.add_study(done);
    let mut third = study();
    third.identifier = s("Third");
    docket.add_study(third);
    assert_eq!(docket.get_num_studies(), 3);
    assert_eq!(docket.get_study_names(), strings(&["Daimyo_Atk_Main_Duo", "Done", "Third"]));
    assert_eq!(docket.get_studies().len(), 3);
    assert_eq!(docket.pending_study_indices(), vec![0, 2]);
    docket.set_study_completed(2);
    assert!(docket.studies[2].completed);
    assert_eq!(docket.studies[2].identifier, "Third");
    assert_eq!(docket.pending_study_indices(), vec![0]);
    docket.set_study_completed(0);
    assert_eq!(docket.pending_study_indices(), Vec::<usize>::new());
}

#[test]
fn parse_team_reads_trimmed_identifiers_and_booster() {
    let team = parse_team(&study(), &heroes()).unwrap();
    let members = team.get_heroes();
    assert_eq!(members.len(), 2);
    assert_eq!(members[0].identifier, "Daimyo_Main");
    assert_eq!(members[1].identifier, "Lord_Control");
    assert_eq!(team.get_booster(), Some(BoosterType::PowerBooster));
}

#[test]
fn parse_team_fails_on_unknown_hero_or_booster() {
    let mut st = study();
    st.team_hero_identifiers = s("Daimyo_Main;Nobody");
    assert!(parse_team(&st, &heroes()).is_none());
    let mut st = study();
    st.team_booster = s("Turbo Booster");
    assert!(parse_team(&st, &heroes()).is_none());
    let mut st = study();
    st.team_booster = s("None");
    assert_eq!(parse_team(&st, &heroes()).unwrap().get_booster(), None);
}

#[test]
fn dungeon_specifications_readability() {
    let mut st = study();
    assert!(dungeon_specifications_readable(&st, &dungeons()));
    st.dungeon_specifications = s("Bleakspire Peak:Boss Hard:No Minibosses|Bleakspire Peak:Hard :Only Minibosses");
    assert!(dungeon_specifications_readable(&st, &dungeons()));
    st.dungeon_specifications = s("Bleakspire Peak:Boss Hard");
    assert!(!dungeon_specifications_readable(&st, &dungeons()));
    st.dungeon_specifications = s("Bleakspire Peak:Easy:No Minibosses|B");
    assert!(!dungeon_specifications_readable(&st, &dungeons()));
    // Reading stops at the first specification that does not resolve, before
    // it reaches the short one.
    st.dungeon_specifications = s("Unknown:Hard:No Minibosses|Short");
    assert!(dungeon_specifications_readable(&st, &dungeons()));
    assert!(parse_dungeons(&st, &dungeons()).is_none());
    st.dungeon_specifications = s("Bleakspire Peak:Impossible:No Minibosses|Short");
    assert!(dungeon_specifications_readable(&st, &dungeons()));
    assert!(parse_dungeons(&st, &dungeons()).is_none());
}

#[test]
fn plan_skips_a_row_whose_unknown_dungeon_precedes_a_short_one() {
    let mut st = study();
    st.dungeon_specifications = s("Unknown:Hard:No Minibosses|Short");
    assert_eq!(
        plan_docket_study(&st, &heroes(), &dungeons(), &strings(&["Warlord"]), &info()).err(),
        Some(DocketPlanFailure::DungeonsNotParsed)
    );
}

#[test]
fn parse_dungeons_reads_each_specification() {
    let mut st = study();
    st.dungeon_specifications =
        s("Bleakspire Peak:Boss Hard:No Minibosses|Howling Woods:Hard :Only Minibosses | Bleakspire Peak : Easy : Random Minibosses");
    let ds = parse_dungeons(&st, &dungeons()).unwrap();
    assert_eq!(ds.len(), 3);
    assert_eq!(ds[0].dungeon, "Bleakspire Peak");
    assert_eq!(ds[0].difficulty, 7);
    assert_eq!(ds[0].force_minibosses, Some(false));
    assert_eq!(ds[1].dungeon, "Howling Woods");
    assert_eq!(ds[1].difficulty, 3);
    assert_eq!(ds[1].force_minibosses, Some(true));
    assert_eq!(ds[2].difficulty, 1);
    assert_eq!(ds[2].force_minibosses, None);
}

#[test]
fn parse_dungeons_fails_on_unknown_parts() {
    let mut st = study();
    st.dungeon_specifications = s("Void Dimension:Hard:No Minibosses");
    assert!(parse_dungeons(&st, &dungeons()).is_none());
    st.dungeon_specifications = s("Howling Woods:Impossible:No Minibosses");
    assert!(parse_dungeons(&st, &dungeons()).is_none());
    st.dungeon_specifications = s("Howling Woods:Hard:Many Minibosses");
    assert!(parse_dungeons(&st, &dungeons()).is_none());
}

#[test]
fn translate_abbreviated_names() {
    let i = info();
    let f = DocketStudySkillNameFormat::Abbreviated;
    assert_eq!(
        translate_skillset_based_on_skill_name_format(&f, strings(&["War", "Bas"]), &i),
        Some(strings(&["Warlord", "Bash"]))
    );
    assert_eq!(translate_skillset_based_on_skill_name_format(&f, strings(&["War", "Zzz"]), &i), None);
    assert_eq!(translate_skillset_based_on_skill_name_format(&f, strings(&[""]), &i), Some(strings(&[""])));
    assert_eq!(translate_skillset_based_on_skill_name_format(&f, vec![], &i), Some(vec![]));
    assert_eq!(
        translate_skillset_based_on_skill_name_format(&f, strings(&["", "Zzz"]), &i),
        Some(strings(&["", "Zzz"]))
    );
}

#[test]
fn translate_any_tier_and_tier_one_names() {
    let i = info();
    assert_eq!(
        translate_skillset_based_on_skill_name_format(
            &DocketStudySkillNameFormat::FullAnyTier,
            strings(&["Conqueror", "Bash"]),
            &i
        ),
        Some(strings(&["Warlord", "Bash"]))
    );
    assert_eq!(
        translate_skillset_based_on_skill_name_format(
            &DocketStudySkillNameFormat::FullAnyTier,
            strings(&["War"]),
            &i
        ),
        None
    );
    assert_eq!(
        translate_skillset_based_on_skill_name_format(
            &DocketStudySkillNameFormat::FullTierOne,
            strings(&["Anything", "Goes"]),
            &i
        ),
        Some(strings(&["Anything", "Goes"]))
    );
}

#[test]
fn parse_valid_skills_removes_excluded_preset_incompatible_and_class_skills() {
    let i = info();
    let team = vec![hero("Daimyo_Main", "Daimyo"), hero("Lord_Control", "Lord")];
    let loaded = strings(&["Warlord", "Rampage", "Bash", "Adept", "Bash", "Sneak", "Zen"]);
    let mut st = study();
    st.preset_skills = s("War");
    st.excluded_skills = s("Ram");
    // Warlord is preset, Rampage excluded (and made incompatible by Warlord),
    // Adept is for Lords only, not for the Daimyo leading the team; Bash is
    // kept once. Skills the table does not know are kept.
    let v = parse_valid_skills(&st, &loaded, &i, &team).unwrap();
    assert_eq!(v, strings(&["Bash", "Sneak", "Zen"]));
}

#[test]
fn parse_valid_skills_fails_on_untranslatable_names() {
    let i = info();
    let team = vec![hero("Daimyo_Main", "Daimyo")];
    let loaded = strings(&["Warlord"]);
    let mut st = study();
    st.excluded_skills = s("Nope");
    assert!(parse_valid_skills(&st, &loaded, &i, &team).is_none());
    let mut st = study();
    st.preset_skills = s("Nope");
    assert!(parse_valid_skills(&st, &loaded, &i, &team).is_none());
}

#[test]
fn plan_docket_study_reads_the_whole_row() {
    let i = info();
    let loaded = strings(&["Warlord", "Rampage", "Bash", "Adept", "Sneak"]);
    let plan = plan_docket_study(&study(), &heroes(), &dungeons(), &loaded, &i).unwrap();
    assert_eq!(plan.subject_hero_identifier, "Daimyo_Main");
    assert_eq!(plan.team.get_heroes_len(), 2);
    assert_eq!(plan.dungeons.len(), 1);
    assert_eq!(plan.dungeons[0].difficulty, 7);
    assert_eq!(plan.preset_skills, strings(&["Warlord"]));
    assert_eq!(plan.valid_skills, strings(&["Bash", "Sneak"]));
}

#[test]
fn plan_docket_study_reports_the_failing_part() {
    let i = info();
    let loaded = strings(&["Warlord"]);
    let mut st = study();
    st.team_hero_identifiers = s("Ghost");
    assert_eq!(
        plan_docket_study(&st, &heroes(), &dungeons(), &loaded, &i).err(),
        Some(DocketPlanFailure::TeamNotParsed)
    );
    let mut st = study();
    st.dungeon_specifications = s("Nowhere:Easy:No Minibosses");
    assert_eq!(
        plan_docket_study(&st, &heroes(), &dungeons(), &loaded, &i).err(),
        Some(DocketPlanFailure::DungeonsNotParsed)
    );
    let mut st = study();
    st.excluded_skills = s("Unknown");
    assert_eq!(
        plan_docket_study(&st, &heroes(), &dungeons(), &loaded, &i).err(),
        Some(DocketPlanFailure::ValidSkillsNotParsed)
    );
}

#[test]
fn blank_preset_field_varies_all_four_slots() {
    let i = info();
    let loaded = strings(&["Warlord", "Bash", "Sneak", "Zen", "Haste"]);
    let mut st = study();
    st.preset_skills = s("");
    let plan = plan_docket_study(&st, &heroes(), &dungeons(), &loaded, &i).unwrap();
    assert_eq!(plan.preset_skills, Vec::<String>::new());
    // Warlord is for Lords only; the Daimyo leading the team varies upon the rest.
    assert_eq!(plan.valid_skills, strings(&["Bash", "Sneak", "Zen", "Haste"]));
    let mut st = study();
    st.preset_skills = s("   ");
    let plan = plan_docket_study(&st, &heroes(), &dungeons(), &loaded, &i).unwrap();
    assert_eq!(plan.preset_skills, Vec::<String>::new());
    let variations = adept::studies::SkillVariations::new(plan.valid_skills, plan.preset_skills);
    assert_eq!(variations.count_skill_variations_total(), 1);
    assert_eq!(
        variations.get_full_translated_skillset_at_current_combination_index(),
        strings(&["Zen", "Sneak", "Haste", "Bash"])
    );
}

#[test]
fn empty_pieces_inside_a_skill_field_stay() {
    let i = info();
    let loaded = strings(&["Warlord", "Rampage", "Bash", "Adept", "Sneak"]);
    let team = vec![hero("Daimyo_Main", "Daimyo")];
    // An empty piece after a name is an empty abbreviation, which does not translate.
    let mut st = study();
    st.preset_skills = s("War;;Bas ;");
    assert_eq!(
        plan_docket_study(&st, &heroes(), &dungeons(), &loaded, &i).err(),
        Some(DocketPlanFailure::ValidSkillsNotParsed)
    );
    let mut st = study();
    st.excluded_skills = s("Bas;");
    assert!(parse_valid_skills(&st, &loaded, &i, &team).is_none());
    // A field of empty pieces keeps them: they are left as they are.
    let mut st = study();
    st.preset_skills = s("  ;  ");
    let plan = plan_docket_study(&st, &heroes(), &dungeons(), &loaded, &i).unwrap();
    assert_eq!(plan.preset_skills, strings(&["", ""]));
}

#[test]
fn resolve_team_looks_up_heroes_and_booster() {
    let (members, booster) = resolve_team(&study(), &heroes()).unwrap();
    assert_eq!(members.len(), 2);
    assert_eq!(members[1].identifier, "Lord_Control");
    assert_eq!(booster, Some(BoosterType::PowerBooster));
    let mut st = study();
    st.team_booster = s("Turbo Booster");
    assert!(resolve_team(&st, &heroes()).is_none());
}

#[test]
fn parse_team_with_many_unknown_identifiers_is_none() {
    let mut st = study();
    st.team_hero_identifiers = vec!["Nobody"; 300].join(";");
    assert!(parse_team(&st, &heroes()).is_none());
    assert!(resolve_team(&st, &heroes()).is_none());
    assert_eq!(
        plan_docket_study(&st, &heroes(), &dungeons(), &strings(&["Warlord"]), &info()).err(),
        Some(DocketPlanFailure::TeamNotParsed)
    );
}
