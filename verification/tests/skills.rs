use adept::lookup::NameMap;
use adept::skills::valid_skills_from_tier_names;

fn s(x: &str) -> String {
    x.to_string()
}

#[test]
fn valid_skills_are_the_tier_one_names_of_fourth_tier_entries() {
    let mut m = NameMap::new();
    m.insert(s("Warlord T1"), s("Warlord"));
    m.insert(s("Warlord T4"), s("Warlord"));
    m.insert(s("All Natural T4"), s("All Natural"));
    m.insert(s("All Natural T3"), s("All Natural"));
    m.insert(s("Bash T14"), s("Bash"));
    m.insert(s("T4"), s("Lone"));
    m.insert(s("Zen T4 "), s("Zen"));
    assert_eq!(valid_skills_from_tier_names(&m), vec![s("Warlord"), s("All Natural"), s("Lone")]);
    assert_eq!(valid_skills_from_tier_names(&NameMap::new()), Vec::<String>::new());
}
