use adept::lookup::NameMap;
use adept::reports::abbreviate_described_skills;

fn abbreviations() -> NameMap<String> {
    let mut m = NameMap::new();
    m.insert("Warlord".to_string(), "War".to_string());
    m.insert("All Natural".to_string(), "All".to_string());
    m.insert("Power Attack".to_string(), "Pow".to_string());
    m
}

#[test]
fn abbreviates_a_listed_skillset() {
    let description = format!("{:?}", vec!["Warlord", "All Natural", "Whirlwind Attack", "Power Attack"]);
    assert_eq!(
        abbreviate_described_skills(&description, &abbreviations()),
        vec!["War", "All", "Whirlwind Attack", "Pow"]
    );
}

#[test]
fn keeps_unknown_skills_and_empty_names() {
    assert_eq!(abbreviate_described_skills("[\"\", \"Zen\"]", &abbreviations()), vec!["", "Zen"]);
    assert_eq!(abbreviate_described_skills("", &abbreviations()), vec![""]);
    assert_eq!(abbreviate_described_skills("a,b, c", &abbreviations()), vec!["a,b", "c"]);
}
