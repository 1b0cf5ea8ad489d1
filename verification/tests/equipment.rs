use adept::equipment::{parse_booster, BoosterType, ElementType};

#[test]
fn element_names_round_trip() {
    let all = [
        ElementType::Fire,
        ElementType::Water,
        ElementType::Air,
        ElementType::Earth,
        ElementType::Light,
        ElementType::Dark,
        ElementType::Any,
    ];
    let names = ["Fire", "Water", "Air", "Earth", "Light", "Dark", "Any"];
    for (e, n) in all.iter().zip(names.iter()) {
        assert_eq!(e.name(), *n);
        assert_eq!(ElementType::from_name(n), Some(*e));
    }
    assert_eq!(ElementType::from_name("fire"), None);
    assert_eq!(ElementType::from_name("Void"), None);
}

#[test]
fn booster_names() {
    assert_eq!(parse_booster("None"), Some(None));
    assert_eq!(parse_booster("Power Booster"), Some(Some(BoosterType::PowerBooster)));
    assert_eq!(parse_booster("Super Power Booster"), Some(Some(BoosterType::SuperPowerBooster)));
    assert_eq!(parse_booster("Mega Power Booster"), Some(Some(BoosterType::MegaPowerBooster)));
    assert_eq!(parse_booster("Ultra Booster"), None);
    assert_eq!(parse_booster(""), None);
}
