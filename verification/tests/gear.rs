use adept::gear::{
    element_affinity_matches, element_socket_bonus, gear_quality_hundredths, spirit_affinity_matches,
    spirit_effect, spirit_socket, unlocked_from_chest, FlatBonus,
};

fn fb(atk: u32, def: u32, hp: u32) -> FlatBonus {
    FlatBonus { atk, def, hp }
}

#[test]
fn gear_quality_multipliers() {
    assert_eq!(gear_quality_hundredths("Normal"), Some(100));
    assert_eq!(gear_quality_hundredths("Superior"), Some(125));
    assert_eq!(gear_quality_hundredths("Flawless"), Some(150));
    assert_eq!(gear_quality_hundredths("Epic"), Some(200));
    assert_eq!(gear_quality_hundredths("Legendary"), Some(300));
    assert_eq!(gear_quality_hundredths("Mythic"), None);
}

#[test]
fn element_socket_bonuses() {
    assert_eq!(element_socket_bonus("Fire 1"), Some(fb(14, 10, 3)));
    assert_eq!(element_socket_bonus("Luxurious 1"), Some(fb(26, 18, 5)));
    assert_eq!(element_socket_bonus("Water 2"), Some(fb(38, 25, 8)));
    assert_eq!(element_socket_bonus("Air 3"), Some(fb(48, 32, 10)));
    assert_eq!(element_socket_bonus("Opulent 3"), Some(fb(63, 42, 13)));
    assert_eq!(element_socket_bonus("Earth 4"), Some(fb(89, 59, 18)));
}

#[test]
fn element_socket_refusals() {
    assert_eq!(element_socket_bonus("Fire 5"), None);
    assert_eq!(element_socket_bonus("Fire"), None);
    assert_eq!(element_socket_bonus("Fire x"), None);
    assert_eq!(element_socket_bonus(""), None);
}

#[test]
fn element_affinity() {
    assert!(element_affinity_matches("Fire 4", "Fire"));
    assert!(!element_affinity_matches("Fire 4", "Water"));
    assert!(!element_affinity_matches("", ""));
}

#[test]
fn spirit_sockets() {
    assert_eq!(spirit_socket("Wolf T4"), Some(("Wolf".to_string(), fb(16, 11, 3))));
    assert_eq!(spirit_socket("Xolotl T5"), Some(("Xolotl".to_string(), fb(26, 18, 5))));
    assert_eq!(spirit_socket("Bear T7"), Some(("Bear".to_string(), fb(41, 27, 8))));
    assert_eq!(spirit_socket("Chimera T9"), Some(("Chimera".to_string(), fb(48, 32, 10))));
    assert_eq!(spirit_socket("Mundra TM"), Some(("Mundra".to_string(), fb(50, 33, 10))));
    assert_eq!(spirit_socket("Quetzalcoatl T11"), Some(("Quetzalcoatl".to_string(), fb(63, 42, 13))));
    assert_eq!(spirit_socket("Kraken T12"), Some(("Kraken".to_string(), fb(89, 59, 18))));
    assert_eq!(spirit_socket("Kraken T13"), None);
    assert_eq!(spirit_socket("Kraken"), None);
}

#[test]
fn spirit_affinities() {
    assert_eq!(spirit_affinity_matches("Wolf Spirit", "Wolf"), Some(true));
    assert_eq!(spirit_affinity_matches("Wolf Spirit", "Bear"), Some(false));
    assert_eq!(spirit_affinity_matches("---", "Wolf"), Some(false));
    assert_eq!(spirit_affinity_matches("   ", "Wolf"), None);
}

#[test]
fn spirit_effects() {
    let wolf = spirit_effect("Wolf", true);
    assert_eq!(wolf.atk_percent, 10);
    assert_eq!(wolf.def_percent, 0);
    assert_eq!(spirit_effect("Wolf", false).atk_percent, 5);
    let mammoth = spirit_effect("Mammoth", true);
    assert_eq!((mammoth.def_percent, mammoth.threat_rating_value), (13, 15));
    let hydra = spirit_effect("Hydra", false);
    assert_eq!((hydra.def_value, hydra.hp_value), (100, 25));
    let kraken = spirit_effect("Kraken", true);
    assert_eq!((kraken.atk_value, kraken.atk_percent), (125, 15));
    assert_eq!(spirit_effect("Armadillo", true).survive_fatal_blow_chance_percent, 25);
    assert_eq!(spirit_effect("Rhino", false).threat_rating_value, 5);
    let none = spirit_effect("Xolotl", true);
    assert_eq!(none, spirit_effect("Mundra", false));
    assert_eq!(none.atk_percent + none.hp_value + none.eva_percent, 0);
}

#[test]
fn chest_items() {
    assert!(unlocked_from_chest("Chest: Heroic Chest"));
    assert!(unlocked_from_chest("Open a Titan Chest"));
    assert!(!unlocked_from_chest("Crafting Level 30"));
    assert!(!unlocked_from_chest("chest"));
    assert!(!unlocked_from_chest(""));
}
