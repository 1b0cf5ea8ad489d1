use adept::lookup::NameMap;

#[test]
fn name_map_reads_back_what_was_inserted() {
    let mut m: NameMap<u32> = NameMap::new();
    assert_eq!(m.num_entries(), 0);
    assert_eq!(m.get("Warlord"), None);
    m.insert("Warlord".to_string(), 1);
    m.insert("Adept".to_string(), 2);
    assert_eq!(m.get("Warlord"), Some(&1));
    assert_eq!(m.get("Adept"), Some(&2));
    assert_eq!(m.get("Bash"), None);
    assert!(m.contains_key("Adept"));
    assert!(!m.contains_key("adept"));
    assert_eq!(m.num_entries(), 2);
}

#[test]
fn name_map_insert_replaces_existing_value() {
    let mut m: NameMap<String> = NameMap::new();
    m.insert("War".to_string(), "Warlord".to_string());
    m.insert("War".to_string(), "Warrior".to_string());
    assert_eq!(m.num_entries(), 1);
    assert_eq!(m.get("War").map(|s| s.as_str()), Some("Warrior"));
}

#[test]
fn name_map_positions_and_entries() {
    let mut m: NameMap<u8> = NameMap::new();
    m.insert("a".to_string(), 10);
    m.insert("b".to_string(), 20);
    m.insert("c".to_string(), 30);
    assert_eq!(m.position("b"), Some(1));
    assert_eq!(m.position("d"), None);
    assert_eq!(m.name_at(2), "c");
    assert_eq!(*m.entry_value(0), 10);
}
