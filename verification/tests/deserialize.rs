use adept::deserialize::bool_from_str;

#[test]
fn bool_from_str_truthy_spellings() {
    for s in ["t", "T", "true", "True", "1", "on", "On", "y", "Y", "yes", "Yes"] {
        assert_eq!(bool_from_str(s), Some(true), "{}", s);
    }
}

#[test]
fn bool_from_str_falsy_spellings() {
    for s in ["f", "F", "false", "False", "0", "off", "Off", "n", "N", "no", "No"] {
        assert_eq!(bool_from_str(s), Some(false), "{}", s);
    }
}

#[test]
fn bool_from_str_mixed_case_words() {
    assert_eq!(bool_from_str("tRue"), Some(true));
    assert_eq!(bool_from_str("TRUE"), Some(true));
    assert_eq!(bool_from_str("oN"), Some(true));
    assert_eq!(bool_from_str("YES"), Some(true));
    assert_eq!(bool_from_str("nO"), Some(false));
    assert_eq!(bool_from_str("OFF"), Some(false));
    assert_eq!(bool_from_str("FaLsE"), Some(false));
}

#[test]
fn bool_from_str_refuses_other_strings() {
    for s in ["", "maybe", "2", "Tr", "yess", " true", "O"] {
        assert_eq!(bool_from_str(s), None, "{}", s);
    }
}
