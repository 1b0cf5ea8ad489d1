use adept::simulations::convert_vec_to_max_team_sized_array;

#[test]
fn convert_vec_pads_with_defaults() {
    assert_eq!(convert_vec_to_max_team_sized_array(vec![3u8, 1]), [3, 1, 0, 0, 0]);
    assert_eq!(convert_vec_to_max_team_sized_array(Vec::<u8>::new()), [0, 0, 0, 0, 0]);
}

#[test]
fn convert_vec_truncates_excess() {
    assert_eq!(convert_vec_to_max_team_sized_array(vec![1i64, 2, 3, 4, 5, 6, 7]), [1, 2, 3, 4, 5]);
}

#[test]
fn convert_vec_works_on_floats_and_strings() {
    assert_eq!(convert_vec_to_max_team_sized_array(vec![1.5f64]), [1.5, 0.0, 0.0, 0.0, 0.0]);
    let names = convert_vec_to_max_team_sized_array(vec!["a".to_string(), "b".to_string()]);
    assert_eq!(names, ["a".to_string(), "b".to_string(), String::new(), String::new(), String::new()]);
}
