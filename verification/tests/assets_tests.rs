use todo_list::assets::{list, load, starts_with};

#[test]
fn load_of_empty_path_is_no_asset() {
    assert_eq!(load("", None), Ok(None));
    assert_eq!(load("", Some(vec![1, 2, 3])), Ok(None));
}

#[test]
fn load_hands_found_bytes_through() {
    assert_eq!(load("icons/plus.svg", Some(vec![60, 115, 118, 103])), Ok(Some(vec![60, 115, 118, 103])));
}

#[test]
fn load_of_missing_asset_names_the_path() {
    assert_eq!(
        load("icons/gone.svg", None),
        Err("could not find asset at path \"icons/gone.svg\"".to_string())
    );
}

#[test]
fn list_keeps_paths_under_the_prefix_in_order() {
    let paths = vec![
        "icons/plus.svg".to_string(),
        "fonts/mono.ttf".to_string(),
        "icons/minus.svg".to_string(),
    ];
    assert_eq!(
        list(&paths, "icons/"),
        vec!["icons/plus.svg".to_string(), "icons/minus.svg".to_string()]
    );
}

#[test]
fn list_with_empty_prefix_keeps_everything() {
    let paths = vec!["a".to_string(), "b".to_string()];
    assert_eq!(list(&paths, ""), paths);
}

#[test]
fn list_with_unmatched_prefix_is_empty() {
    let paths = vec!["a".to_string(), "b".to_string()];
    assert_eq!(list(&paths, "icons/"), Vec::<String>::new());
}

#[test]
fn starts_with_checks_initial_segment_only() {
    assert!(starts_with("icons/plus.svg", "icons/"));
    assert!(starts_with("abc", "abc"));
    assert!(starts_with("abc", ""));
    assert!(!starts_with("abc", "abcd"));
    assert!(!starts_with("abc", "abd"));
    assert!(!starts_with("", "a"));
}
