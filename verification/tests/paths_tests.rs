use cmk::paths::{join_path, stem_of};

#[test]
fn stem_of_a_bare_name_is_the_name() {
    assert_eq!(stem_of("cpplib"), Some("cpplib".to_string()));
}

#[test]
fn stem_of_a_nested_path_is_the_final_component() {
    assert_eq!(stem_of("vendor/deps/cpplib"), Some("cpplib".to_string()));
}

#[test]
fn stem_ignores_trailing_separators() {
    assert_eq!(stem_of("vendor/cpplib/"), Some("cpplib".to_string()));
    assert_eq!(stem_of("vendor/cpplib///"), Some("cpplib".to_string()));
}

#[test]
fn stem_of_an_empty_path_is_none() {
    assert_eq!(stem_of(""), None);
}

#[test]
fn stem_of_separators_only_is_none() {
    assert_eq!(stem_of("/"), None);
    assert_eq!(stem_of("///"), None);
}

#[test]
fn join_inserts_a_separator() {
    assert_eq!(join_path("/out", "cpplib"), "/out/cpplib");
}

#[test]
fn join_keeps_an_existing_separator() {
    assert_eq!(join_path("/out/", "cpplib"), "/out/cpplib");
}

#[test]
fn join_onto_an_empty_base_is_the_component() {
    assert_eq!(join_path("", "cpplib"), "cpplib");
}
