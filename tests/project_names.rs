use pinoc::error::PinocError;
use pinoc::project::{is_valid_project_name, validate_project_name};

#[test]
fn underscore_name_is_accepted() {
    assert!(is_valid_project_name("proj_1"));
    assert!(validate_project_name("proj_1").is_ok());
}

#[test]
fn hyphen_and_empty_names_are_rejected() {
    assert!(!is_valid_project_name("proj-1"));
    assert!(!is_valid_project_name(""));
    match validate_project_name("proj-1") {
        Err(PinocError::Validation { name }) => assert_eq!(name, "proj-1"),
        other => panic!("expected a validation error, got {:?}", other),
    }
    assert!(matches!(validate_project_name(""), Err(PinocError::Validation { .. })));
}

#[test]
fn other_symbols_are_rejected_and_letters_of_any_script_accepted() {
    assert!(!is_valid_project_name("my project"));
    assert!(!is_valid_project_name("a.b"));
    assert!(is_valid_project_name("café_2"));
    assert!(is_valid_project_name("_"));
}
