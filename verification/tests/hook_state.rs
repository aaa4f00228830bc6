use dioxus_library_template::layer::HookState;

#[test]
fn from_str_names_added() {
    assert_eq!(HookState::from_str("added"), Some(HookState::Added));
}

#[test]
fn from_str_names_removed() {
    assert_eq!(HookState::from_str("removed"), Some(HookState::Removed));
}

#[test]
fn from_str_refuses_other_text() {
    assert_eq!(HookState::from_str("Added"), None);
    assert_eq!(HookState::from_str(""), None);
    assert_eq!(HookState::from_str("removed "), None);
}
