use levo::navigation::{respond_to_pointer, wants_navigation, ButtonResponse, PointerInteraction};

#[test]
fn return_or_command_r_navigates() {
    assert!(wants_navigation(true, false, false));
    assert!(wants_navigation(false, true, true));
    assert!(!wants_navigation(false, false, true));
    assert!(!wants_navigation(false, true, false));
}

#[test]
fn pointer_responses() {
    assert_eq!(respond_to_pointer(PointerInteraction::Pressed), ButtonResponse { highlighted: true, navigate: true });
    assert_eq!(respond_to_pointer(PointerInteraction::Hovered), ButtonResponse { highlighted: true, navigate: false });
    assert_eq!(respond_to_pointer(PointerInteraction::Away), ButtonResponse { highlighted: false, navigate: false });
}

#[test]
fn guest_setup_runs_once() {
    let mut first_run = true;
    assert!(levo::navigation::begin_guest_setup(&mut first_run));
    assert!(!first_run);
    assert!(!levo::navigation::begin_guest_setup(&mut first_run));
    assert!(!first_run);
}
