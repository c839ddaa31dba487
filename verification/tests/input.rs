use levo::input::{Inputs, PointerButton};

#[test]
fn fresh_inputs_report_nothing() {
    let inputs = Inputs::new();
    assert!(!inputs.key_pressed(30));
    assert!(!inputs.key_just_pressed(30));
    assert!(!inputs.key_just_released(30));
    assert!(!inputs.mouse_button_pressed(PointerButton::Left));
    assert!(!inputs.mouse_button_just_pressed(PointerButton::Left));
    assert!(!inputs.mouse_button_just_released(PointerButton::Left));
}

#[test]
fn refresh_replaces_last_frame() {
    let mut inputs = Inputs::new();
    inputs.refresh(vec![1], vec![1, 2], vec![], vec![PointerButton::Left], vec![PointerButton::Left], vec![]);
    assert!(inputs.key_just_pressed(1));
    assert!(inputs.key_pressed(2));
    assert!(!inputs.key_just_released(1));
    assert!(inputs.mouse_button_just_pressed(PointerButton::Left));
    assert!(inputs.mouse_button_pressed(PointerButton::Left));
    inputs.refresh(vec![], vec![2], vec![1], vec![], vec![], vec![PointerButton::Other(7)]);
    assert!(!inputs.key_just_pressed(1));
    assert!(!inputs.key_pressed(1));
    assert!(inputs.key_just_released(1));
    assert!(!inputs.mouse_button_pressed(PointerButton::Left));
    assert!(inputs.mouse_button_just_released(PointerButton::Other(7)));
    assert!(!inputs.mouse_button_just_released(PointerButton::Other(8)));
}
