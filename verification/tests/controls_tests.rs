use monkey_business::controls::Action;
use monkey_business::controls::Binding;
use monkey_business::controls::BindingType;
use monkey_business::controls::ControlHandler;
use monkey_business::controls::ExpectedPressType;
use monkey_business::controls::InputSnapshot;
use monkey_business::controls::key_code_name;
use monkey_business::controls::mouse_code_name;
use monkey_business::controls::KEY_W;
use monkey_business::controls::KEY_ESCAPE;
use monkey_business::controls::KEY_LEFT_SHIFT;
use monkey_business::controls::MOUSE_RIGHT;

fn snapshot(
    keys_down: Vec<u16>,
    keys_released: Vec<u16>,
    mouse_down: Vec<u16>,
    mouse_released: Vec<u16>,
) -> InputSnapshot {
    InputSnapshot { keys_down, keys_released, mouse_down, mouse_released }
}

#[test]
fn default_mapping_has_twelve_bindings() {
    let handler = ControlHandler::default();
    assert!(!handler.is_sprint_toggle());
    let b = handler.get_binding(&Action::MoveUp).unwrap();
    assert_eq!(b.binding.len(), 1);
    assert_eq!(b.binding[0].0, BindingType::Key(KEY_W));
    assert_eq!(b.binding[0].1, ExpectedPressType::Press);
    let p = handler.get_binding(&Action::Pause).unwrap();
    assert_eq!(p.binding[0].0, BindingType::Key(KEY_ESCAPE));
    assert_eq!(p.binding[0].1, ExpectedPressType::Release);
}

#[test]
fn get_actions_reports_held_movement_key() {
    let handler = ControlHandler::default();
    let input = snapshot(vec![KEY_W], vec![], vec![], vec![]);
    let actions = handler.get_actions(&input);
    assert_eq!(actions, vec![Action::MoveUp]);
}

#[test]
fn get_actions_with_no_input_is_empty() {
    let handler = ControlHandler::default();
    let input = snapshot(vec![], vec![], vec![], vec![]);
    assert!(handler.get_actions(&input).is_empty());
}

#[test]
fn pause_fires_on_release_not_on_press() {
    let handler = ControlHandler::default();
    let held = snapshot(vec![KEY_ESCAPE], vec![], vec![], vec![]);
    assert!(!handler.is_action_active(&Action::Pause, &held));
    let released = snapshot(vec![], vec![KEY_ESCAPE], vec![], vec![]);
    assert!(handler.is_action_active(&Action::Pause, &released));
}

#[test]
fn interact_is_bound_to_right_mouse_release() {
    let handler = ControlHandler::default();
    let input = snapshot(vec![], vec![], vec![], vec![MOUSE_RIGHT]);
    let actions = handler.get_actions(&input);
    assert!(actions.contains(&Action::Interact));
    assert!(actions.contains(&Action::UIRightClick));
    assert!(!actions.contains(&Action::UIClick));
}

#[test]
fn edit_keybind_replaces_and_adds() {
    let mut handler = ControlHandler::default();
    let new_bind = Binding::new(vec![(BindingType::Key(0x0051), ExpectedPressType::Press)]);
    handler.edit_keybind(Action::MoveUp, new_bind);
    let b = handler.get_binding(&Action::MoveUp).unwrap();
    assert_eq!(b.binding[0].0, BindingType::Key(0x0051));
    let input = snapshot(vec![0x0051], vec![], vec![], vec![]);
    assert!(handler.is_action_active(&Action::MoveUp, &input));
}

#[test]
fn sprint_toggle_switches_to_release_and_back() {
    let mut handler = ControlHandler::default();
    handler.set_sprint_toggle(true);
    assert!(handler.is_sprint_toggle());
    let b = handler.get_binding(&Action::Sprint).unwrap();
    assert_eq!(b.binding.len(), 1);
    assert_eq!(b.binding[0].0, BindingType::Key(KEY_LEFT_SHIFT));
    assert_eq!(b.binding[0].1, ExpectedPressType::Release);
    handler.set_sprint_toggle(false);
    let b = handler.get_binding(&Action::Sprint).unwrap();
    assert_eq!(b.binding[0].1, ExpectedPressType::Press);
}

#[test]
fn key_names_match_the_table() {
    assert_eq!(key_code_name(KEY_W), "W");
    assert_eq!(key_code_name(0x0020), "Space");
    assert_eq!(key_code_name(KEY_ESCAPE), "Esc");
    assert_eq!(key_code_name(0xffb0), "Num0");
    assert_eq!(key_code_name(0x0001), "UNKWN");
    assert_eq!(mouse_code_name(0), "MouseLeft");
    assert_eq!(mouse_code_name(2), "MouseRight");
    assert_eq!(mouse_code_name(9), "MouseUNKWN");
}

#[test]
fn binding_display_joins_names_with_plus() {
    let b = Binding::new(vec![
        (BindingType::Key(KEY_LEFT_SHIFT), ExpectedPressType::Press),
        (BindingType::Mouse(0), ExpectedPressType::Press),
    ]);
    assert_eq!(b.display_string(), "LShift+MouseLeft");
    let single = Binding::new(vec![(BindingType::Key(KEY_W), ExpectedPressType::Press)]);
    assert_eq!(single.display_string(), "W");
    let empty = Binding::new(vec![]);
    assert_eq!(empty.display_string(), "");
}

#[test]
fn empty_chord_is_always_active() {
    let mut handler = ControlHandler::default();
    handler.edit_keybind(Action::Debug, Binding::new(vec![]));
    let input = snapshot(vec![], vec![], vec![], vec![]);
    assert!(handler.is_action_active(&Action::Debug, &input));
}
