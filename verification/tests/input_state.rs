use beatsmr::input_state::{handle_input, InputEventSummary, InputState, MouseButton};
use godot::builtin::Vector2;

fn quiet() -> InputEventSummary {
    InputEventSummary {
        move_left_pressed: false,
        move_left_released: false,
        move_right_pressed: false,
        move_right_released: false,
        jump_pressed: false,
        jump_released: false,
        mouse_button: None,
    }
}

#[test]
fn pressing_and_releasing_actions() {
    let mut input = InputState::default();
    handle_input(&InputEventSummary { move_left_pressed: true, ..quiet() }, &mut input);
    assert!(input.left_pressed && !input.right_pressed && !input.jump_pressed);

    handle_input(&InputEventSummary { jump_pressed: true, move_right_pressed: true, ..quiet() }, &mut input);
    assert!(input.left_pressed && input.right_pressed && input.jump_pressed);

    handle_input(&InputEventSummary { move_left_released: true, ..quiet() }, &mut input);
    assert!(!input.left_pressed && input.right_pressed && input.jump_pressed);

    handle_input(&InputEventSummary { jump_released: true, move_right_released: true, ..quiet() }, &mut input);
    assert!(!input.left_pressed && !input.right_pressed && !input.jump_pressed);
}

#[test]
fn release_wins_over_press_in_one_event() {
    let mut input = InputState::default();
    handle_input(
        &InputEventSummary { move_left_pressed: true, move_left_released: true, ..quiet() },
        &mut input,
    );
    assert!(!input.left_pressed);
}

#[test]
fn quiet_event_changes_nothing() {
    let mut input = InputState::default();
    input.right_pressed = true;
    input.mouse_position = Vector2::new(3.0, 4.0);
    handle_input(&quiet(), &mut input);
    assert!(input.right_pressed && !input.left_pressed && !input.mouse_pressed);
    assert_eq!(input.mouse_position, Vector2::new(3.0, 4.0));
}

#[test]
fn mouse_press_records_position_release_keeps_it() {
    let mut input = InputState::default();
    let press = InputEventSummary {
        mouse_button: Some(MouseButton { pressed: true, position: Vector2::new(10.0, 20.0) }),
        ..quiet()
    };
    handle_input(&press, &mut input);
    assert!(input.mouse_pressed);
    assert_eq!(input.mouse_position, Vector2::new(10.0, 20.0));

    let release = InputEventSummary {
        mouse_button: Some(MouseButton { pressed: false, position: Vector2::new(99.0, 99.0) }),
        ..quiet()
    };
    handle_input(&release, &mut input);
    assert!(!input.mouse_pressed);
    assert_eq!(input.mouse_position, Vector2::new(10.0, 20.0));
}
