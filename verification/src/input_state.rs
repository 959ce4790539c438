use vstd::prelude::*;
use godot::builtin::Vector2;

verus! {

/// Godot's 2D vector, carried through as an opaque value.
#[verifier::external_type_specification]
#[verifier::external_body]
pub struct ExVector2(Vector2);

/// The player's input as it stands after the events seen so far.
#[derive(Default)]
pub struct InputState {
    pub left_pressed: bool,
    pub right_pressed: bool,
    pub jump_pressed: bool,
    pub mouse_pressed: bool,
    pub mouse_position: Vector2,
}

/// A mouse button event: whether the button went down, and where.
pub struct MouseButton {
    pub pressed: bool,
    pub position: Vector2,
}

/// What one input event says about the actions that the game reads:
/// for each of `move_left`, `move_right` and `jump`, whether the event
/// presses or releases it, and the mouse button event it is, if it is one.
pub struct InputEventSummary {
    pub move_left_pressed: bool,
    pub move_left_released: bool,
    pub move_right_pressed: bool,
    pub move_right_released: bool,
    pub jump_pressed: bool,
    pub jump_released: bool,
    pub mouse_button: Option<MouseButton>,
}

/// The new value of an action flag: a release clears it, else a press sets
/// it, else it keeps its value.
pub open spec fn action_flag(old_flag: bool, pressed: bool, released: bool) -> bool {
    if released {
        false
    } else if pressed {
        true
    } else {
        old_flag
    }
}

/// An action is held after an event that presses it without releasing it,
/// whether or not it was held before; it is not held after an event that
/// releases it; and an event that does neither leaves it as it was.
pub proof fn law_action_flag(old_flag: bool, pressed: bool, released: bool)
    ensures
        pressed && !released ==> action_flag(old_flag, pressed, released),
        released ==> !action_flag(old_flag, pressed, released),
        !pressed && !released ==> action_flag(old_flag, pressed, released) == old_flag,
{
}

/// Updates the input state from one event.
pub fn handle_input(event: &InputEventSummary, input: &mut InputState)
    ensures
        final(input).left_pressed == action_flag(
            old(input).left_pressed,
            event.move_left_pressed,
            event.move_left_released,
        ),
        final(input).right_pressed == action_flag(
            old(input).right_pressed,
            event.move_right_pressed,
            event.move_right_released,
        ),
        final(input).jump_pressed == action_flag(
            old(input).jump_pressed,
            event.jump_pressed,
            event.jump_released,
        ),
        final(input).mouse_pressed == match event.mouse_button {
            Some(button) => button.pressed,
            None => old(input).mouse_pressed,
        },
        final(input).mouse_position == match event.mouse_button {
            Some(button) => if button.pressed {
                button.position
            } else {
                old(input).mouse_position
            },
            None => old(input).mouse_position,
        },
        event.move_left_pressed && !event.move_left_released ==> final(input).left_pressed,
        event.move_right_pressed && !event.move_right_released ==> final(input).right_pressed,
        event.jump_pressed && !event.jump_released ==> final(input).jump_pressed,
        event.move_left_released ==> !final(input).left_pressed,
        event.move_right_released ==> !final(input).right_pressed,
        event.jump_released ==> !final(input).jump_pressed,
        !event.move_left_pressed && !event.move_left_released ==> final(input).left_pressed
            == old(input).left_pressed,
        !event.move_right_pressed && !event.move_right_released ==> final(input).right_pressed
            == old(input).right_pressed,
        !event.jump_pressed && !event.jump_released ==> final(input).jump_pressed
            == old(input).jump_pressed,
{
    if event.move_left_pressed {
        input.left_pressed = true;
    }
    if event.move_right_pressed {
        input.right_pressed = true;
    }
    if event.move_left_released {
        input.left_pressed = false;
    }
    if event.move_right_released {
        input.right_pressed = false;
    }
    if event.jump_pressed {
        input.jump_pressed = true;
    }
    if event.jump_released {
        input.jump_pressed = false;
    }
    match &event.mouse_button {
        Some(button) => {
            if button.pressed {
                input.mouse_pressed = true;
                input.mouse_position = button.position;
            } else {
                input.mouse_pressed = false;
            }
        },
        None => {},
    }
}

} // verus!
