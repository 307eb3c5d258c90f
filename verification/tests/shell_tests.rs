use sudoku_rpg::input::Axis;
use sudoku_rpg::input::Button;
use sudoku_rpg::input::InputBinding;
use sudoku_rpg::input::InputEvent;
use sudoku_rpg::input::KeyCode;
use sudoku_rpg::input::MouseButton;
use sudoku_rpg::shell::MainState;

/// A completed, valid sudoku grid whose cell (0, 0) holds 5.
fn solved_value(col: usize, row: usize) -> u8 {
    (((3 * row + row / 3 + col) + 4) % 9 + 1) as u8
}

#[test]
fn binding_maps_arrows_digits_and_primary_button() {
    let binding = InputBinding::new();
    assert_eq!(binding.resolve_key(KeyCode::Up), Some(InputEvent::Axis(Axis::Vert, false)));
    assert_eq!(binding.resolve_key(KeyCode::Down), Some(InputEvent::Axis(Axis::Vert, true)));
    assert_eq!(binding.resolve_key(KeyCode::Left), Some(InputEvent::Axis(Axis::Horz, false)));
    assert_eq!(binding.resolve_key(KeyCode::Right), Some(InputEvent::Axis(Axis::Horz, true)));
    assert_eq!(binding.resolve_key(KeyCode::Key1), Some(InputEvent::Button(Button::Num1, None)));
    assert_eq!(binding.resolve_key(KeyCode::Key9), Some(InputEvent::Button(Button::Num9, None)));
    assert_eq!(binding.resolve_key(KeyCode::Escape), None);
    assert_eq!(binding.resolve_key(KeyCode::Other), None);

    assert_eq!(
        binding.resolve_mouse(MouseButton::Left, 30, 40),
        Some(InputEvent::Button(Button::Select, Some((30, 40))))
    );
    assert_eq!(binding.resolve_mouse(MouseButton::Right, 30, 40), None);
    assert_eq!(binding.resolve_mouse(MouseButton::Middle, 30, 40), None);
    assert_eq!(binding.resolve_mouse_motion(1, 2, 3, 4), None);
}

#[test]
fn clicks_select_and_keys_write_digits() {
    let mut state = MainState::new();
    // The standard layout puts the board origin at (15, 15), size 450:
    // a click one pixel inside selects cell (0, 0).
    state.mouse_button_down_event(MouseButton::Left, 16, 16);
    assert_eq!(state.scenes.scenes[0].gameboard.selected_cell, Some((0, 0)));

    // The centre of the board selects cell (4, 4)...
    state.mouse_button_down_event(MouseButton::Left, 15 + 225, 15 + 225);
    assert_eq!(state.scenes.scenes[0].gameboard.selected_cell, Some((4, 4)));
    // ...and a click one pixel left of the origin is rejected.
    state.mouse_button_down_event(MouseButton::Left, 14, 15);
    assert_eq!(state.scenes.scenes[0].gameboard.selected_cell, Some((4, 4)));

    // A digit key writes into the selected cell.
    state.key_down_event(KeyCode::Key7);
    assert_eq!(state.scenes.scenes[0].gameboard.value_at(4, 4), 7);

    // Arrow keys move the selection on release, not on press.
    state.key_down_event(KeyCode::Right);
    assert_eq!(state.scenes.scenes[0].gameboard.selected_cell, Some((4, 4)));
    state.key_up_event(KeyCode::Right);
    assert_eq!(state.scenes.scenes[0].gameboard.selected_cell, Some((5, 4)));

    // Unmapped keys and mouse motion change nothing.
    state.key_down_event(KeyCode::Escape);
    state.mouse_motion_event(3, 4, 1, 1);
    assert_eq!(state.scenes.scenes[0].gameboard.selected_cell, Some((5, 4)));
}

#[test]
fn filling_the_board_solves_it_and_pops_the_scene() {
    let mut state = MainState::new();

    // Select (0, 0) and press digit 5.
    state.mouse_button_down_event(MouseButton::Left, 16, 16);
    state.key_down_event(KeyCode::Key5);
    assert_eq!(state.scenes.scenes[0].gameboard.value_at(0, 0), 5);
    assert!(!state.scenes.scenes[0].gameboard.solved);

    // Fill the remaining 80 cells with a valid completed grid.
    for row in 0..9 {
        for col in 0..9 {
            if !(row == 0 && col == 0) {
                assert!(!state.scenes.scenes[0].gameboard.solved);
                state.scenes.scenes[0].gameboard.set((col, row), solved_value(col, row));
            }
        }
    }
    // The final write flips `solved`, and the scene's next update pops it.
    assert!(state.scenes.scenes[0].gameboard.solved);
    let ticks = state.update(33_000_000);
    assert!(ticks >= 1);
    assert!(state.scenes.is_empty());
}

#[test]
fn a_33ms_frame_runs_one_or_two_ticks_never_zero() {
    let mut state = MainState::new();
    // From an empty accumulator, 33 ms covers one full 60 Hz tick.
    assert_eq!(state.update(33_000_000), 1);
    // The 16.3 ms remainder plus another 33 ms covers two.
    assert_eq!(state.update(33_000_000), 2);
    // Whatever the remainder below one tick, 33 ms never yields zero.
    for _ in 0..10 {
        let ticks = state.update(33_000_000);
        assert!(ticks == 1 || ticks == 2);
    }
    // A fast frame may legitimately run no tick at all.
    assert_eq!(state.update(1_000), 0);
}
