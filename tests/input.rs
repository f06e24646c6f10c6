use cardboard_lib::input::{InputKey, KeyMatrix, KeyState, KeyboardAction};
use cardboard_lib::profile::KeyId;
use cardboard_lib::time::Duration;
use uuid::Uuid;

fn ticks(v: u64) -> Duration {
    Duration::from_micros(v)
}

#[test]
fn key_same_state_returns_none() {
    let key_id = KeyId::new(Uuid::from_u128(0).as_u128());
    let mut input_key = InputKey {
        id: key_id,
        prev_actual_state: KeyState::Released,
        prev_reported_state: KeyState::Released,
        keydown_time: Duration::from_micros(0),
        debounce_time: Duration::from_micros(0),
    };

    let result = input_key.update(KeyState::Released, ticks(1));

    assert_eq!(result, None);
}

#[test]
fn key_pressed_returns_pressed() {
    let key_id = KeyId::new(Uuid::from_u128(0).as_u128());
    let mut input_key = InputKey {
        id: key_id,
        prev_actual_state: KeyState::Released,
        prev_reported_state: KeyState::Released,
        keydown_time: Duration::from_micros(0),
        debounce_time: Duration::from_micros(0),
    };

    let result = input_key.update(KeyState::Pressed, ticks(1));

    assert_eq!(result, Some(KeyState::Pressed));
}

#[test]
fn key_released_returns_released() {
    let key_id = KeyId::new(Uuid::from_u128(0).as_u128());
    let mut input_key = InputKey {
        id: key_id,
        prev_actual_state: KeyState::Pressed,
        prev_reported_state: KeyState::Pressed,
        keydown_time: Duration::from_micros(0),
        debounce_time: Duration::from_micros(0),
    };

    let result = input_key.update(KeyState::Released, ticks(1));

    assert_eq!(result, Some(KeyState::Released));
}

#[test]
fn key_pressed_and_released_returns_released() {
    let key_id = KeyId::new(Uuid::from_u128(0).as_u128());
    let mut input_key = InputKey {
        id: key_id,
        prev_actual_state: KeyState::Released,
        prev_reported_state: KeyState::Released,
        keydown_time: Duration::from_micros(0),
        debounce_time: Duration::from_micros(0),
    };

    _ = input_key.update(KeyState::Pressed, ticks(1));
    let result = input_key.update(KeyState::Released, ticks(1));

    assert_eq!(result, Some(KeyState::Released));
}

#[test]
fn key_held_returns_no_actions() {
    let key_id = KeyId::new(Uuid::from_u128(0).as_u128());
    let mut input_key = InputKey {
        id: key_id,
        prev_actual_state: KeyState::Pressed,
        prev_reported_state: KeyState::Pressed,
        keydown_time: Duration::from_micros(0),
        debounce_time: Duration::from_micros(0),
    };
    let result = input_key.update(KeyState::Pressed, ticks(1));

    assert_eq!(result, None);
}

#[test]
fn key_held_no_dt_returns_no_actions() {
    let key_id = KeyId::new(Uuid::from_u128(0).as_u128());
    let mut input_key = InputKey {
        id: key_id,
        prev_actual_state: KeyState::Pressed,
        prev_reported_state: KeyState::Pressed,
        keydown_time: Duration::from_micros(0),
        debounce_time: Duration::from_micros(0),
    };
    let result = input_key.update(KeyState::Pressed, ticks(0));

    assert_eq!(result, None);
}

#[test]
fn key_press_and_release_is_debounced() {
    let key_id = KeyId::new(Uuid::from_u128(0).as_u128());
    let mut input_key = InputKey {
        id: key_id,
        prev_actual_state: KeyState::Released,
        prev_reported_state: KeyState::Released,
        keydown_time: Duration::from_micros(0),
        debounce_time: Duration::from_micros(5),
    };
    _ = input_key.update(KeyState::Pressed, ticks(0));
    let result = input_key.update(KeyState::Released, ticks(1));

    assert_eq!(result, None);
}

#[test]
fn key_press_and_released_after_debounce_time_is_released() {
    let key_id = KeyId::new(Uuid::from_u128(0).as_u128());
    let mut input_key = InputKey {
        id: key_id,
        prev_actual_state: KeyState::Released,
        prev_reported_state: KeyState::Released,
        keydown_time: Duration::from_micros(0),
        debounce_time: Duration::from_micros(5),
    };
    _ = input_key.update(KeyState::Pressed, ticks(0));
    let result = input_key.update(
        KeyState::Released,
        Duration::from_micros(input_key.debounce_time.micros + 1),
    );

    assert_eq!(result, Some(KeyState::Released));
}

#[test]
fn key_press_and_released_after_debounce_time_and_multiple_updates_is_released() {
    let key_id = KeyId::new(Uuid::from_u128(0).as_u128());
    let mut input_key = InputKey {
        id: key_id,
        prev_actual_state: KeyState::Released,
        prev_reported_state: KeyState::Released,
        keydown_time: Duration::from_micros(0),
        debounce_time: Duration::from_micros(5),
    };
    _ = input_key.update(KeyState::Pressed, ticks(0));
    _ = input_key.update(KeyState::Pressed, ticks(1));
    _ = input_key.update(KeyState::Released, ticks(1));
    let result = input_key.update(KeyState::Released, input_key.debounce_time);

    assert_eq!(result, Some(KeyState::Released));
}

#[test]
fn key_press_and_release_and_press_during_debounce_doesnt_reset_debounce_time() {
    let key_id = KeyId::new(Uuid::from_u128(0).as_u128());
    let mut input_key = InputKey {
        id: key_id,
        prev_actual_state: KeyState::Released,
        prev_reported_state: KeyState::Released,
        keydown_time: Duration::from_micros(0),
        debounce_time: Duration::from_micros(5),
    };
    _ = input_key.update(KeyState::Pressed, ticks(0));
    _ = input_key.update(KeyState::Released, ticks(3));
    _ = input_key.update(KeyState::Pressed, ticks(1));
    let result = input_key.update(
        KeyState::Released,
        Duration::from_micros(input_key.debounce_time.micros - 1),
    );

    assert_eq!(result, Some(KeyState::Released));
}

fn single_key_matrix(debounce: u64) -> KeyMatrix {
    let key_id = KeyId::new(Uuid::from_u128(0).as_u128());
    KeyMatrix::new(1, 1, &vec![key_id], ticks(debounce))
}

#[test]
fn empty_matrix_returns_no_actions() {
    let mut matrix = single_key_matrix(0);

    let dt = ticks(1);
    let output: &mut Vec<KeyboardAction> = &mut Vec::new();

    matrix.update(dt, &vec![false], output);

    assert_eq!(output.len(), 0);
}

#[test]
fn pressed_key_returns_pressed_action() {
    let mut matrix = single_key_matrix(0);

    let dt = ticks(1);
    let output: &mut Vec<KeyboardAction> = &mut Vec::new();
    matrix.update(dt, &vec![true], output);

    assert_eq!(output.len(), 1);
    assert_eq!(output[0].action, KeyState::Pressed);
}

#[test]
fn subsequent_updates_dont_return_pressed_actions() {
    let mut matrix = single_key_matrix(0);

    let dt = ticks(1);
    let output: &mut Vec<KeyboardAction> = &mut Vec::new();

    matrix.update(dt, &vec![true], output);
    output.clear();
    matrix.update(dt, &vec![true], output);

    assert_eq!(
        output.len(),
        0,
        "Subsequent updates should not return any actions, but found actions: {:?}",
        output[0]
    );
}

#[test]
fn subsequent_updates_dont_return_released_actions() {
    let mut matrix = single_key_matrix(0);

    let dt = ticks(1);
    let output: &mut Vec<KeyboardAction> = &mut Vec::new();

    matrix.update(dt, &vec![false], output);
    output.clear();
    matrix.update(dt, &vec![false], output);

    assert_eq!(output.len(), 0);
}

#[test]
fn released_key_returns_released_action() {
    let mut matrix = single_key_matrix(0);

    let dt = ticks(1);
    let output: &mut Vec<KeyboardAction> = &mut Vec::new();

    matrix.update(dt, &vec![true], output);
    output.clear();
    matrix.update(dt, &vec![false], output);

    assert_eq!(output.len(), 1);
    assert_eq!(output[0].action, KeyState::Released);
}

#[test]
fn debounce_released_key() {
    let mut matrix = single_key_matrix(5);

    let dt = ticks(1);
    let output: &mut Vec<KeyboardAction> = &mut Vec::new();

    matrix.update(dt, &vec![false], output);
    output.clear();
    matrix.update(dt, &vec![false], output);

    assert_eq!(output.len(), 0);
}

#[test]
fn resolve_index_from_row_col_correctly_when_wrapping() {
    let index = KeyMatrix::get_key_index(1, 0, 6);
    assert_eq!(index, 6);
}

#[test]
fn key_index_6_and_13_dont_register_key_index_12() {
    let button_states: [[bool; 6]; 5] = [
        [false, false, false, false, false, false],
        [true, false, false, false, false, false],
        [false, true, false, false, false, false],
        [false, false, false, false, false, false],
        [false, false, false, false, false, false],
    ];
    let pressed: Vec<bool> = button_states.iter().flat_map(|row| row.iter().copied()).collect();

    let mut key_ids: Vec<KeyId> = vec![KeyId::new(Uuid::from_u128(0).as_u128()); 30];
    key_ids[6] = KeyId::new(Uuid::from_u128(1).as_u128());
    key_ids[12] = KeyId::new(Uuid::from_u128(2).as_u128());
    key_ids[13] = KeyId::new(Uuid::from_u128(3).as_u128());
    assert_eq!(key_ids.len(), 30);

    let mut matrix = KeyMatrix::new(5, 6, &key_ids, ticks(0));

    let dt = ticks(1);
    let output: &mut Vec<KeyboardAction> = &mut Vec::new();
    matrix.update(dt, &pressed, output);

    assert_eq!(output.len(), 2);

    assert!(output.iter().any(|action| {
        action.key_id == KeyId::new(Uuid::from_u128(1).as_u128()) && action.action == KeyState::Pressed
    }));
    assert!(output.iter().any(|action| {
        action.key_id == KeyId::new(Uuid::from_u128(3).as_u128()) && action.action == KeyState::Pressed
    }));
}
