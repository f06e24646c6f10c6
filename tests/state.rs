use cardboard_lib::keyboard::{KeyboardState, PhysicalKeyState};
use cardboard_lib::macros::{CurrentSequence, MacroState};
use cardboard_lib::profile::{
    Action, ActionEvent, Channel, DeviceKey, DeviceKeyLayer, DeviceLayers, KeyId, KeyboardEvent,
    KeyboardKey, KeyboardProfile, LayerId, LayerTag, Macro, MacroId, MacroIndex, MouseEvent,
    MouseMove, Sequence, TagMatchType, TaggedDeviceKeyLayer,
};
use cardboard_lib::sequence::SequenceState;
use cardboard_lib::tags::TagList;
use cardboard_lib::time::Duration;
use uuid::Uuid;

fn key_id() -> KeyId {
    KeyId::new(Uuid::from_u128_le(0xd1472104_1c37_560f_a39b_1737983559fc).as_u128())
}

fn key_id2() -> KeyId {
    KeyId::new(Uuid::from_u128_le(0x5661275b_eba1_5c7b_b7cc_f8f8dd08d3b7).as_u128())
}

fn macro_id() -> MacroId {
    MacroId::new(Uuid::from_u128_le(0x140acba7_4971_5b36_af21_ce478b891606).as_u128())
}

fn macro_id2() -> MacroId {
    MacroId::new(Uuid::from_u128_le(0x1326a82d_af4c_5e64_8619_ed6686415550).as_u128())
}

fn channel_id() -> Channel {
    Channel::new(3)
}

fn channel_id2() -> Channel {
    Channel::new(4)
}

fn layer_id() -> LayerId {
    LayerId::new(Uuid::from_u128_le(0x6e30c4c9_8e84_5e71_a303_6fc00ca31d68).as_u128())
}

fn layer_id2() -> LayerId {
    LayerId::new(Uuid::from_u128_le(0x2cb2145a_6fd1_59e3_8b2e_bd8160f9924c).as_u128())
}

fn ms(v: u64) -> Duration {
    Duration::from_millis(v)
}

fn action(predelay_ms: u64, action_event: ActionEvent) -> Action {
    Action { predelay_ms, action_event }
}

fn new_test_profile(keys: Vec<DeviceKey>, macros: Vec<Macro>) -> KeyboardProfile {
    KeyboardProfile { name: "".to_string(), keys, virtual_keys: vec![], macros }
}

fn new_test_device_key(id: KeyId, macros: Vec<MacroIndex>) -> DeviceKey {
    DeviceKey {
        id,
        layers: DeviceLayers {
            layers: Vec::new(),
            default_layer: DeviceKeyLayer { id: layer_id(), macros },
        },
    }
}

fn new_test_macro(id: MacroId, channel: Option<Channel>, cut: Vec<Channel>) -> Macro {
    Macro {
        start_sequence: Sequence { actions: vec![action(100, ActionEvent::Nothing)] },
        loop_sequence: Sequence { actions: vec![action(200, ActionEvent::Nothing)] },
        end_sequence: Sequence { actions: vec![action(300, ActionEvent::Nothing)] },
        cut_channels: cut,
        id,
        name: "Name".to_string(),
        play_channel: channel,
    }
}

fn tagged_key(tagged_macro: u16, default_macro: u16) -> DeviceKey {
    DeviceKey {
        id: key_id(),
        layers: DeviceLayers {
            layers: vec![TaggedDeviceKeyLayer {
                layer: DeviceKeyLayer { id: layer_id2(), macros: vec![MacroIndex::new(tagged_macro)] },
                tags: vec![LayerTag::from_str("test")],
                match_type: TagMatchType::All,
            }],
            default_layer: DeviceKeyLayer { id: layer_id(), macros: vec![MacroIndex::new(default_macro)] },
        },
    }
}

// ------- SEQUENCE TESTS --------

#[test]
fn sequence_accumulates_elapsed_time() {
    let sequence = Sequence { actions: vec![action(1000, ActionEvent::Nothing)] };

    let mut state = SequenceState::from(&sequence, ms(0));
    assert_eq!(state.elapsed(), ms(0));

    state.tick(ms(50), &mut vec![]);
    assert_eq!(state.elapsed(), ms(50));

    state.tick(ms(100), &mut vec![]);
    assert_eq!(state.elapsed(), ms(150));

    state.tick(ms(200), &mut vec![]);
    assert_eq!(state.elapsed(), ms(350));
}

#[test]
fn sequence_doesnt_pop_actions_while_accumulating() {
    let sequence = Sequence { actions: vec![action(1000, ActionEvent::Nothing)] };

    let mut state = SequenceState::from(&sequence, ms(0));
    assert_eq!(state.pending_len(), 1);

    state.tick(ms(100), &mut vec![]);
    assert_eq!(state.pending_len(), 1);

    state.tick(ms(100), &mut vec![]);
    assert_eq!(state.pending_len(), 1);

    state.tick(ms(200), &mut vec![]);
    assert_eq!(state.pending_len(), 1);

    state.tick(ms(599), &mut vec![]);
    assert_eq!(state.pending_len(), 1);
}

#[test]
fn sequence_moves_to_next_action() {
    let sequence = Sequence {
        actions: vec![action(100, ActionEvent::Nothing), action(200, ActionEvent::Nothing)],
    };

    let mut state = SequenceState::from(&sequence, ms(0));
    assert_eq!(state.pending_len(), 2);

    state.tick(ms(99), &mut vec![]);
    assert_eq!(state.pending_len(), 2);

    state.tick(ms(1), &mut vec![]);
    assert_eq!(state.pending_len(), 1);
}

#[test]
fn sequence_finishes() {
    let sequence = Sequence {
        actions: vec![action(100, ActionEvent::Nothing), action(200, ActionEvent::Nothing)],
    };

    let mut state = SequenceState::from(&sequence, ms(0));
    assert_eq!(state.is_finished(), false);

    state.tick(ms(299), &mut vec![]);
    assert_eq!(state.is_finished(), false);

    state.tick(ms(1), &mut vec![]);
    assert_eq!(state.is_finished(), true);
}

#[test]
fn sequence_pops_no_delay_action_immediately() {
    let sequence = Sequence { actions: vec![action(0, ActionEvent::Nothing)] };

    let mut state = SequenceState::from(&sequence, ms(0));
    assert_eq!(state.pending_len(), 1);

    state.tick(ms(0), &mut vec![]);
    assert_eq!(state.pending_len(), 0);
}

#[test]
fn sequence_pops_multiple_actions_with_long_elapsed_time() {
    let sequence = Sequence {
        actions: vec![
            action(100, ActionEvent::Nothing),
            action(200, ActionEvent::Nothing),
            action(100, ActionEvent::Nothing),
        ],
    };

    let mut state = SequenceState::from(&sequence, ms(0));
    assert_eq!(state.pending_len(), 3);

    state.tick(ms(400), &mut vec![]);
    assert_eq!(state.pending_len(), 0);
}

#[test]
fn sequence_gets_correct_actions() {
    let sequence = Sequence {
        actions: vec![
            action(100, ActionEvent::Keyboard(KeyboardEvent::KeyDown(KeyboardKey::A))),
            action(200, ActionEvent::Mouse(MouseEvent::Move(MouseMove { x: 0, y: 0 }))),
            action(100, ActionEvent::Keyboard(KeyboardEvent::KeyUp(KeyboardKey::A))),
        ],
    };

    let mut state = SequenceState::from(&sequence, ms(0));
    let mut events = vec![];

    state.tick(ms(400), &mut events);
    assert_eq!(events.len(), 3);

    assert!(matches!(events[0], ActionEvent::Keyboard(KeyboardEvent::KeyDown(KeyboardKey::A))));
    assert!(matches!(events[1], ActionEvent::Mouse(MouseEvent::Move(MouseMove { x: 0, y: 0 }))));
    assert!(matches!(events[2], ActionEvent::Keyboard(KeyboardEvent::KeyUp(KeyboardKey::A))));
}

// ------- MACRO TESTS --------

#[test]
fn macro_moves_to_loop_sequence() {
    let _macro = new_test_macro(macro_id(), Some(channel_id()), vec![channel_id()]);
    let device_key = new_test_device_key(key_id(), vec![MacroIndex::new(0)]);

    let key_state = PhysicalKeyState::from(&device_key);
    let mut macro_state = MacroState::from(&_macro, key_state.source());
    assert!(matches!(macro_state.current_sequence(), CurrentSequence::Start));

    macro_state.tick(ms(100), &mut vec![]);
    assert!(matches!(macro_state.current_sequence(), CurrentSequence::Loop));
}

#[test]
fn macro_loops() {
    let _macro = new_test_macro(macro_id(), Some(channel_id()), vec![channel_id()]);
    let device_key = new_test_device_key(key_id(), vec![MacroIndex::new(0)]);

    let key_state = PhysicalKeyState::from(&device_key);
    let mut macro_state = MacroState::from(&_macro, key_state.source());

    macro_state.tick(ms(100), &mut vec![]);
    assert!(matches!(macro_state.current_sequence(), CurrentSequence::Loop));

    macro_state.tick(ms(200), &mut vec![]);
    assert!(matches!(macro_state.current_sequence(), CurrentSequence::Loop));
}

#[test]
fn macro_with_empty_loop_still_loops() {
    let _macro = Macro {
        start_sequence: Sequence { actions: vec![action(100, ActionEvent::Nothing)] },
        loop_sequence: Sequence { actions: vec![] },
        end_sequence: Sequence { actions: vec![action(300, ActionEvent::Nothing)] },
        cut_channels: vec![channel_id()],
        id: macro_id(),
        name: "Name".to_string(),
        play_channel: Some(channel_id()),
    };
    let device_key = new_test_device_key(key_id(), vec![MacroIndex::new(0)]);

    let key_state = PhysicalKeyState::from(&device_key);
    let mut macro_state = MacroState::from(&_macro, key_state.source());

    macro_state.tick(ms(100), &mut vec![]);
    assert!(matches!(macro_state.current_sequence(), CurrentSequence::Loop));

    macro_state.tick(ms(300), &mut vec![]);
    assert!(matches!(macro_state.current_sequence(), CurrentSequence::Loop));
}

#[test]
fn macro_goes_to_end() {
    let _macro = new_test_macro(macro_id(), Some(channel_id()), vec![channel_id()]);
    let device_key = new_test_device_key(key_id(), vec![MacroIndex::new(0)]);

    let key_state = PhysicalKeyState::from(&device_key);
    let mut macro_state = MacroState::from(&_macro, key_state.source());

    macro_state.tick(ms(100), &mut vec![]);
    assert!(matches!(macro_state.current_sequence(), CurrentSequence::Loop));

    macro_state.stop();

    macro_state.tick(ms(200), &mut vec![]);
    assert!(matches!(macro_state.current_sequence(), CurrentSequence::End));
}

#[test]
fn macro_ends() {
    let _macro = new_test_macro(macro_id(), Some(channel_id()), vec![channel_id()]);
    let device_key = new_test_device_key(key_id(), vec![MacroIndex::new(0)]);

    let key_state = PhysicalKeyState::from(&device_key);
    let mut macro_state = MacroState::from(&_macro, key_state.source());

    macro_state.tick(ms(100), &mut vec![]);
    assert!(matches!(macro_state.current_sequence(), CurrentSequence::Loop));

    macro_state.stop();

    macro_state.tick(ms(200), &mut vec![]);
    assert!(matches!(macro_state.current_sequence(), CurrentSequence::End));

    macro_state.tick(ms(300), &mut vec![]);
    assert!(matches!(macro_state.current_sequence(), CurrentSequence::Finished));
}

#[test]
fn macro_skips_to_end_when_released_during_start() {
    let _macro = new_test_macro(macro_id(), Some(channel_id()), vec![channel_id()]);
    let device_key = new_test_device_key(key_id(), vec![MacroIndex::new(0)]);

    let key_state = PhysicalKeyState::from(&device_key);
    let mut macro_state = MacroState::from(&_macro, key_state.source());

    macro_state.stop();

    macro_state.tick(ms(100), &mut vec![]);
    assert!(matches!(macro_state.current_sequence(), CurrentSequence::End));
}

// ------- KEYBOARD STATE TESTS --------

#[test]
fn pressing_a_key_starts_a_macro() {
    let _macro = new_test_macro(macro_id(), Some(channel_id()), vec![channel_id()]);
    let profile = new_test_profile(
        vec![new_test_device_key(key_id(), vec![MacroIndex::new(0)])],
        vec![_macro],
    );
    let mut state = KeyboardState::from(profile);

    assert_eq!(state.running_len(), 0);
    state.press_key(key_id());
    assert_eq!(state.running_len(), 1);
}

#[test]
fn keyboard_tick_updates_macros() {
    let _macro = new_test_macro(macro_id(), Some(channel_id()), vec![channel_id()]);
    let profile = new_test_profile(
        vec![new_test_device_key(key_id(), vec![MacroIndex::new(0)])],
        vec![_macro],
    );
    let mut state = KeyboardState::from(profile);

    state.press_key(key_id());
    assert_eq!(state.running_len(), 1);
    assert!(matches!(state.running_at(0).current_sequence(), CurrentSequence::Start));

    state.tick(ms(100), &mut vec![]);
    assert!(matches!(state.running_at(0).current_sequence(), CurrentSequence::Loop));

    state.tick(ms(200), &mut vec![]);
    assert!(matches!(state.running_at(0).current_sequence(), CurrentSequence::Loop));
}

#[test]
fn releasing_a_key_stops_a_macro() {
    let _macro = new_test_macro(macro_id(), Some(channel_id()), vec![channel_id()]);
    let profile = new_test_profile(
        vec![new_test_device_key(key_id(), vec![MacroIndex::new(0)])],
        vec![_macro],
    );
    let mut state = KeyboardState::from(profile);

    state.press_key(key_id());
    state.release_key(key_id());

    state.tick(ms(100), &mut vec![]);
    assert!(matches!(state.running_at(0).current_sequence(), CurrentSequence::End));
}

#[test]
fn pressing_a_key_cuts_own_channel() {
    let _macro = new_test_macro(macro_id(), Some(channel_id()), vec![channel_id()]);
    let profile = new_test_profile(
        vec![new_test_device_key(key_id(), vec![MacroIndex::new(0)])],
        vec![_macro],
    );
    let mut state = KeyboardState::from(profile);

    state.press_key(key_id());
    assert_eq!(state.running_len(), 1);

    state.press_key(key_id());
    assert_eq!(state.running_len(), 2);

    state.tick(ms(100), &mut vec![]);

    assert!(matches!(state.running_at(0).current_sequence(), CurrentSequence::End));
}

#[test]
fn pressing_a_key_cuts_other_channel() {
    let key_1 = key_id();
    let key_2 = key_id2();

    let macro_0 = new_test_macro(macro_id(), Some(channel_id()), vec![]);
    let macro_1 = new_test_macro(macro_id(), Some(channel_id2()), vec![channel_id()]);

    let profile = new_test_profile(
        vec![
            new_test_device_key(key_1, vec![MacroIndex::new(0)]),
            new_test_device_key(key_2, vec![MacroIndex::new(1)]),
        ],
        vec![macro_0, macro_1],
    );
    let mut state = KeyboardState::from(profile);

    state.press_key(key_1);
    assert_eq!(state.running_len(), 1);

    state.press_key(key_2);
    assert_eq!(state.running_len(), 2);

    state.tick(ms(100), &mut vec![]);

    assert!(matches!(state.running_at(0).current_sequence(), CurrentSequence::End));
    assert!(matches!(state.running_at(1).current_sequence(), CurrentSequence::Loop));
}

#[test]
fn internal_tags_affect_macro_selection() {
    let expected_macro_id = macro_id2();
    let other_macro_id = macro_id();

    let expected_macro = new_test_macro(expected_macro_id, Some(channel_id()), vec![channel_id()]);
    let other_macro = new_test_macro(other_macro_id, Some(channel_id()), vec![channel_id()]);
    let macros = vec![expected_macro, other_macro];

    let profile = new_test_profile(vec![tagged_key(0, 1)], macros);
    let mut state = KeyboardState::from(profile);

    state.add_internal_tag(LayerTag::from_str("test"));

    state.press_key(key_id());

    assert_eq!(state.running_at(0).macro_id(), expected_macro_id);
}

#[test]
fn external_tags_affect_macro_selection() {
    let expected_macro_id = macro_id2();
    let other_macro_id = macro_id();

    let expected_macro = new_test_macro(expected_macro_id, Some(channel_id()), vec![channel_id()]);
    let other_macro = new_test_macro(other_macro_id, Some(channel_id()), vec![channel_id()]);
    let macros = vec![expected_macro, other_macro];

    let profile = new_test_profile(vec![tagged_key(0, 1)], macros);
    let mut state = KeyboardState::from(profile);

    state.set_external_tags(vec![LayerTag::from_str("test")]);

    state.press_key(key_id());

    assert_eq!(state.running_at(0).macro_id(), expected_macro_id);
}

#[test]
fn internal_tags_dont_affect_macro_selection_when_not_set() {
    let expected_macro_id = macro_id();
    let other_macro_id = macro_id2();

    let expected_macro = new_test_macro(expected_macro_id, Some(channel_id()), vec![channel_id()]);
    let other_macro = new_test_macro(other_macro_id, Some(channel_id()), vec![channel_id()]);
    let macros = vec![expected_macro, other_macro];

    let profile = new_test_profile(vec![tagged_key(1, 0)], macros);
    let mut state = KeyboardState::from(profile);

    state.press_key(key_id());

    assert_eq!(state.running_at(0).macro_id(), expected_macro_id);
}

#[test]
fn layers_with_empty_tags_never_match_for_any() {
    let tag_list = TagList::new();

    assert_eq!(tag_list.matches(&[LayerTag::from_str("")], &TagMatchType::Any), false);
}

#[test]
fn layers_with_empty_tags_never_match_for_all() {
    let tag_list = TagList::new();

    assert_eq!(tag_list.matches(&[LayerTag::from_str("")], &TagMatchType::All), false);
}

#[test]
fn internal_tag_is_still_set_when_setting_tag_twice_and_clearing_once() {
    let mut tag_list = TagList::new();

    tag_list.add_internal(LayerTag::from_str("tag1"));
    tag_list.add_internal(LayerTag::from_str("tag1"));

    tag_list.remove_internal(LayerTag::from_str("tag1"));

    assert_eq!(tag_list.matches(&[LayerTag::from_str("tag1")], &TagMatchType::All), true);
}
