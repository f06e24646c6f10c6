use cardboard_lib::keyboard::{to_bitset_index, KeyboardState};
use cardboard_lib::macros::{CurrentSequence, MacroSourceKey, TriggerState};
use cardboard_lib::profile::{
    Action, ActionEvent, Channel, DeviceKey, DeviceKeyLayer, DeviceLayers, KeyId, KeyboardProfile,
    LayerEvent, LayerId, LayerTag, Macro, MacroId, MacroIndex, Sequence, TagMatchType,
    TaggedDeviceKeyLayer, VirtualKey,
};
use cardboard_lib::sequence::SequenceState;
use cardboard_lib::time::Duration;

fn ms(v: u64) -> Duration {
    Duration::from_millis(v)
}

fn seq(delays: &[u64]) -> Sequence {
    Sequence {
        actions: delays
            .iter()
            .map(|d| Action { predelay_ms: *d, action_event: ActionEvent::Nothing })
            .collect(),
    }
}

fn timed_macro(id: u128, channel: Option<u8>, cuts: &[u8]) -> Macro {
    Macro {
        id: MacroId::new(id),
        name: "M".to_string(),
        play_channel: channel.map(Channel::new),
        cut_channels: cuts.iter().map(|c| Channel::new(*c)).collect(),
        start_sequence: seq(&[100]),
        loop_sequence: seq(&[200]),
        end_sequence: seq(&[300]),
    }
}

fn plain_key(id: u128, slot: u16) -> DeviceKey {
    DeviceKey {
        id: KeyId::new(id),
        layers: DeviceLayers {
            layers: vec![],
            default_layer: DeviceKeyLayer { id: LayerId::new(1), macros: vec![MacroIndex::new(slot)] },
        },
    }
}

fn tag_key(id: u128, tagged_slot: u16, default_slot: u16) -> DeviceKey {
    DeviceKey {
        id: KeyId::new(id),
        layers: DeviceLayers {
            layers: vec![TaggedDeviceKeyLayer {
                tags: vec![LayerTag::from_str("fn")],
                match_type: TagMatchType::All,
                layer: DeviceKeyLayer { id: LayerId::new(2), macros: vec![MacroIndex::new(tagged_slot)] },
            }],
            default_layer: DeviceKeyLayer { id: LayerId::new(1), macros: vec![MacroIndex::new(default_slot)] },
        },
    }
}

fn profile(keys: Vec<DeviceKey>, virtual_keys: Vec<VirtualKey>, macros: Vec<Macro>) -> KeyboardProfile {
    KeyboardProfile { name: "p".to_string(), keys, virtual_keys, macros }
}

#[test]
fn sequence_with_no_actions_is_finished_at_once() {
    let mut state = SequenceState::from(&seq(&[]), ms(0));
    assert!(state.is_finished());
    let mut events = vec![];
    state.tick(ms(0), &mut events);
    assert!(state.is_finished());
    state.tick(ms(1000), &mut events);
    assert!(state.is_finished());
    assert!(events.is_empty());
}

#[test]
fn sequence_drains_three_actions_in_one_tick_in_order() {
    let sequence = Sequence {
        actions: vec![
            Action { predelay_ms: 100, action_event: ActionEvent::DebugAction(cardboard_lib::profile::DebugEvent::Log("a".to_string())) },
            Action { predelay_ms: 200, action_event: ActionEvent::DebugAction(cardboard_lib::profile::DebugEvent::Log("b".to_string())) },
            Action { predelay_ms: 100, action_event: ActionEvent::DebugAction(cardboard_lib::profile::DebugEvent::Log("c".to_string())) },
        ],
    };
    let mut state = SequenceState::from(&sequence, ms(0));
    let mut events = vec![];
    let left = state.tick(ms(400), &mut events);
    assert_eq!(left, ms(0));
    assert!(state.is_finished());
    let names: Vec<String> = events
        .iter()
        .map(|e| match e {
            ActionEvent::DebugAction(cardboard_lib::profile::DebugEvent::Log(s)) => s.clone(),
            _ => String::new(),
        })
        .collect();
    assert_eq!(names, vec!["a", "b", "c"]);
}

#[test]
fn sequence_returns_leftover_only_when_drained() {
    let mut state = SequenceState::from(&seq(&[100]), ms(0));
    assert_eq!(state.tick(ms(150), &mut vec![]), ms(50));
    let mut waiting = SequenceState::from(&seq(&[100, 100]), ms(0));
    assert_eq!(waiting.tick(ms(150), &mut vec![]), ms(0));
    assert_eq!(waiting.elapsed(), ms(50));
}

#[test]
fn self_cut_sends_first_instance_to_end_and_keeps_second_looping() {
    let mut state = KeyboardState::from(profile(
        vec![plain_key(10, 0)],
        vec![],
        vec![timed_macro(1, Some(3), &[3])],
    ));
    state.press_key(KeyId::new(10));
    state.tick(ms(100), &mut vec![]);
    assert_eq!(state.running_at(0).current_sequence(), CurrentSequence::Loop);

    state.press_key(KeyId::new(10));
    assert_eq!(state.running_len(), 2);
    assert_eq!(state.running_at(0).trigger(), TriggerState::Stopping);
    assert_eq!(state.running_at(1).trigger(), TriggerState::Running);

    state.tick(ms(200), &mut vec![]);
    assert_eq!(state.running_at(0).current_sequence(), CurrentSequence::End);
    assert_eq!(state.running_at(1).current_sequence(), CurrentSequence::Loop);

    state.tick(ms(300), &mut vec![]);
    assert_eq!(state.running_len(), 1);
    assert_eq!(state.running_at(0).current_sequence(), CurrentSequence::Loop);
}

#[test]
fn cut_of_another_channel_ends_its_macro() {
    let mut state = KeyboardState::from(profile(
        vec![plain_key(10, 0), plain_key(11, 1)],
        vec![],
        vec![timed_macro(1, Some(3), &[]), timed_macro(2, Some(4), &[3])],
    ));
    state.press_key(KeyId::new(10));
    state.press_key(KeyId::new(11));
    state.tick(ms(100), &mut vec![]);
    assert_eq!(state.running_at(0).macro_id(), MacroId::new(1));
    assert_eq!(state.running_at(0).current_sequence(), CurrentSequence::End);
    assert_eq!(state.running_at(1).current_sequence(), CurrentSequence::Loop);
}

#[test]
fn tags_select_layer_and_removal_reverts() {
    let mut state = KeyboardState::from(profile(
        vec![tag_key(10, 1, 0)],
        vec![],
        vec![timed_macro(1, None, &[]), timed_macro(2, None, &[])],
    ));
    state.add_internal_tag(LayerTag::from_str("fn"));
    state.press_key(KeyId::new(10));
    assert_eq!(state.running_at(0).macro_id(), MacroId::new(2));

    state.remove_internal_tag(LayerTag::from_str("fn"));
    assert_eq!(state.running_at(0).trigger(), TriggerState::Stopping);
    state.press_key(KeyId::new(10));
    assert_eq!(state.running_at(1).macro_id(), MacroId::new(1));

    state.set_external_tags(vec![LayerTag::from_str("fn")]);
    state.press_key(KeyId::new(10));
    assert_eq!(state.running_at(2).macro_id(), MacroId::new(2));
    assert_eq!(state.get_external_tags().len(), 1);
}

#[test]
fn released_macro_ends_and_is_removed() {
    let mut state = KeyboardState::from(profile(
        vec![plain_key(10, 0)],
        vec![],
        vec![timed_macro(1, None, &[])],
    ));
    state.press_key(KeyId::new(10));
    state.tick(ms(100), &mut vec![]);
    assert_eq!(state.running_at(0).current_sequence(), CurrentSequence::Loop);
    state.release_key(KeyId::new(10));
    state.tick(ms(200), &mut vec![]);
    assert_eq!(state.running_at(0).current_sequence(), CurrentSequence::End);
    state.tick(ms(299), &mut vec![]);
    assert_eq!(state.running_len(), 1);
    state.tick(ms(1), &mut vec![]);
    assert_eq!(state.running_len(), 0);
}

#[test]
fn layer_events_set_internal_tags() {
    let setter = Macro {
        id: MacroId::new(1),
        name: "set".to_string(),
        play_channel: None,
        cut_channels: vec![],
        start_sequence: Sequence {
            actions: vec![Action {
                predelay_ms: 0,
                action_event: ActionEvent::Layer(LayerEvent::Add(LayerTag::from_str("fn"))),
            }],
        },
        loop_sequence: seq(&[200]),
        end_sequence: seq(&[]),
    };
    let mut state = KeyboardState::from(profile(
        vec![plain_key(10, 0), tag_key(11, 2, 1)],
        vec![],
        vec![setter, timed_macro(2, None, &[]), timed_macro(3, None, &[])],
    ));
    state.press_key(KeyId::new(10));
    let mut events = vec![];
    state.tick(ms(10), &mut events);
    assert_eq!(events.len(), 1);
    assert!(matches!(events[0], ActionEvent::Layer(LayerEvent::Add(_))));
    state.press_key(KeyId::new(11));
    assert_eq!(state.running_at(1).macro_id(), MacroId::new(3));
}

#[test]
fn missing_macro_slot_starts_nothing() {
    let mut state = KeyboardState::from(profile(
        vec![plain_key(10, 5)],
        vec![],
        vec![timed_macro(1, None, &[])],
    ));
    state.press_key(KeyId::new(10));
    assert_eq!(state.running_len(), 0);
    state.press_key(KeyId::new(99));
    assert_eq!(state.running_len(), 0);
}

#[test]
fn virtual_keys_follow_the_bits_most_significant_first() {
    let vk = VirtualKey {
        layers: DeviceLayers {
            layers: vec![],
            default_layer: DeviceKeyLayer { id: LayerId::new(1), macros: vec![MacroIndex::new(0)] },
        },
    };
    let mut state = KeyboardState::from(profile(vec![], vec![vk], vec![timed_macro(1, None, &[])]));
    state.set_virtual_key_state(&[0x01]);
    assert_eq!(state.running_len(), 0);
    state.set_virtual_key_state(&[0x80]);
    assert_eq!(state.running_len(), 1);
    assert_eq!(state.running_at(0).source().key, MacroSourceKey::VirtualKey(0));
    state.set_virtual_key_state(&[0x80]);
    assert_eq!(state.running_len(), 1);
    state.set_virtual_key_state(&[0x00]);
    assert_eq!(state.running_at(0).trigger(), TriggerState::Stopping);
    state.set_virtual_key_state(&[]);
    assert_eq!(state.running_len(), 1);
}

#[test]
fn bitset_index_reverses_bits_within_a_byte() {
    assert_eq!(to_bitset_index(0, 8), Some(7));
    assert_eq!(to_bitset_index(7, 8), Some(0));
    assert_eq!(to_bitset_index(9, 16), Some(14));
    assert_eq!(to_bitset_index(8, 8), None);
}

#[test]
fn zero_length_tick_plays_nothing() {
    let mut state = KeyboardState::from(profile(
        vec![plain_key(10, 0)],
        vec![],
        vec![timed_macro(1, None, &[])],
    ));
    state.press_key(KeyId::new(10));
    let mut events = vec![];
    state.tick(ms(0), &mut events);
    assert!(events.is_empty());
    assert_eq!(state.running_at(0).current_sequence(), CurrentSequence::Start);
}

#[test]
fn zero_length_loop_does_not_spin() {
    let m = Macro {
        id: MacroId::new(1),
        name: "z".to_string(),
        play_channel: None,
        cut_channels: vec![],
        start_sequence: seq(&[100]),
        loop_sequence: seq(&[0, 0]),
        end_sequence: seq(&[]),
    };
    let mut state = KeyboardState::from(profile(vec![plain_key(10, 0)], vec![], vec![m]));
    state.press_key(KeyId::new(10));
    let mut events = vec![];
    state.tick(ms(150), &mut events);
    assert_eq!(state.running_at(0).current_sequence(), CurrentSequence::Loop);
    assert_eq!(events.len(), 1);
}
