use cardboard_lib::decode::{load_profile, read_profile, ProfileError};
use cardboard_lib::profile::{
    ActionEvent, Channel, ConsumerControlEvent, KeyId, KeyboardEvent, KeyboardKey, LayerEvent,
    LayerId, MacroId, MacroIndex, MouseEvent, MouseMove, TagMatchType,
};
use uuid::Uuid;

fn uuid_bytes(v: u128) -> Vec<u8> {
    Uuid::from_u128(v).to_bytes_le().to_vec()
}

fn string(out: &mut Vec<u8>, s: &str) {
    out.push(s.len() as u8);
    out.extend_from_slice(s.as_bytes());
}

fn layer(out: &mut Vec<u8>, id: u128, slots: &[u16]) {
    out.extend(uuid_bytes(id));
    out.push(slots.len() as u8);
    for s in slots {
        out.extend_from_slice(&s.to_le_bytes());
    }
}

/// A profile with one physical key (a tagged layer and a default layer), one virtual key
/// and one macro whose start sequence has a key press, a mouse move, a media key and a
/// layer event.
fn sample_profile() -> Vec<u8> {
    let mut b = Vec::new();
    b.extend_from_slice(&1u32.to_le_bytes());
    string(&mut b, "demo");
    // keys
    b.push(1);
    b.extend(uuid_bytes(0xAA));
    b.push(1); // tagged layers
    b.push(1); // tags
    string(&mut b, "fn");
    b.push(1); // any
    layer(&mut b, 0x22, &[0]);
    layer(&mut b, 0x11, &[0, 7]);
    // virtual keys
    b.push(1);
    b.push(0);
    layer(&mut b, 0x33, &[]);
    // macros
    b.extend_from_slice(&1u16.to_le_bytes());
    b.extend(uuid_bytes(0x55));
    string(&mut b, "m");
    b.push(1);
    b.push(3); // play channel 3
    b.push(2);
    b.push(3);
    b.push(4); // cuts 3 and 4
    b.push(4); // start: four actions
    b.extend_from_slice(&10u64.to_le_bytes());
    b.extend_from_slice(&[1, 1, 0x04]); // keyboard, down, A
    b.extend_from_slice(&20u64.to_le_bytes());
    b.push(2);
    b.push(3); // mouse move
    b.extend_from_slice(&(-5i32 as u32).to_le_bytes());
    b.extend_from_slice(&7u32.to_le_bytes());
    b.extend_from_slice(&0u64.to_le_bytes());
    b.extend_from_slice(&[3, 0xE2]); // mute
    b.extend_from_slice(&0u64.to_le_bytes());
    b.extend_from_slice(&[4, 0]); // layer, set
    string(&mut b, "fn");
    b.push(0); // loop: none
    b.push(1); // end: one action
    b.extend_from_slice(&5u64.to_le_bytes());
    b.push(0);
    b
}

#[test]
fn decodes_a_whole_profile() {
    let p = read_profile(&sample_profile()).unwrap();
    assert_eq!(p.name, "demo");
    assert_eq!(p.keys.len(), 1);
    let key = &p.keys[0];
    assert_eq!(key.id, KeyId::new(0xAA));
    assert_eq!(key.layers.layers.len(), 1);
    assert_eq!(key.layers.layers[0].tags[0].name(), "fn");
    assert_eq!(key.layers.layers[0].match_type, TagMatchType::Any);
    assert_eq!(key.layers.layers[0].layer.id, LayerId::new(0x22));
    assert_eq!(key.layers.default_layer.id, LayerId::new(0x11));
    assert_eq!(key.layers.default_layer.macros, vec![MacroIndex::new(0), MacroIndex::new(7)]);
    assert_eq!(p.virtual_keys.len(), 1);
    assert_eq!(p.virtual_keys[0].layers.default_layer.id, LayerId::new(0x33));
    assert_eq!(p.macros.len(), 1);
    let m = &p.macros[0];
    assert_eq!(m.id, MacroId::new(0x55));
    assert_eq!(m.name, "m");
    assert_eq!(m.play_channel, Some(Channel::new(3)));
    assert_eq!(m.cut_channels, vec![Channel::new(3), Channel::new(4)]);
    let start = &m.start_sequence.actions;
    assert_eq!(start.len(), 4);
    assert_eq!(start[0].predelay_ms, 10);
    assert!(matches!(start[0].action_event, ActionEvent::Keyboard(KeyboardEvent::KeyDown(KeyboardKey::A))));
    assert!(matches!(start[1].action_event, ActionEvent::Mouse(MouseEvent::Move(MouseMove { x: -5, y: 7 }))));
    assert!(matches!(start[2].action_event, ActionEvent::ConsumerControl(ConsumerControlEvent::MUTE)));
    match &start[3].action_event {
        ActionEvent::Layer(LayerEvent::Add(t)) => assert_eq!(t.name(), "fn"),
        _ => panic!("expected a layer event"),
    }
    assert!(m.loop_sequence.actions.is_empty());
    assert_eq!(m.end_sequence.actions[0].predelay_ms, 5);
}

#[test]
fn rejects_another_version() {
    let mut b = sample_profile();
    b[0] = 2;
    assert_eq!(read_profile(&b).err(), Some(ProfileError::UnsupportedVersion));
}

#[test]
fn rejects_truncated_profiles() {
    let b = sample_profile();
    for cut in [0usize, 3, 10, b.len() - 1] {
        assert_eq!(read_profile(&b[..cut]).err(), Some(ProfileError::Malformed), "cut at {}", cut);
    }
}

#[test]
fn rejects_unknown_key_codes() {
    let mut b = sample_profile();
    let at = b.windows(3).position(|w| w == [1, 1, 0x04]).unwrap();
    b[at + 2] = 0x66;
    assert_eq!(read_profile(&b).err(), Some(ProfileError::Malformed));
}

#[test]
fn rejects_more_than_thirty_two_virtual_keys() {
    let mut b = Vec::new();
    b.extend_from_slice(&1u32.to_le_bytes());
    string(&mut b, "");
    b.push(0);
    b.push(33);
    for _ in 0..33 {
        b.push(0);
        layer(&mut b, 1, &[]);
    }
    assert_eq!(read_profile(&b).err(), Some(ProfileError::TooManyVirtualKeys));
}

#[test]
fn loads_a_length_prefixed_profile() {
    let body = sample_profile();
    let mut stored = (body.len() as u16).to_le_bytes().to_vec();
    stored.extend_from_slice(&body);
    stored.extend_from_slice(&[0xFF; 8]);
    assert_eq!(load_profile(&stored).unwrap().name, "demo");
    stored[0] = stored[0].wrapping_add(100);
    assert_eq!(load_profile(&stored).err(), Some(ProfileError::Malformed));
}
