use cardboard_lib::device::{DeviceOptions, DeviceVariant, DeviceVersion};
use cardboard_lib::hid::{map_button, map_cc, ConsumerControl, Mouse, NKROKeyboard, Scroll};
use cardboard_lib::profile::{
    ConsumerControlEvent, KeyboardEvent, KeyboardKey, LayerTag, MouseButton, MouseEvent, MouseMove,
    MouseScroll,
};
use cardboard_lib::serial::{BufferedReader, SerialBuffer};
use cardboard_lib::storage::{erase_length, FlashPartition};
use cardboard_lib::time::Duration;

#[test]
fn nkro_sets_and_clears_key_bits() {
    let mut kb = NKROKeyboard::new();
    kb.input(&KeyboardEvent::KeyDown(KeyboardKey::A));
    kb.input(&KeyboardEvent::KeyDown(KeyboardKey::LEFT_SHIFT));
    let report = kb.create_report().unwrap();
    assert_eq!(report.len(), 17);
    assert_eq!(report[0], 0x02);
    assert_eq!(report[1], 0x10);
    kb.input(&KeyboardEvent::KeyUp(KeyboardKey::A));
    let report = kb.create_report().unwrap();
    assert_eq!(report[1], 0x00);
    assert_eq!(report[0], 0x02);
    kb.reset();
    assert_eq!(kb.create_report().unwrap(), vec![0u8; 17]);
}

#[test]
fn nkro_descriptor_starts_with_keyboard_usage() {
    let d = NKROKeyboard::report_descriptor();
    assert_eq!(d.len(), 57);
    assert_eq!(&d[..4], &[0x05, 0x01, 0x09, 0x06]);
    assert_eq!(Mouse::report_descriptor().len(), 74);
    assert_eq!(Scroll::report_descriptor().len(), 58);
    assert_eq!(ConsumerControl::report_descriptor().len(), 22);
}

#[test]
fn mouse_report_clamps_axes() {
    let mut m = Mouse::new();
    m.input(&MouseEvent::Move(MouseMove { x: 200, y: -300 }));
    m.input(&MouseEvent::ButtonDown(MouseButton::Right));
    m.input(&MouseEvent::Scroll(MouseScroll { x: -1, y: 5 }));
    assert_eq!(m.create_report().unwrap(), vec![0x02, 127, 0x80, 0xFF, 5]);
    m.input(&MouseEvent::ButtonUp(MouseButton::Right));
    assert_eq!(m.create_report().unwrap()[0], 0);
    m.reset();
    assert_eq!(m.create_report().unwrap(), vec![0, 0, 0, 0, 0]);
}

#[test]
fn mouse_movement_saturates() {
    let mut m = Mouse::new();
    m.input(&MouseEvent::Move(MouseMove { x: i32::MAX, y: i32::MIN }));
    m.input(&MouseEvent::Move(MouseMove { x: i32::MAX, y: i32::MIN }));
    assert_eq!(m.create_report().unwrap(), vec![0, 127, 0x80, 0, 0]);
}

#[test]
fn scroll_ignores_moves() {
    let mut s = Scroll::new();
    s.input(&MouseEvent::Move(MouseMove { x: 5, y: 5 }));
    s.input(&MouseEvent::ButtonDown(MouseButton::Forward));
    s.input(&MouseEvent::Scroll(MouseScroll { x: 2, y: -2 }));
    assert_eq!(s.create_report().unwrap(), vec![0x10, 2, 0xFE]);
}

#[test]
fn button_and_usage_codes() {
    assert_eq!(map_button(&MouseButton::Left), 1);
    assert_eq!(map_button(&MouseButton::Back), 8);
    assert_eq!(map_cc(&ConsumerControlEvent::MUTE), 0xE2);
    assert_eq!(map_cc(&ConsumerControlEvent::VOLUME_INCREMENT), 0xE9);
}

#[test]
fn consumer_report_is_sent_once() {
    let mut cc = ConsumerControl::new();
    assert_eq!(cc.create_report(), None);
    cc.input(&ConsumerControlEvent::MUTE);
    let report = cc.create_report().unwrap();
    assert_eq!(report.len(), 32);
    assert_eq!(report[28], 0x04);
    assert_eq!(cc.create_report(), None);
}

#[test]
fn keyboard_key_codes_round_trip() {
    assert_eq!(KeyboardKey::A.code(), 0x04);
    assert_eq!(KeyboardKey::RIGHT_GUI.code(), 0xE7);
    assert!(matches!(KeyboardKey::from_code(0x04), Some(KeyboardKey::A)));
    assert!(KeyboardKey::from_code(0x66).is_none());
}

#[test]
fn layer_tags_are_cut_on_a_char_boundary() {
    let long = "a".repeat(40);
    assert_eq!(LayerTag::from_str(&long).name().len(), 32);
    let wide = format!("a{}", "é".repeat(20));
    let tag = LayerTag::from_str(&wide);
    assert_eq!(tag.name(), format!("a{}", "é".repeat(15)));
    assert_eq!(LayerTag::from_str("fn").name(), "fn");
    assert!(LayerTag::from_str("fn") == LayerTag::from_str("fn"));
    assert!(LayerTag::from_str("fn") != LayerTag::from_str("fx"));
}

#[test]
fn erase_length_rounds_up_to_blocks() {
    assert_eq!(erase_length(10, 4), Some(12));
    assert_eq!(erase_length(8, 4), Some(8));
    assert_eq!(erase_length(0, 4), Some(0));
    assert_eq!(erase_length(usize::MAX, 2), None);
    let p = FlashPartition::new(100, 50);
    assert_eq!(p.address(5), Some(105));
    assert_eq!(FlashPartition::new(usize::MAX, 1).address(1), None);
}

#[test]
fn serial_buffer_reads_across_calls() {
    let mut buf = SerialBuffer::new(4);
    buf.load(&[1, 2, 3, 4]);
    let mut out = vec![0u8; 3];
    assert_eq!(buf.read_up_to(&mut out), 3);
    assert_eq!(out, vec![1, 2, 3]);
    let mut out = vec![9u8; 2];
    assert_eq!(buf.read_up_to(&mut out), 1);
    assert_eq!(out, vec![4, 9]);
    assert_eq!(buf.read_up_to(&mut out), 0);
    buf.load(&[7]);
    buf.drop();
    assert_eq!(buf.len(), 0);
    let reader = BufferedReader::new(8);
    assert_eq!(reader.buffer.len(), 0);
}

#[test]
fn device_values_and_durations() {
    assert_eq!(DeviceVersion::new(3).0, 3);
    assert_eq!(DeviceVariant::new(7).0, 7);
    let options = DeviceOptions::default();
    assert_eq!(options.name, "Cardboard Device");
    assert!(!options.mouse_enabled);
    assert_eq!(Duration::from_millis(5).micros, 5000);
    assert_eq!(Duration::from_micros(2999).to_millis(), 2);
    let empty = cardboard_lib::profile::KeyboardProfile::default();
    assert!(empty.keys.is_empty() && empty.macros.is_empty() && empty.name.is_empty());
    let action = cardboard_lib::input::KeyboardAction::default();
    assert_eq!(action.action, cardboard_lib::input::KeyState::Released);
    assert_eq!(action.key_id, cardboard_lib::profile::KeyId::new(0));
}
