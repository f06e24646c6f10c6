//! Decoding of a keyboard profile from its binary layout: little-endian integers, strings and
//! lists prefixed with their length, tagged variants prefixed with a byte.
use vstd::prelude::*;
use vstd::bytes::{
    spec_u128_from_le_bytes, spec_u16_from_le_bytes, spec_u32_from_le_bytes,
    spec_u64_from_le_bytes, u16_from_le_bytes, u32_from_le_bytes, u64_from_le_bytes,
};
use vstd::slice::slice_subrange;
use vstd::utf8::{decode_utf8, encode_utf8, valid_utf8};
use crate::profile::{
    Action, ActionEvent, Channel, ConsumerControlEvent, DebugEvent, DeviceKey, DeviceKeyLayer,
    DeviceLayers, KeyId, KeyboardEvent, KeyboardKey, KeyboardProfile, LayerEvent, LayerId,
    LayerTag, Macro, MacroId, MacroIndex, MouseButton, MouseEvent, MouseMove, MouseScroll,
    Sequence, TagMatchType, TaggedDeviceKeyLayer, VirtualKey, tag_cut,
};

verus! {

/// The only profile layout version this decoder reads.
pub const PROFILE_VERSION: u32 = 1;

/// The most virtual keys a profile may have.
pub const MAX_VIRTUAL_KEYS: usize = 32;

/// Why a profile could not be decoded.
#[derive(Debug, Clone, Copy, PartialEq, Eq, Structural)]
pub enum ProfileError {
    /// The bytes end early, or hold a value that no field can take.
    Malformed,
    /// The layout version is not `PROFILE_VERSION`.
    UnsupportedVersion,
    /// More than `MAX_VIRTUAL_KEYS` virtual keys.
    TooManyVirtualKeys,
}

// ------- models of decoded values -------

/// What an event holds: a keyboard event by key code, text as chars.
pub enum EventModel {
    Nothing,
    Keyboard(bool, u8),
    Mouse(MouseEvent),
    Consumer(ConsumerControlEvent),
    Clear(Seq<char>),
    Add(Seq<char>),
    Log(Seq<char>),
}

pub open spec fn event_model(e: ActionEvent) -> EventModel {
    match e {
        ActionEvent::Nothing => EventModel::Nothing,
        ActionEvent::Keyboard(KeyboardEvent::KeyDown(k)) => EventModel::Keyboard(true, k.spec_code()),
        ActionEvent::Keyboard(KeyboardEvent::KeyUp(k)) => EventModel::Keyboard(false, k.spec_code()),
        ActionEvent::Mouse(m) => EventModel::Mouse(m),
        ActionEvent::ConsumerControl(c) => EventModel::Consumer(c),
        ActionEvent::Layer(LayerEvent::Clear(t)) => EventModel::Clear(t@),
        ActionEvent::Layer(LayerEvent::Add(t)) => EventModel::Add(t@),
        ActionEvent::DebugAction(DebugEvent::Log(s)) => EventModel::Log(s@),
    }
}

pub open spec fn action_model(a: Action) -> (u64, EventModel) {
    (a.predelay_ms, event_model(a.action_event))
}

pub open spec fn tag_model(t: LayerTag) -> Seq<char> {
    t@
}

pub open spec fn index_model(m: MacroIndex) -> MacroIndex {
    m
}

pub open spec fn channel_model(c: Channel) -> Channel {
    c
}

pub open spec fn actions_model(s: Seq<Action>) -> Seq<(u64, EventModel)> {
    s.map_values(|x: Action| action_model(x))
}

/// What a macro holds.
pub struct MacroModel {
    pub id: MacroId,
    pub name: Seq<char>,
    pub play_channel: Option<Channel>,
    pub cut_channels: Seq<Channel>,
    pub start: Seq<(u64, EventModel)>,
    pub looped: Seq<(u64, EventModel)>,
    pub end: Seq<(u64, EventModel)>,
}

pub open spec fn macro_model(m: Macro) -> MacroModel {
    MacroModel {
        id: m.id,
        name: m.name@,
        play_channel: m.play_channel,
        cut_channels: m.cut_channels@,
        start: actions_model(m.start_sequence.actions@),
        looped: actions_model(m.loop_sequence.actions@),
        end: actions_model(m.end_sequence.actions@),
    }
}

pub open spec fn layer_model(l: DeviceKeyLayer) -> (LayerId, Seq<MacroIndex>) {
    (l.id, l.macros@)
}

pub open spec fn tagged_model(t: TaggedDeviceKeyLayer) -> (
    Seq<Seq<char>>,
    TagMatchType,
    (LayerId, Seq<MacroIndex>),
) {
    (t.tags@.map_values(|x: LayerTag| tag_model(x)), t.match_type, layer_model(t.layer))
}

pub open spec fn layers_model(d: DeviceLayers) -> (
    Seq<(Seq<Seq<char>>, TagMatchType, (LayerId, Seq<MacroIndex>))>,
    (LayerId, Seq<MacroIndex>),
) {
    (d.layers@.map_values(|x: TaggedDeviceKeyLayer| tagged_model(x)), layer_model(d.default_layer))
}

pub open spec fn key_model(k: DeviceKey) -> (
    KeyId,
    (
        Seq<(Seq<Seq<char>>, TagMatchType, (LayerId, Seq<MacroIndex>))>,
        (LayerId, Seq<MacroIndex>),
    ),
) {
    (k.id, layers_model(k.layers))
}

pub open spec fn vkey_model(k: VirtualKey) -> (
    Seq<(Seq<Seq<char>>, TagMatchType, (LayerId, Seq<MacroIndex>))>,
    (LayerId, Seq<MacroIndex>),
) {
    layers_model(k.layers)
}

/// What a profile holds.
pub struct ProfileModel {
    pub name: Seq<char>,
    pub keys: Seq<
        (
            KeyId,
            (
                Seq<(Seq<Seq<char>>, TagMatchType, (LayerId, Seq<MacroIndex>))>,
                (LayerId, Seq<MacroIndex>),
            ),
        ),
    >,
    pub virtual_keys: Seq<
        (
            Seq<(Seq<Seq<char>>, TagMatchType, (LayerId, Seq<MacroIndex>))>,
            (LayerId, Seq<MacroIndex>),
        ),
    >,
    pub macros: Seq<MacroModel>,
}

pub open spec fn profile_model(p: KeyboardProfile) -> ProfileModel {
    ProfileModel {
        name: p.name@,
        keys: p.keys@.map_values(|x: DeviceKey| key_model(x)),
        virtual_keys: p.virtual_keys@.map_values(|x: VirtualKey| vkey_model(x)),
        macros: p.macros@.map_values(|x: Macro| macro_model(x)),
    }
}

// ------- the layout, as spec parsers: the value read at `i`, and where the next one starts -------

pub open spec fn p_u8(b: Seq<u8>, i: int) -> Option<(u8, int)> {
    if 0 <= i < b.len() {
        Some((b[i], i + 1))
    } else {
        None
    }
}

pub open spec fn p_fixed(b: Seq<u8>, i: int, n: int) -> Option<(Seq<u8>, int)> {
    if 0 <= i && i + n <= b.len() {
        Some((b.subrange(i, i + n), i + n))
    } else {
        None
    }
}

pub open spec fn p_u16(b: Seq<u8>, i: int) -> Option<(u16, int)> {
    match p_fixed(b, i, 2) {
        Some((s, j)) => Some((spec_u16_from_le_bytes(s), j)),
        None => None,
    }
}

pub open spec fn p_u32(b: Seq<u8>, i: int) -> Option<(u32, int)> {
    match p_fixed(b, i, 4) {
        Some((s, j)) => Some((spec_u32_from_le_bytes(s), j)),
        None => None,
    }
}

pub open spec fn p_u64(b: Seq<u8>, i: int) -> Option<(u64, int)> {
    match p_fixed(b, i, 8) {
        Some((s, j)) => Some((spec_u64_from_le_bytes(s), j)),
        None => None,
    }
}

pub open spec fn p_bool(b: Seq<u8>, i: int) -> Option<(bool, int)> {
    match p_u8(b, i) {
        Some((v, j)) => Some((v != 0, j)),
        None => None,
    }
}

/// The 128-bit value of a UUID stored with its first three fields little-endian: the fields
/// are put back in order, and the 16 bytes read as a big-endian number.
pub open spec fn uuid_value(s: Seq<u8>) -> u128 {
    spec_u128_from_le_bytes(
        seq![
            s[15], s[14], s[13], s[12], s[11], s[10], s[9], s[8],
            s[6], s[7], s[4], s[5], s[0], s[1], s[2], s[3],
        ],
    )
}

pub open spec fn p_uuid(b: Seq<u8>, i: int) -> Option<(u128, int)> {
    match p_fixed(b, i, 16) {
        Some((s, j)) => Some((uuid_value(s), j)),
        None => None,
    }
}

/// The bytes of a string: a length byte, then that many bytes of UTF-8.
pub open spec fn p_text(b: Seq<u8>, i: int) -> Option<(Seq<u8>, int)> {
    match p_u8(b, i) {
        Some((n, j)) => match p_fixed(b, j, n as int) {
            Some((s, k)) => if valid_utf8(s) {
                Some((s, k))
            } else {
                None
            },
            None => None,
        },
        None => None,
    }
}

pub open spec fn p_string(b: Seq<u8>, i: int) -> Option<(Seq<char>, int)> {
    match p_text(b, i) {
        Some((s, k)) => Some((decode_utf8(s), k)),
        None => None,
    }
}

/// A tag: a string, cut as `LayerTag::from_str` cuts it.
pub open spec fn p_tag(b: Seq<u8>, i: int) -> Option<(Seq<char>, int)> {
    match p_text(b, i) {
        Some((s, k)) => Some((decode_utf8(s.subrange(0, tag_cut(s))), k)),
        None => None,
    }
}

pub open spec fn key_code_exists(c: u8) -> bool {
    exists|k: KeyboardKey| k.spec_code() == c
}

/// A keyboard event: a byte that says down (non-zero) or up, then a key code.
pub open spec fn p_keyboard(b: Seq<u8>, i: int) -> Option<((bool, u8), int)> {
    match p_bool(b, i) {
        Some((down, j)) => match p_u8(b, j) {
            Some((c, k)) => if key_code_exists(c) {
                Some(((down, c), k))
            } else {
                None
            },
            None => None,
        },
        None => None,
    }
}

pub open spec fn button_of(c: u8) -> Option<MouseButton> {
    match c {
        0 => Some(MouseButton::Left),
        1 => Some(MouseButton::Right),
        2 => Some(MouseButton::Middle),
        3 => Some(MouseButton::Back),
        4 => Some(MouseButton::Forward),
        _ => None,
    }
}

pub open spec fn p_button(b: Seq<u8>, i: int) -> Option<(MouseButton, int)> {
    match p_u8(b, i) {
        Some((c, j)) => match button_of(c) {
            Some(m) => Some((m, j)),
            None => None,
        },
        None => None,
    }
}

/// A mouse event: a byte for the kind (button down, button up, scroll, move), then its fields;
/// scroll amounts are two 16-bit values, moves two 32-bit values.
pub open spec fn p_mouse(b: Seq<u8>, i: int) -> Option<(MouseEvent, int)> {
    match p_u8(b, i) {
        Some((d, j)) => if d == 0 || d == 1 {
            match p_button(b, j) {
                Some((m, k)) => Some((if d == 0 { MouseEvent::ButtonDown(m) } else { MouseEvent::ButtonUp(m) }, k)),
                None => None,
            }
        } else if d == 2 {
            match p_u16(b, j) {
                Some((x, k)) => match p_u16(b, k) {
                    Some((y, l)) => Some((MouseEvent::Scroll(MouseScroll { x: x as i32, y: y as i32 }), l)),
                    None => None,
                },
                None => None,
            }
        } else if d == 3 {
            match p_u32(b, j) {
                Some((x, k)) => match p_u32(b, k) {
                    Some((y, l)) => Some((MouseEvent::Move(MouseMove { x: #[verifier::truncate] (x as i32), y: #[verifier::truncate] (y as i32) }), l)),
                    None => None,
                },
                None => None,
            }
        } else {
            None
        },
        None => None,
    }
}

pub open spec fn cc_of(c: u8) -> Option<ConsumerControlEvent> {
    match c {
        0xB2 => Some(ConsumerControlEvent::RECORD),
        0xB3 => Some(ConsumerControlEvent::FAST_FORWARD),
        0xB4 => Some(ConsumerControlEvent::REWIND),
        0xB5 => Some(ConsumerControlEvent::SCAN_NEXT_TRACK),
        0xB6 => Some(ConsumerControlEvent::SCAN_PREVIOUS_TRACK),
        0xB7 => Some(ConsumerControlEvent::STOP),
        0xB8 => Some(ConsumerControlEvent::EJECT),
        0xCD => Some(ConsumerControlEvent::PLAY_PAUSE),
        0xE2 => Some(ConsumerControlEvent::MUTE),
        0xEA => Some(ConsumerControlEvent::VOLUME_DECREMENT),
        0xE9 => Some(ConsumerControlEvent::VOLUME_INCREMENT),
        _ => None,
    }
}

pub open spec fn p_cc(b: Seq<u8>, i: int) -> Option<(ConsumerControlEvent, int)> {
    match p_u8(b, i) {
        Some((c, j)) => match cc_of(c) {
            Some(e) => Some((e, j)),
            None => None,
        },
        None => None,
    }
}

/// An event: a byte for the kind (none, keyboard, mouse, consumer, layer, log), then its
/// fields. A layer event is a byte that says clear (non-zero) or set, then a tag.
pub open spec fn p_event(b: Seq<u8>, i: int) -> Option<(EventModel, int)> {
    match p_u8(b, i) {
        Some((d, j)) => if d == 0 {
            Some((EventModel::Nothing, j))
        } else if d == 1 {
            match p_keyboard(b, j) {
                Some(((down, c), k)) => Some((EventModel::Keyboard(down, c), k)),
                None => None,
            }
        } else if d == 2 {
            match p_mouse(b, j) {
                Some((m, k)) => Some((EventModel::Mouse(m), k)),
                None => None,
            }
        } else if d == 3 {
            match p_cc(b, j) {
                Some((c, k)) => Some((EventModel::Consumer(c), k)),
                None => None,
            }
        } else if d == 4 {
            match p_bool(b, j) {
                Some((clear, k)) => match p_tag(b, k) {
                    Some((t, l)) => Some((if clear { EventModel::Clear(t) } else { EventModel::Add(t) }, l)),
                    None => None,
                },
                None => None,
            }
        } else if d == 5 {
            match p_string(b, j) {
                Some((s, k)) => Some((EventModel::Log(s), k)),
                None => None,
            }
        } else {
            None
        },
        None => None,
    }
}

/// An action: its predelay as a 64-bit value, then its event.
pub open spec fn p_action(b: Seq<u8>, i: int) -> Option<((u64, EventModel), int)> {
    match p_u64(b, i) {
        Some((d, j)) => match p_event(b, j) {
            Some((e, k)) => Some(((d, e), k)),
            None => None,
        },
        None => None,
    }
}

// ------- readers: each reads what its spec parser reads -------

/// Relies on uuid's `Uuid::from_slice_le` and `Uuid::as_u128`: sixteen bytes are a UUID whose
/// first three fields are little-endian, and `as_u128` reads the UUID's bytes big-endian.
#[verifier::external_body]
fn uuid_from_le_slice(s: &[u8]) -> (r: u128)
    requires
        s@.len() == 16,
    ensures
        r == uuid_value(s@),
{
    uuid::Uuid::from_slice_le(s).unwrap().as_u128()
}

/// Relies on `String::from_utf8`: it succeeds exactly when the bytes are UTF-8, and the string
/// then holds those bytes.
#[verifier::external_body]
fn string_from_utf8(v: Vec<u8>) -> (r: Option<String>)
    ensures
        match r {
            Some(s) => valid_utf8(v@) && encode_utf8(s@) == v@,
            None => !valid_utf8(v@),
        },
{
    String::from_utf8(v).ok()
}

fn read_u8(b: &[u8], i: usize) -> (r: Option<(u8, usize)>)
    ensures
        match p_u8(b@, i as int) {
            Some((m, k)) => r matches Some((v, e)) && v == m && e == k,
            None => r is None,
        },
{
    if i < b.len() {
        Some((b[i], i + 1))
    } else {
        None
    }
}

fn read_fixed(b: &[u8], i: usize, n: usize) -> (r: Option<(&[u8], usize)>)
    ensures
        match p_fixed(b@, i as int, n as int) {
            Some((s, j)) => r matches Some((v, k)) && v@ == s && k == j,
            None => r is None,
        },
{
    if i <= b.len() && n <= b.len() - i {
        Some((slice_subrange(b, i, i + n), i + n))
    } else {
        None
    }
}

fn read_u16(b: &[u8], i: usize) -> (r: Option<(u16, usize)>)
    ensures
        match p_u16(b@, i as int) {
            Some((m, k)) => r matches Some((v, e)) && v == m && e == k,
            None => r is None,
        },
{
    match read_fixed(b, i, 2) {
        Some((s, j)) => Some((u16_from_le_bytes(s), j)),
        None => None,
    }
}

fn read_u32(b: &[u8], i: usize) -> (r: Option<(u32, usize)>)
    ensures
        match p_u32(b@, i as int) {
            Some((m, k)) => r matches Some((v, e)) && v == m && e == k,
            None => r is None,
        },
{
    match read_fixed(b, i, 4) {
        Some((s, j)) => Some((u32_from_le_bytes(s), j)),
        None => None,
    }
}

fn read_u64(b: &[u8], i: usize) -> (r: Option<(u64, usize)>)
    ensures
        match p_u64(b@, i as int) {
            Some((m, k)) => r matches Some((v, e)) && v == m && e == k,
            None => r is None,
        },
{
    match read_fixed(b, i, 8) {
        Some((s, j)) => Some((u64_from_le_bytes(s), j)),
        None => None,
    }
}

fn read_bool(b: &[u8], i: usize) -> (r: Option<(bool, usize)>)
    ensures
        match p_bool(b@, i as int) {
            Some((m, k)) => r matches Some((v, e)) && v == m && e == k,
            None => r is None,
        },
{
    match read_u8(b, i) {
        Some((v, j)) => Some((v != 0, j)),
        None => None,
    }
}

fn read_uuid(b: &[u8], i: usize) -> (r: Option<(u128, usize)>)
    ensures
        match p_uuid(b@, i as int) {
            Some((m, k)) => r matches Some((v, e)) && v == m && e == k,
            None => r is None,
        },
{
    match read_fixed(b, i, 16) {
        Some((s, j)) => Some((uuid_from_le_slice(s), j)),
        None => None,
    }
}

fn read_text(b: &[u8], i: usize) -> (r: Option<(String, usize)>)
    ensures
        match p_text(b@, i as int) {
            Some((s, k)) => r matches Some((v, e)) && encode_utf8(v@) == s && e == k,
            None => r is None,
        },
{
    let (n, j) = match read_u8(b, i) {
        Some(x) => x,
        None => return None,
    };
    let (s, k) = match read_fixed(b, j, n as usize) {
        Some(x) => x,
        None => return None,
    };
    match string_from_utf8(vstd::slice::slice_to_vec(s)) {
        Some(v) => Some((v, k)),
        None => None,
    }
}

fn read_string(b: &[u8], i: usize) -> (r: Option<(String, usize)>)
    ensures
        match p_string(b@, i as int) {
            Some((s, k)) => r matches Some((v, e)) && v@ == s && e == k,
            None => r is None,
        },
{
    match read_text(b, i) {
        Some((v, e)) => {
            proof {
                vstd::utf8::encode_utf8_decode_utf8(v@);
            }
            Some((v, e))
        },
        None => None,
    }
}

fn read_tag(b: &[u8], i: usize) -> (r: Option<(LayerTag, usize)>)
    ensures
        match p_tag(b@, i as int) {
            Some((s, k)) => r matches Some((v, e)) && v@ == s && e == k,
            None => r is None,
        },
{
    match read_text(b, i) {
        Some((v, e)) => {
            let t = LayerTag::from_str(v.as_str());
            proof {
                vstd::utf8::encode_utf8_decode_utf8(t@);
            }
            Some((t, e))
        },
        None => None,
    }
}

fn read_keyboard(b: &[u8], i: usize) -> (r: Option<(KeyboardEvent, usize)>)
    ensures
        match p_keyboard(b@, i as int) {
            Some(((down, c), k)) => r matches Some((v, e)) && event_model(ActionEvent::Keyboard(v))
                == EventModel::Keyboard(down, c) && e == k,
            None => r is None,
        },
{
    let (down, j) = match read_bool(b, i) {
        Some(x) => x,
        None => return None,
    };
    let (c, k) = match read_u8(b, j) {
        Some(x) => x,
        None => return None,
    };
    match KeyboardKey::from_code(c) {
        Some(key) => {
            let e = if down {
                KeyboardEvent::KeyDown(key)
            } else {
                KeyboardEvent::KeyUp(key)
            };
            Some((e, k))
        },
        None => None,
    }
}

fn read_button(b: &[u8], i: usize) -> (r: Option<(MouseButton, usize)>)
    ensures
        match p_button(b@, i as int) {
            Some((m, k)) => r matches Some((v, e)) && v == m && e == k,
            None => r is None,
        },
{
    let (c, j) = match read_u8(b, i) {
        Some(x) => x,
        None => return None,
    };
    let m = match c {
        0 => MouseButton::Left,
        1 => MouseButton::Right,
        2 => MouseButton::Middle,
        3 => MouseButton::Back,
        4 => MouseButton::Forward,
        _ => return None,
    };
    Some((m, j))
}

fn read_mouse(b: &[u8], i: usize) -> (r: Option<(MouseEvent, usize)>)
    ensures
        match p_mouse(b@, i as int) {
            Some((m, k)) => r matches Some((v, e)) && v == m && e == k,
            None => r is None,
        },
{
    let (d, j) = match read_u8(b, i) {
        Some(x) => x,
        None => return None,
    };
    if d == 0 || d == 1 {
        match read_button(b, j) {
            Some((m, k)) => Some((
                if d == 0 {
                    MouseEvent::ButtonDown(m)
                } else {
                    MouseEvent::ButtonUp(m)
                },
                k,
            )),
            None => None,
        }
    } else if d == 2 {
        let (x, k) = match read_u16(b, j) {
            Some(v) => v,
            None => return None,
        };
        let (y, l) = match read_u16(b, k) {
            Some(v) => v,
            None => return None,
        };
        Some((MouseEvent::Scroll(MouseScroll { x: x as i32, y: y as i32 }), l))
    } else if d == 3 {
        let (x, k) = match read_u32(b, j) {
            Some(v) => v,
            None => return None,
        };
        let (y, l) = match read_u32(b, k) {
            Some(v) => v,
            None => return None,
        };
        Some((MouseEvent::Move(MouseMove { x: #[verifier::truncate] (x as i32), y: #[verifier::truncate] (y as i32) }), l))
    } else {
        None
    }
}

fn read_cc(b: &[u8], i: usize) -> (r: Option<(ConsumerControlEvent, usize)>)
    ensures
        match p_cc(b@, i as int) {
            Some((m, k)) => r matches Some((v, e)) && v == m && e == k,
            None => r is None,
        },
{
    let (c, j) = match read_u8(b, i) {
        Some(x) => x,
        None => return None,
    };
    let e = match c {
        0xB2 => ConsumerControlEvent::RECORD,
        0xB3 => ConsumerControlEvent::FAST_FORWARD,
        0xB4 => ConsumerControlEvent::REWIND,
        0xB5 => ConsumerControlEvent::SCAN_NEXT_TRACK,
        0xB6 => ConsumerControlEvent::SCAN_PREVIOUS_TRACK,
        0xB7 => ConsumerControlEvent::STOP,
        0xB8 => ConsumerControlEvent::EJECT,
        0xCD => ConsumerControlEvent::PLAY_PAUSE,
        0xE2 => ConsumerControlEvent::MUTE,
        0xEA => ConsumerControlEvent::VOLUME_DECREMENT,
        0xE9 => ConsumerControlEvent::VOLUME_INCREMENT,
        _ => return None,
    };
    Some((e, j))
}

fn read_event(b: &[u8], i: usize) -> (r: Option<(ActionEvent, usize)>)
    ensures
        match p_event(b@, i as int) {
            Some((m, k)) => r matches Some((v, e)) && event_model(v) == m && e == k,
            None => r is None,
        },
{
    let (d, j) = match read_u8(b, i) {
        Some(x) => x,
        None => return None,
    };
    if d == 0 {
        Some((ActionEvent::Nothing, j))
    } else if d == 1 {
        match read_keyboard(b, j) {
            Some((e, k)) => Some((ActionEvent::Keyboard(e), k)),
            None => None,
        }
    } else if d == 2 {
        match read_mouse(b, j) {
            Some((e, k)) => Some((ActionEvent::Mouse(e), k)),
            None => None,
        }
    } else if d == 3 {
        match read_cc(b, j) {
            Some((e, k)) => Some((ActionEvent::ConsumerControl(e), k)),
            None => None,
        }
    } else if d == 4 {
        let (clear, k) = match read_bool(b, j) {
            Some(x) => x,
            None => return None,
        };
        match read_tag(b, k) {
            Some((t, l)) => Some((
                ActionEvent::Layer(
                    if clear {
                        LayerEvent::Clear(t)
                    } else {
                        LayerEvent::Add(t)
                    },
                ),
                l,
            )),
            None => None,
        }
    } else if d == 5 {
        match read_string(b, j) {
            Some((s, k)) => Some((ActionEvent::DebugAction(DebugEvent::Log(s)), k)),
            None => None,
        }
    } else {
        None
    }
}

fn read_action(b: &[u8], i: usize) -> (r: Option<(Action, usize)>)
    ensures
        match p_action(b@, i as int) {
            Some((m, k)) => r matches Some((v, e)) && action_model(v) == m && e == k,
            None => r is None,
        },
{
    let (d, j) = match read_u64(b, i) {
        Some(x) => x,
        None => return None,
    };
    match read_event(b, j) {
        Some((e, k)) => Some((Action { predelay_ms: d, action_event: e }, k)),
        None => None,
    }
}

/// Actions: `n` of them, one after the other.
pub open spec fn p_actions(b: Seq<u8>, i: int, n: nat) -> Option<(Seq<(u64, EventModel)>, int)>
    decreases n,
{
    if n == 0 {
        Some((Seq::empty(), i))
    } else {
        match p_action(b, i) {
            Some((m, j)) => match p_actions(b, j, (n - 1) as nat) {
                Some((ms, k)) => Some((seq![m] + ms, k)),
                None => None,
            },
            None => None,
        }
    }
}

fn read_actions(b: &[u8], i: usize, n: usize) -> (r: Option<(Vec<Action>, usize)>)
    ensures
        match p_actions(b@, i as int, n as nat) {
            Some((ms, k)) => r matches Some((v, e)) && v@.map_values(|x: Action| action_model(x)) == ms && e == k,
            None => r is None,
        },
{
    let mut out: Vec<Action> = Vec::new();
    let mut pos: usize = i;
    let mut k: usize = 0;
    while k < n
        invariant
            k <= n,
            p_actions(b@, i as int, n as nat) == match p_actions(b@, pos as int, (n - k) as nat) {
                Some((ms, e)) => Some((out@.map_values(|x: Action| action_model(x)) + ms, e)),
                None => None,
            },
        decreases n - k,
    {
        match read_action(b, pos) {
            Some((v, j)) => {
                let ghost before = out@;
                out.push(v);
                proof {
                    assert(out@.map_values(|x: Action| action_model(x)) =~= before.map_values(|x: Action| action_model(x)).push(action_model(v)));
                    if let Some((ms, e)) = p_actions(b@, j as int, (n - k - 1) as nat) {
                        assert(before.map_values(|x: Action| action_model(x)) + (seq![action_model(v)] + ms) =~= out@.map_values(|x: Action| action_model(x)) + ms);
                    }
                }
                pos = j;
                k = k + 1;
            },
            None => {
                return None;
            },
        }
    }
    proof {
        assert(out@.map_values(|x: Action| action_model(x)) + Seq::<(u64, EventModel)>::empty() =~= out@.map_values(|x: Action| action_model(x)));
    }
    Some((out, pos))
}

/// A sequence: a count byte, then that many actions.
pub open spec fn p_sequence(b: Seq<u8>, i: int) -> Option<(Seq<(u64, EventModel)>, int)> {
    match p_u8(b, i) {
        Some((n, j)) => p_actions(b, j, n as nat),
        None => None,
    }
}

fn read_sequence(b: &[u8], i: usize) -> (r: Option<(Sequence, usize)>)
    ensures
        match p_sequence(b@, i as int) {
            Some((m, k)) => r matches Some((v, e)) && actions_model(v.actions@) == m && e == k,
            None => r is None,
        },
{
    let (n, j) = match read_u8(b, i) {
        Some(x) => x,
        None => return None,
    };
    match read_actions(b, j, n as usize) {
        Some((actions, k)) => Some((Sequence { actions }, k)),
        None => None,
    }
}

/// A macro slot: a 16-bit index.
pub open spec fn p_index(b: Seq<u8>, i: int) -> Option<(MacroIndex, int)> {
    match p_u16(b, i) {
        Some((v, j)) => Some((MacroIndex(v), j)),
        None => None,
    }
}

fn read_index(b: &[u8], i: usize) -> (r: Option<(MacroIndex, usize)>)
    ensures
        match p_index(b@, i as int) {
            Some((m, k)) => r matches Some((v, e)) && v == m && e == k,
            None => r is None,
        },
{
    match read_u16(b, i) {
        Some((v, j)) => Some((MacroIndex::new(v), j)),
        None => None,
    }
}

/// A channel: one byte.
pub open spec fn p_channel(b: Seq<u8>, i: int) -> Option<(Channel, int)> {
    match p_u8(b, i) {
        Some((v, j)) => Some((Channel(v), j)),
        None => None,
    }
}

fn read_channel(b: &[u8], i: usize) -> (r: Option<(Channel, usize)>)
    ensures
        match p_channel(b@, i as int) {
            Some((m, k)) => r matches Some((v, e)) && v == m && e == k,
            None => r is None,
        },
{
    match read_u8(b, i) {
        Some((v, j)) => Some((Channel::new(v), j)),
        None => None,
    }
}

/// How tags match: 0 for all, 1 for any.
pub open spec fn p_match(b: Seq<u8>, i: int) -> Option<(TagMatchType, int)> {
    match p_u8(b, i) {
        Some((v, j)) => if v == 0 {
            Some((TagMatchType::All, j))
        } else if v == 1 {
            Some((TagMatchType::Any, j))
        } else {
            None
        },
        None => None,
    }
}

fn read_match(b: &[u8], i: usize) -> (r: Option<(TagMatchType, usize)>)
    ensures
        match p_match(b@, i as int) {
            Some((m, k)) => r matches Some((v, e)) && v == m && e == k,
            None => r is None,
        },
{
    match read_u8(b, i) {
        Some((0, j)) => Some((TagMatchType::All, j)),
        Some((1, j)) => Some((TagMatchType::Any, j)),
        _ => None,
    }
}

/// Macro slots: `n` of them, one after the other.
pub open spec fn p_indices(b: Seq<u8>, i: int, n: nat) -> Option<(Seq<MacroIndex>, int)>
    decreases n,
{
    if n == 0 {
        Some((Seq::empty(), i))
    } else {
        match p_index(b, i) {
            Some((m, j)) => match p_indices(b, j, (n - 1) as nat) {
                Some((ms, k)) => Some((seq![m] + ms, k)),
                None => None,
            },
            None => None,
        }
    }
}

fn read_indices(b: &[u8], i: usize, n: usize) -> (r: Option<(Vec<MacroIndex>, usize)>)
    ensures
        match p_indices(b@, i as int, n as nat) {
            Some((ms, k)) => r matches Some((v, e)) && v@.map_values(|x: MacroIndex| index_model(x)) == ms && e == k,
            None => r is None,
        },
{
    let mut out: Vec<MacroIndex> = Vec::new();
    let mut pos: usize = i;
    let mut k: usize = 0;
    while k < n
        invariant
            k <= n,
            p_indices(b@, i as int, n as nat) == match p_indices(b@, pos as int, (n - k) as nat) {
                Some((ms, e)) => Some((out@.map_values(|x: MacroIndex| index_model(x)) + ms, e)),
                None => None,
            },
        decreases n - k,
    {
        match read_index(b, pos) {
            Some((v, j)) => {
                let ghost before = out@;
                out.push(v);
                proof {
                    assert(out@.map_values(|x: MacroIndex| index_model(x)) =~= before.map_values(|x: MacroIndex| index_model(x)).push(index_model(v)));
                    if let Some((ms, e)) = p_indices(b@, j as int, (n - k - 1) as nat) {
                        assert(before.map_values(|x: MacroIndex| index_model(x)) + (seq![index_model(v)] + ms) =~= out@.map_values(|x: MacroIndex| index_model(x)) + ms);
                    }
                }
                pos = j;
                k = k + 1;
            },
            None => {
                return None;
            },
        }
    }
    proof {
        assert(out@.map_values(|x: MacroIndex| index_model(x)) + Seq::<MacroIndex>::empty() =~= out@.map_values(|x: MacroIndex| index_model(x)));
    }
    Some((out, pos))
}

/// Channels: `n` of them, one after the other.
pub open spec fn p_channels(b: Seq<u8>, i: int, n: nat) -> Option<(Seq<Channel>, int)>
    decreases n,
{
    if n == 0 {
        Some((Seq::empty(), i))
    } else {
        match p_channel(b, i) {
            Some((m, j)) => match p_channels(b, j, (n - 1) as nat) {
                Some((ms, k)) => Some((seq![m] + ms, k)),
                None => None,
            },
            None => None,
        }
    }
}

fn read_channels(b: &[u8], i: usize, n: usize) -> (r: Option<(Vec<Channel>, usize)>)
    ensures
        match p_channels(b@, i as int, n as nat) {
            Some((ms, k)) => r matches Some((v, e)) && v@.map_values(|x: Channel| channel_model(x)) == ms && e == k,
            None => r is None,
        },
{
    let mut out: Vec<Channel> = Vec::new();
    let mut pos: usize = i;
    let mut k: usize = 0;
    while k < n
        invariant
            k <= n,
            p_channels(b@, i as int, n as nat) == match p_channels(b@, pos as int, (n - k) as nat) {
                Some((ms, e)) => Some((out@.map_values(|x: Channel| channel_model(x)) + ms, e)),
                None => None,
            },
        decreases n - k,
    {
        match read_channel(b, pos) {
            Some((v, j)) => {
                let ghost before = out@;
                out.push(v);
                proof {
                    assert(out@.map_values(|x: Channel| channel_model(x)) =~= before.map_values(|x: Channel| channel_model(x)).push(channel_model(v)));
                    if let Some((ms, e)) = p_channels(b@, j as int, (n - k - 1) as nat) {
                        assert(before.map_values(|x: Channel| channel_model(x)) + (seq![channel_model(v)] + ms) =~= out@.map_values(|x: Channel| channel_model(x)) + ms);
                    }
                }
                pos = j;
                k = k + 1;
            },
            None => {
                return None;
            },
        }
    }
    proof {
        assert(out@.map_values(|x: Channel| channel_model(x)) + Seq::<Channel>::empty() =~= out@.map_values(|x: Channel| channel_model(x)));
    }
    Some((out, pos))
}

/// Tags: `n` of them, one after the other.
pub open spec fn p_tags(b: Seq<u8>, i: int, n: nat) -> Option<(Seq<Seq<char>>, int)>
    decreases n,
{
    if n == 0 {
        Some((Seq::empty(), i))
    } else {
        match p_tag(b, i) {
            Some((m, j)) => match p_tags(b, j, (n - 1) as nat) {
                Some((ms, k)) => Some((seq![m] + ms, k)),
                None => None,
            },
            None => None,
        }
    }
}

fn read_tags(b: &[u8], i: usize, n: usize) -> (r: Option<(Vec<LayerTag>, usize)>)
    ensures
        match p_tags(b@, i as int, n as nat) {
            Some((ms, k)) => r matches Some((v, e)) && v@.map_values(|x: LayerTag| tag_model(x)) == ms && e == k,
            None => r is None,
        },
{
    let mut out: Vec<LayerTag> = Vec::new();
    let mut pos: usize = i;
    let mut k: usize = 0;
    while k < n
        invariant
            k <= n,
            p_tags(b@, i as int, n as nat) == match p_tags(b@, pos as int, (n - k) as nat) {
                Some((ms, e)) => Some((out@.map_values(|x: LayerTag| tag_model(x)) + ms, e)),
                None => None,
            },
        decreases n - k,
    {
        match read_tag(b, pos) {
            Some((v, j)) => {
                let ghost before = out@;
                out.push(v);
                proof {
                    assert(out@.map_values(|x: LayerTag| tag_model(x)) =~= before.map_values(|x: LayerTag| tag_model(x)).push(tag_model(v)));
                    if let Some((ms, e)) = p_tags(b@, j as int, (n - k - 1) as nat) {
                        assert(before.map_values(|x: LayerTag| tag_model(x)) + (seq![tag_model(v)] + ms) =~= out@.map_values(|x: LayerTag| tag_model(x)) + ms);
                    }
                }
                pos = j;
                k = k + 1;
            },
            None => {
                return None;
            },
        }
    }
    proof {
        assert(out@.map_values(|x: LayerTag| tag_model(x)) + Seq::<Seq<char>>::empty() =~= out@.map_values(|x: LayerTag| tag_model(x)));
    }
    Some((out, pos))
}

/// A layer: its identity, then a count byte and that many macro slots.
pub open spec fn p_layer(b: Seq<u8>, i: int) -> Option<((LayerId, Seq<MacroIndex>), int)> {
    match p_uuid(b, i) {
        Some((id, j)) => match p_u8(b, j) {
            Some((n, k)) => match p_indices(b, k, n as nat) {
                Some((ms, l)) => Some(((LayerId(id), ms), l)),
                None => None,
            },
            None => None,
        },
        None => None,
    }
}

fn read_layer(b: &[u8], i: usize) -> (r: Option<(DeviceKeyLayer, usize)>)
    ensures
        match p_layer(b@, i as int) {
            Some((m, k)) => r matches Some((v, e)) && layer_model(v) == m && e == k,
            None => r is None,
        },
{
    let (id, j) = match read_uuid(b, i) {
        Some(x) => x,
        None => return None,
    };
    let (n, k) = match read_u8(b, j) {
        Some(x) => x,
        None => return None,
    };
    match read_indices(b, k, n as usize) {
        Some((macros, l)) => {
            proof {
                assert(macros@.map_values(|x: MacroIndex| index_model(x)) =~= macros@);
            }
            Some((DeviceKeyLayer { id: LayerId::new(id), macros }, l))
        },
        None => None,
    }
}

/// A tagged layer: a count byte and that many tags, how they match, then the layer.
pub open spec fn p_tagged(b: Seq<u8>, i: int) -> Option<((Seq<Seq<char>>, TagMatchType, (LayerId, Seq<MacroIndex>)), int)> {
    match p_u8(b, i) {
        Some((n, j)) => match p_tags(b, j, n as nat) {
            Some((ts, k)) => match p_match(b, k) {
                Some((kind, l)) => match p_layer(b, l) {
                    Some((layer, o)) => Some(((ts, kind, layer), o)),
                    None => None,
                },
                None => None,
            },
            None => None,
        },
        None => None,
    }
}

fn read_tagged(b: &[u8], i: usize) -> (r: Option<(TaggedDeviceKeyLayer, usize)>)
    ensures
        match p_tagged(b@, i as int) {
            Some((m, k)) => r matches Some((v, e)) && tagged_model(v) == m && e == k,
            None => r is None,
        },
{
    let (n, j) = match read_u8(b, i) {
        Some(x) => x,
        None => return None,
    };
    let (tags, k) = match read_tags(b, j, n as usize) {
        Some(x) => x,
        None => return None,
    };
    let (match_type, l) = match read_match(b, k) {
        Some(x) => x,
        None => return None,
    };
    match read_layer(b, l) {
        Some((layer, o)) => Some((TaggedDeviceKeyLayer { tags, match_type, layer }, o)),
        None => None,
    }
}

/// Tagged layers: `n` of them, one after the other.
pub open spec fn p_tagged_list(b: Seq<u8>, i: int, n: nat) -> Option<(Seq<(Seq<Seq<char>>, TagMatchType, (LayerId, Seq<MacroIndex>))>, int)>
    decreases n,
{
    if n == 0 {
        Some((Seq::empty(), i))
    } else {
        match p_tagged(b, i) {
            Some((m, j)) => match p_tagged_list(b, j, (n - 1) as nat) {
                Some((ms, k)) => Some((seq![m] + ms, k)),
                None => None,
            },
            None => None,
        }
    }
}

fn read_tagged_list(b: &[u8], i: usize, n: usize) -> (r: Option<(Vec<TaggedDeviceKeyLayer>, usize)>)
    ensures
        match p_tagged_list(b@, i as int, n as nat) {
            Some((ms, k)) => r matches Some((v, e)) && v@.map_values(|x: TaggedDeviceKeyLayer| tagged_model(x)) == ms && e == k,
            None => r is None,
        },
{
    let mut out: Vec<TaggedDeviceKeyLayer> = Vec::new();
    let mut pos: usize = i;
    let mut k: usize = 0;
    while k < n
        invariant
            k <= n,
            p_tagged_list(b@, i as int, n as nat) == match p_tagged_list(b@, pos as int, (n - k) as nat) {
                Some((ms, e)) => Some((out@.map_values(|x: TaggedDeviceKeyLayer| tagged_model(x)) + ms, e)),
                None => None,
            },
        decreases n - k,
    {
        match read_tagged(b, pos) {
            Some((v, j)) => {
                let ghost before = out@;
                out.push(v);
                proof {
                    assert(out@.map_values(|x: TaggedDeviceKeyLayer| tagged_model(x)) =~= before.map_values(|x: TaggedDeviceKeyLayer| tagged_model(x)).push(tagged_model(v)));
                    if let Some((ms, e)) = p_tagged_list(b@, j as int, (n - k - 1) as nat) {
                        assert(before.map_values(|x: TaggedDeviceKeyLayer| tagged_model(x)) + (seq![tagged_model(v)] + ms) =~= out@.map_values(|x: TaggedDeviceKeyLayer| tagged_model(x)) + ms);
                    }
                }
                pos = j;
                k = k + 1;
            },
            None => {
                return None;
            },
        }
    }
    proof {
        assert(out@.map_values(|x: TaggedDeviceKeyLayer| tagged_model(x)) + Seq::<(Seq<Seq<char>>, TagMatchType, (LayerId, Seq<MacroIndex>))>::empty() =~= out@.map_values(|x: TaggedDeviceKeyLayer| tagged_model(x)));
    }
    Some((out, pos))
}

/// A layer table: a count byte and that many tagged layers, then the default layer.
pub open spec fn p_layers(b: Seq<u8>, i: int) -> Option<((Seq<(Seq<Seq<char>>, TagMatchType, (LayerId, Seq<MacroIndex>))>, (LayerId, Seq<MacroIndex>)), int)> {
    match p_u8(b, i) {
        Some((n, j)) => match p_tagged_list(b, j, n as nat) {
            Some((ts, k)) => match p_layer(b, k) {
                Some((d, l)) => Some(((ts, d), l)),
                None => None,
            },
            None => None,
        },
        None => None,
    }
}

fn read_layers(b: &[u8], i: usize) -> (r: Option<(DeviceLayers, usize)>)
    ensures
        match p_layers(b@, i as int) {
            Some((m, k)) => r matches Some((v, e)) && layers_model(v) == m && e == k,
            None => r is None,
        },
{
    let (n, j) = match read_u8(b, i) {
        Some(x) => x,
        None => return None,
    };
    let (layers, k) = match read_tagged_list(b, j, n as usize) {
        Some(x) => x,
        None => return None,
    };
    match read_layer(b, k) {
        Some((default_layer, l)) => Some((DeviceLayers { layers, default_layer }, l)),
        None => None,
    }
}

/// A physical key: its identity, then its layer table.
pub open spec fn p_key(b: Seq<u8>, i: int) -> Option<((KeyId, (Seq<(Seq<Seq<char>>, TagMatchType, (LayerId, Seq<MacroIndex>))>, (LayerId, Seq<MacroIndex>))), int)> {
    match p_uuid(b, i) {
        Some((id, j)) => match p_layers(b, j) {
            Some((ls, k)) => Some(((KeyId(id), ls), k)),
            None => None,
        },
        None => None,
    }
}

fn read_key(b: &[u8], i: usize) -> (r: Option<(DeviceKey, usize)>)
    ensures
        match p_key(b@, i as int) {
            Some((m, k)) => r matches Some((v, e)) && key_model(v) == m && e == k,
            None => r is None,
        },
{
    let (id, j) = match read_uuid(b, i) {
        Some(x) => x,
        None => return None,
    };
    match read_layers(b, j) {
        Some((layers, k)) => Some((DeviceKey { id: KeyId::new(id), layers }, k)),
        None => None,
    }
}

/// A virtual key: its layer table.
pub open spec fn p_vkey(b: Seq<u8>, i: int) -> Option<((Seq<(Seq<Seq<char>>, TagMatchType, (LayerId, Seq<MacroIndex>))>, (LayerId, Seq<MacroIndex>)), int)> {
    p_layers(b, i)
}

fn read_vkey(b: &[u8], i: usize) -> (r: Option<(VirtualKey, usize)>)
    ensures
        match p_vkey(b@, i as int) {
            Some((m, k)) => r matches Some((v, e)) && vkey_model(v) == m && e == k,
            None => r is None,
        },
{
    match read_layers(b, i) {
        Some((layers, k)) => Some((VirtualKey { layers }, k)),
        None => None,
    }
}

/// An optional channel: a byte that says whether one follows, then the channel.
pub open spec fn p_opt_channel(b: Seq<u8>, i: int) -> Option<(Option<Channel>, int)> {
    match p_bool(b, i) {
        Some((has, j)) => if has {
            match p_channel(b, j) {
                Some((c, k)) => Some((Some(c), k)),
                None => None,
            }
        } else {
            Some((None, j))
        },
        None => None,
    }
}

fn read_opt_channel(b: &[u8], i: usize) -> (r: Option<(Option<Channel>, usize)>)
    ensures
        match p_opt_channel(b@, i as int) {
            Some((m, k)) => r matches Some((v, e)) && v == m && e == k,
            None => r is None,
        },
{
    let (has, j) = match read_bool(b, i) {
        Some(x) => x,
        None => return None,
    };
    if has {
        match read_channel(b, j) {
            Some((c, k)) => Some((Some(c), k)),
            None => None,
        }
    } else {
        Some((None, j))
    }
}

/// A macro: its identity, name, optional play channel, a count byte and that many cut
/// channels, then its start, loop and end sequences.
pub open spec fn p_macro(b: Seq<u8>, i: int) -> Option<(MacroModel, int)> {
    match p_uuid(b, i) {
        Some((id, j)) => match p_string(b, j) {
            Some((name, k)) => match p_opt_channel(b, k) {
                Some((play, l)) => match p_u8(b, l) {
                    Some((n, o)) => match p_channels(b, o, n as nat) {
                        Some((cuts, q)) => match p_sequence(b, q) {
                            Some((start, s1)) => match p_sequence(b, s1) {
                                Some((looped, s2)) => match p_sequence(b, s2) {
                                    Some((end, s3)) => Some((
                                        MacroModel {
                                            id: MacroId(id),
                                            name,
                                            play_channel: play,
                                            cut_channels: cuts,
                                            start,
                                            looped,
                                            end,
                                        },
                                        s3,
                                    )),
                                    None => None,
                                },
                                None => None,
                            },
                            None => None,
                        },
                        None => None,
                    },
                    None => None,
                },
                None => None,
            },
            None => None,
        },
        None => None,
    }
}

fn read_macro(b: &[u8], i: usize) -> (r: Option<(Macro, usize)>)
    ensures
        match p_macro(b@, i as int) {
            Some((m, k)) => r matches Some((v, e)) && macro_model(v) == m && e == k,
            None => r is None,
        },
{
    let (id, j) = match read_uuid(b, i) {
        Some(x) => x,
        None => return None,
    };
    let (name, k) = match read_string(b, j) {
        Some(x) => x,
        None => return None,
    };
    let (play_channel, l) = match read_opt_channel(b, k) {
        Some(x) => x,
        None => return None,
    };
    let (n, o) = match read_u8(b, l) {
        Some(x) => x,
        None => return None,
    };
    let (cut_channels, q) = match read_channels(b, o, n as usize) {
        Some(x) => x,
        None => return None,
    };
    let (start_sequence, s1) = match read_sequence(b, q) {
        Some(x) => x,
        None => return None,
    };
    let (loop_sequence, s2) = match read_sequence(b, s1) {
        Some(x) => x,
        None => return None,
    };
    let (end_sequence, s3) = match read_sequence(b, s2) {
        Some(x) => x,
        None => return None,
    };
    proof {
        assert(cut_channels@.map_values(|x: Channel| channel_model(x)) =~= cut_channels@);
    }
    Some((
        Macro {
            id: MacroId::new(id),
            name,
            play_channel,
            cut_channels,
            start_sequence,
            loop_sequence,
            end_sequence,
        },
        s3,
    ))
}

/// Physical keys: `n` of them, one after the other.
pub open spec fn p_keys(b: Seq<u8>, i: int, n: nat) -> Option<(Seq<(KeyId, (Seq<(Seq<Seq<char>>, TagMatchType, (LayerId, Seq<MacroIndex>))>, (LayerId, Seq<MacroIndex>)))>, int)>
    decreases n,
{
    if n == 0 {
        Some((Seq::empty(), i))
    } else {
        match p_key(b, i) {
            Some((m, j)) => match p_keys(b, j, (n - 1) as nat) {
                Some((ms, k)) => Some((seq![m] + ms, k)),
                None => None,
            },
            None => None,
        }
    }
}

fn read_keys(b: &[u8], i: usize, n: usize) -> (r: Option<(Vec<DeviceKey>, usize)>)
    ensures
        match p_keys(b@, i as int, n as nat) {
            Some((ms, k)) => r matches Some((v, e)) && v@.map_values(|x: DeviceKey| key_model(x)) == ms && e == k,
            None => r is None,
        },
{
    let mut out: Vec<DeviceKey> = Vec::new();
    let mut pos: usize = i;
    let mut k: usize = 0;
    while k < n
        invariant
            k <= n,
            p_keys(b@, i as int, n as nat) == match p_keys(b@, pos as int, (n - k) as nat) {
                Some((ms, e)) => Some((out@.map_values(|x: DeviceKey| key_model(x)) + ms, e)),
                None => None,
            },
        decreases n - k,
    {
        match read_key(b, pos) {
            Some((v, j)) => {
                let ghost before = out@;
                out.push(v);
                proof {
                    assert(out@.map_values(|x: DeviceKey| key_model(x)) =~= before.map_values(|x: DeviceKey| key_model(x)).push(key_model(v)));
                    if let Some((ms, e)) = p_keys(b@, j as int, (n - k - 1) as nat) {
                        assert(before.map_values(|x: DeviceKey| key_model(x)) + (seq![key_model(v)] + ms) =~= out@.map_values(|x: DeviceKey| key_model(x)) + ms);
                    }
                }
                pos = j;
                k = k + 1;
            },
            None => {
                return None;
            },
        }
    }
    proof {
        assert(out@.map_values(|x: DeviceKey| key_model(x)) + Seq::<(KeyId, (Seq<(Seq<Seq<char>>, TagMatchType, (LayerId, Seq<MacroIndex>))>, (LayerId, Seq<MacroIndex>)))>::empty() =~= out@.map_values(|x: DeviceKey| key_model(x)));
    }
    Some((out, pos))
}

/// Virtual keys: `n` of them, one after the other.
pub open spec fn p_vkeys(b: Seq<u8>, i: int, n: nat) -> Option<(Seq<(Seq<(Seq<Seq<char>>, TagMatchType, (LayerId, Seq<MacroIndex>))>, (LayerId, Seq<MacroIndex>))>, int)>
    decreases n,
{
    if n == 0 {
        Some((Seq::empty(), i))
    } else {
        match p_vkey(b, i) {
            Some((m, j)) => match p_vkeys(b, j, (n - 1) as nat) {
                Some((ms, k)) => Some((seq![m] + ms, k)),
                None => None,
            },
            None => None,
        }
    }
}

fn read_vkeys(b: &[u8], i: usize, n: usize) -> (r: Option<(Vec<VirtualKey>, usize)>)
    ensures
        match p_vkeys(b@, i as int, n as nat) {
            Some((ms, k)) => r matches Some((v, e)) && v@.map_values(|x: VirtualKey| vkey_model(x)) == ms && e == k,
            None => r is None,
        },
{
    let mut out: Vec<VirtualKey> = Vec::new();
    let mut pos: usize = i;
    let mut k: usize = 0;
    while k < n
        invariant
            k <= n,
            p_vkeys(b@, i as int, n as nat) == match p_vkeys(b@, pos as int, (n - k) as nat) {
                Some((ms, e)) => Some((out@.map_values(|x: VirtualKey| vkey_model(x)) + ms, e)),
                None => None,
            },
        decreases n - k,
    {
        match read_vkey(b, pos) {
            Some((v, j)) => {
                let ghost before = out@;
                out.push(v);
                proof {
                    assert(out@.map_values(|x: VirtualKey| vkey_model(x)) =~= before.map_values(|x: VirtualKey| vkey_model(x)).push(vkey_model(v)));
                    if let Some((ms, e)) = p_vkeys(b@, j as int, (n - k - 1) as nat) {
                        assert(before.map_values(|x: VirtualKey| vkey_model(x)) + (seq![vkey_model(v)] + ms) =~= out@.map_values(|x: VirtualKey| vkey_model(x)) + ms);
                    }
                }
                pos = j;
                k = k + 1;
            },
            None => {
                return None;
            },
        }
    }
    proof {
        assert(out@.map_values(|x: VirtualKey| vkey_model(x)) + Seq::<(Seq<(Seq<Seq<char>>, TagMatchType, (LayerId, Seq<MacroIndex>))>, (LayerId, Seq<MacroIndex>))>::empty() =~= out@.map_values(|x: VirtualKey| vkey_model(x)));
    }
    Some((out, pos))
}

/// Macros: `n` of them, one after the other.
pub open spec fn p_macros(b: Seq<u8>, i: int, n: nat) -> Option<(Seq<MacroModel>, int)>
    decreases n,
{
    if n == 0 {
        Some((Seq::empty(), i))
    } else {
        match p_macro(b, i) {
            Some((m, j)) => match p_macros(b, j, (n - 1) as nat) {
                Some((ms, k)) => Some((seq![m] + ms, k)),
                None => None,
            },
            None => None,
        }
    }
}

fn read_macros(b: &[u8], i: usize, n: usize) -> (r: Option<(Vec<Macro>, usize)>)
    ensures
        match p_macros(b@, i as int, n as nat) {
            Some((ms, k)) => r matches Some((v, e)) && v@.map_values(|x: Macro| macro_model(x)) == ms && e == k,
            None => r is None,
        },
{
    let mut out: Vec<Macro> = Vec::new();
    let mut pos: usize = i;
    let mut k: usize = 0;
    while k < n
        invariant
            k <= n,
            p_macros(b@, i as int, n as nat) == match p_macros(b@, pos as int, (n - k) as nat) {
                Some((ms, e)) => Some((out@.map_values(|x: Macro| macro_model(x)) + ms, e)),
                None => None,
            },
        decreases n - k,
    {
        match read_macro(b, pos) {
            Some((v, j)) => {
                let ghost before = out@;
                out.push(v);
                proof {
                    assert(out@.map_values(|x: Macro| macro_model(x)) =~= before.map_values(|x: Macro| macro_model(x)).push(macro_model(v)));
                    if let Some((ms, e)) = p_macros(b@, j as int, (n - k - 1) as nat) {
                        assert(before.map_values(|x: Macro| macro_model(x)) + (seq![macro_model(v)] + ms) =~= out@.map_values(|x: Macro| macro_model(x)) + ms);
                    }
                }
                pos = j;
                k = k + 1;
            },
            None => {
                return None;
            },
        }
    }
    proof {
        assert(out@.map_values(|x: Macro| macro_model(x)) + Seq::<MacroModel>::empty() =~= out@.map_values(|x: Macro| macro_model(x)));
    }
    Some((out, pos))
}

/// A whole profile: the layout version (32 bits), the name, a count byte and that many
/// physical keys, a count byte and that many virtual keys (at most `MAX_VIRTUAL_KEYS`), then a
/// 16-bit count and that many macros. Bytes after the last macro are not read.
pub open spec fn p_profile(b: Seq<u8>) -> Result<ProfileModel, ProfileError> {
    match p_u32(b, 0) {
        None => Err(ProfileError::Malformed),
        Some((version, j)) => if version != PROFILE_VERSION {
            Err(ProfileError::UnsupportedVersion)
        } else {
            match p_string(b, j) {
                None => Err(ProfileError::Malformed),
                Some((name, k)) => match p_u8(b, k) {
                    None => Err(ProfileError::Malformed),
                    Some((nk, l)) => match p_keys(b, l, nk as nat) {
                        None => Err(ProfileError::Malformed),
                        Some((keys, o)) => match p_u8(b, o) {
                            None => Err(ProfileError::Malformed),
                            Some((nv, q)) => match p_vkeys(b, q, nv as nat) {
                                None => Err(ProfileError::Malformed),
                                Some((vkeys, s)) => if vkeys.len() > MAX_VIRTUAL_KEYS {
                                    Err(ProfileError::TooManyVirtualKeys)
                                } else {
                                    match p_u16(b, s) {
                                        None => Err(ProfileError::Malformed),
                                        Some((nm, t)) => match p_macros(b, t, nm as nat) {
                                            None => Err(ProfileError::Malformed),
                                            Some((macros, _)) => Ok(
                                                ProfileModel { name, keys, virtual_keys: vkeys, macros },
                                            ),
                                        },
                                    }
                                },
                            },
                        },
                    },
                },
            }
        },
    }
}

/// Decodes a profile from `b`; it succeeds exactly when `b` starts with a profile in the
/// layout of `p_profile`, and says otherwise why not.
pub fn read_profile(b: &[u8]) -> (r: Result<KeyboardProfile, ProfileError>)
    ensures
        match p_profile(b@) {
            Ok(m) => r matches Ok(p) && profile_model(p) == m,
            Err(e) => r == Err::<KeyboardProfile, ProfileError>(e),
        },
{
    let (version, j) = match read_u32(b, 0) {
        Some(x) => x,
        None => return Err(ProfileError::Malformed),
    };
    if version != PROFILE_VERSION {
        return Err(ProfileError::UnsupportedVersion);
    }
    let (name, k) = match read_string(b, j) {
        Some(x) => x,
        None => return Err(ProfileError::Malformed),
    };
    let (nk, l) = match read_u8(b, k) {
        Some(x) => x,
        None => return Err(ProfileError::Malformed),
    };
    let (keys, o) = match read_keys(b, l, nk as usize) {
        Some(x) => x,
        None => return Err(ProfileError::Malformed),
    };
    let (nv, q) = match read_u8(b, o) {
        Some(x) => x,
        None => return Err(ProfileError::Malformed),
    };
    let (virtual_keys, s) = match read_vkeys(b, q, nv as usize) {
        Some(x) => x,
        None => return Err(ProfileError::Malformed),
    };
    if virtual_keys.len() > MAX_VIRTUAL_KEYS {
        return Err(ProfileError::TooManyVirtualKeys);
    }
    let (nm, t) = match read_u16(b, s) {
        Some(x) => x,
        None => return Err(ProfileError::Malformed),
    };
    match read_macros(b, t, nm as usize) {
        Some((macros, _)) => Ok(KeyboardProfile { name, keys, virtual_keys, macros }),
        None => Err(ProfileError::Malformed),
    }
}

/// A profile as stored in flash: a 16-bit length, then that many bytes holding the profile.
pub open spec fn p_stored_profile(b: Seq<u8>) -> Result<ProfileModel, ProfileError> {
    match p_u16(b, 0) {
        None => Err(ProfileError::Malformed),
        Some((n, j)) => if b.len() - j < n {
            Err(ProfileError::Malformed)
        } else {
            p_profile(b.subrange(j, j + n))
        },
    }
}

/// Decodes a profile stored in flash, behind its 16-bit length.
pub fn load_profile(b: &[u8]) -> (r: Result<KeyboardProfile, ProfileError>)
    ensures
        match p_stored_profile(b@) {
            Ok(m) => r matches Ok(p) && profile_model(p) == m,
            Err(e) => r == Err::<KeyboardProfile, ProfileError>(e),
        },
{
    let (n, j) = match read_u16(b, 0) {
        Some(x) => x,
        None => return Err(ProfileError::Malformed),
    };
    if b.len() - j < n as usize {
        return Err(ProfileError::Malformed);
    }
    read_profile(slice_subrange(b, j, j + n as usize))
}

} // verus!
