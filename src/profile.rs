//! The keyboard profile: keys, layers, macros and the actions they play.
use vstd::prelude::*;
use vstd::utf8::is_char_boundary;
use vstd::string::StringSliceAdditionalSpecFns;
use vstd::utf8::encode_utf8;
use crate::tags::{TagList, tags_match};

verus! {

/// Maximum length, in bytes, of a layer tag name.
pub const MAX_LAYER_TAG_LEN: usize = 32;

/// Identity of a physical key: an opaque 128-bit value.
#[derive(Debug, Clone, Copy, PartialEq, Eq, Structural)]
pub struct KeyId(pub u128);

impl KeyId {
    pub fn new(id: u128) -> (r: KeyId)
        ensures
            r.0 == id,
    {
        KeyId(id)
    }
}

/// Identity of a layer: an opaque 128-bit value.
#[derive(Debug, Clone, Copy, PartialEq, Eq, Structural)]
pub struct LayerId(pub u128);

impl LayerId {
    pub fn new(id: u128) -> (r: LayerId)
        ensures
            r.0 == id,
    {
        LayerId(id)
    }
}

/// Identity of a macro: an opaque 128-bit value.
#[derive(Debug, Clone, Copy, PartialEq, Eq, Structural)]
pub struct MacroId(pub u128);

impl MacroId {
    pub fn new(id: u128) -> (r: MacroId)
        ensures
            r.0 == id,
    {
        MacroId(id)
    }
}

/// Position of a macro in the profile's macro list.
#[derive(Debug, Clone, Copy, PartialEq, Eq, Structural)]
pub struct MacroIndex(pub u16);

impl MacroIndex {
    pub fn new(index: u16) -> (r: MacroIndex)
        ensures
            r.0 == index,
    {
        MacroIndex(index)
    }

    pub fn get_index(&self) -> (r: usize)
        ensures
            r == self.0 as usize,
    {
        self.0 as usize
    }
}

/// A group of macros that may interrupt each other.
#[derive(Debug, Clone, Copy, PartialEq, Eq, Structural)]
pub struct Channel(pub u8);

impl Channel {
    pub fn new(id: u8) -> (r: Channel)
        ensures
            r.0 == id,
    {
        Channel(id)
    }
}

/// The largest char boundary of `b` that is at most `k`.
pub open spec fn cut_point(b: Seq<u8>, k: int) -> int
    decreases k,
{
    if k <= 0 || is_char_boundary(b, k) {
        k
    } else {
        cut_point(b, k - 1)
    }
}

/// Where a tag name of bytes `b` is cut: at most `MAX_LAYER_TAG_LEN` bytes, on a char boundary.
pub open spec fn tag_cut(b: Seq<u8>) -> int {
    if b.len() <= MAX_LAYER_TAG_LEN {
        b.len() as int
    } else {
        cut_point(b, MAX_LAYER_TAG_LEN as int)
    }
}

/// A layer tag: a name of at most `MAX_LAYER_TAG_LEN` bytes.
#[derive(Debug, Clone)]
pub struct LayerTag(String);

impl View for LayerTag {
    type V = Seq<char>;

    closed spec fn view(&self) -> Seq<char> {
        self.0@
    }
}

impl LayerTag {
    /// A tag from the start of `s`, cut to at most `MAX_LAYER_TAG_LEN` bytes on a char boundary.
    pub fn from_str(s: &str) -> (r: LayerTag)
        ensures
            encode_utf8(r@) == s.spec_bytes().subrange(0, tag_cut(s.spec_bytes())),
            s.spec_bytes().len() <= MAX_LAYER_TAG_LEN ==> r@ == s@,
    {
        let n = s.as_bytes().len();
        proof {
            broadcast use vstd::utf8::encode_utf8_valid_utf8;
        }
        if n <= MAX_LAYER_TAG_LEN {
            proof {
                assert(s.spec_bytes().subrange(0, n as int) =~= s.spec_bytes());
            }
            LayerTag(s.to_owned())
        } else {
            let mut k: usize = MAX_LAYER_TAG_LEN;
            while k > 0 && !s.is_char_boundary(k)
                invariant
                    k <= MAX_LAYER_TAG_LEN,
                    n == s.spec_bytes().len(),
                    n > MAX_LAYER_TAG_LEN,
                    cut_point(s.spec_bytes(), k as int) == cut_point(
                        s.spec_bytes(),
                        MAX_LAYER_TAG_LEN as int,
                    ),
                decreases k,
            {
                k = k - 1;
            }
            proof {
                broadcast use vstd::utf8::encode_utf8_valid_utf8;
                if k == 0 {
                    assert(is_char_boundary(s.spec_bytes(), 0));
                }
            }
            let (head, _tail) = s.split_at(k);
            LayerTag(head.to_owned())
        }
    }

    /// The tag's name.
    pub fn name(&self) -> (r: String)
        ensures
            r@ == self@,
    {
        self.0.clone()
    }

    /// A copy of this tag.
    pub fn duplicate(&self) -> (r: LayerTag)
        ensures
            r == *self,
            r@ == self@,
    {
        LayerTag(self.0.clone())
    }
}

impl PartialEq for LayerTag {
    fn eq(&self, o: &LayerTag) -> (r: bool) {
        self.0 == o.0
    }
}

impl vstd::std_specs::cmp::PartialEqSpecImpl for LayerTag {
    open spec fn obeys_eq_spec() -> bool {
        true
    }

    open spec fn eq_spec(&self, o: &LayerTag) -> bool {
        self@ == o@
    }
}

/// How a layer's required tags are matched against the active tags.
#[derive(Debug, Clone, Copy, PartialEq, Eq, Structural)]
pub enum TagMatchType {
    All,
    Any,
}

/// A press or release of a keyboard key.
#[derive(Debug, Clone, Copy, PartialEq, Eq, Structural)]
pub enum KeyboardEvent {
    KeyDown(KeyboardKey),
    KeyUp(KeyboardKey),
}

/// A key of the keyboard usage page, by name.
#[allow(non_camel_case_types)]
#[derive(Debug, Clone, Copy, PartialEq, Eq, Structural)]
pub enum KeyboardKey {
    A,
    B,
    C,
    D,
    E,
    F,
    G,
    H,
    I,
    J,
    K,
    L,
    M,
    N,
    O,
    P,
    Q,
    R,
    S,
    T,
    U,
    V,
    W,
    X,
    Y,
    Z,
    ONE,
    TWO,
    THREE,
    FOUR,
    FIVE,
    SIX,
    SEVEN,
    EIGHT,
    NINE,
    ZERO,
    ENTER,
    ESCAPE,
    BACKSPACE,
    TAB,
    SPACEBAR,
    MINUS,
    EQUALS,
    LEFT_BRACKET,
    RIGHT_BRACKET,
    BACKSLASH,
    POUND,
    SEMICOLON,
    QUOTE,
    GRAVE_ACCENT,
    COMMA,
    PERIOD,
    FORWARD_SLASH,
    CAPS_LOCK,
    F1,
    F2,
    F3,
    F4,
    F5,
    F6,
    F7,
    F8,
    F9,
    F10,
    F11,
    F12,
    PRINT_SCREEN,
    SCROLL_LOCK,
    PAUSE,
    INSERT,
    HOME,
    PAGE_UP,
    DELETE,
    END,
    PAGE_DOWN,
    RIGHT_ARROW,
    LEFT_ARROW,
    DOWN_ARROW,
    UP_ARROW,
    KEYPAD_NUMLOCK,
    KEYPAD_FORWARD_SLASH,
    KEYPAD_ASTERISK,
    KEYPAD_MINUS,
    KEYPAD_PLUS,
    KEYPAD_ENTER,
    KEYPAD_ONE,
    KEYPAD_TWO,
    KEYPAD_THREE,
    KEYPAD_FOUR,
    KEYPAD_FIVE,
    KEYPAD_SIX,
    KEYPAD_SEVEN,
    KEYPAD_EIGHT,
    KEYPAD_NINE,
    KEYPAD_ZERO,
    KEYPAD_PERIOD,
    KEYPAD_BACKSLASH,
    APPLICATION,
    KEYPAD_EQUALS,
    F13,
    F14,
    F15,
    F16,
    F17,
    F18,
    F19,
    F20,
    F21,
    F22,
    F23,
    F24,
    MENU,
    LEFT_CONTROL,
    LEFT_SHIFT,
    LEFT_ALT,
    LEFT_GUI,
    RIGHT_CONTROL,
    RIGHT_SHIFT,
    RIGHT_ALT,
    RIGHT_GUI,
}

impl KeyboardKey {
    /// The key's usage code on the keyboard usage page.
    pub open spec fn spec_code(self) -> u8 {
        match self {
            KeyboardKey::A => 0x04u8,
            KeyboardKey::B => 0x05u8,
            KeyboardKey::C => 0x06u8,
            KeyboardKey::D => 0x07u8,
            KeyboardKey::E => 0x08u8,
            KeyboardKey::F => 0x09u8,
            KeyboardKey::G => 0x0Au8,
            KeyboardKey::H => 0x0Bu8,
            KeyboardKey::I => 0x0Cu8,
            KeyboardKey::J => 0x0Du8,
            KeyboardKey::K => 0x0Eu8,
            KeyboardKey::L => 0x0Fu8,
            KeyboardKey::M => 0x10u8,
            KeyboardKey::N => 0x11u8,
            KeyboardKey::O => 0x12u8,
            KeyboardKey::P => 0x13u8,
            KeyboardKey::Q => 0x14u8,
            KeyboardKey::R => 0x15u8,
            KeyboardKey::S => 0x16u8,
            KeyboardKey::T => 0x17u8,
            KeyboardKey::U => 0x18u8,
            KeyboardKey::V => 0x19u8,
            KeyboardKey::W => 0x1Au8,
            KeyboardKey::X => 0x1Bu8,
            KeyboardKey::Y => 0x1Cu8,
            KeyboardKey::Z => 0x1Du8,
            KeyboardKey::ONE => 0x1Eu8,
            KeyboardKey::TWO => 0x1Fu8,
            KeyboardKey::THREE => 0x20u8,
            KeyboardKey::FOUR => 0x21u8,
            KeyboardKey::FIVE => 0x22u8,
            KeyboardKey::SIX => 0x23u8,
            KeyboardKey::SEVEN => 0x24u8,
            KeyboardKey::EIGHT => 0x25u8,
            KeyboardKey::NINE => 0x26u8,
            KeyboardKey::ZERO => 0x27u8,
            KeyboardKey::ENTER => 0x28u8,
            KeyboardKey::ESCAPE => 0x29u8,
            KeyboardKey::BACKSPACE => 0x2Au8,
            KeyboardKey::TAB => 0x2Bu8,
            KeyboardKey::SPACEBAR => 0x2Cu8,
            KeyboardKey::MINUS => 0x2Du8,
            KeyboardKey::EQUALS => 0x2Eu8,
            KeyboardKey::LEFT_BRACKET => 0x2Fu8,
            KeyboardKey::RIGHT_BRACKET => 0x30u8,
            KeyboardKey::BACKSLASH => 0x31u8,
            KeyboardKey::POUND => 0x32u8,
            KeyboardKey::SEMICOLON => 0x33u8,
            KeyboardKey::QUOTE => 0x34u8,
            KeyboardKey::GRAVE_ACCENT => 0x35u8,
            KeyboardKey::COMMA => 0x36u8,
            KeyboardKey::PERIOD => 0x37u8,
            KeyboardKey::FORWARD_SLASH => 0x38u8,
            KeyboardKey::CAPS_LOCK => 0x39u8,
            KeyboardKey::F1 => 0x3Au8,
            KeyboardKey::F2 => 0x3Bu8,
            KeyboardKey::F3 => 0x3Cu8,
            KeyboardKey::F4 => 0x3Du8,
            KeyboardKey::F5 => 0x3Eu8,
            KeyboardKey::F6 => 0x3Fu8,
            KeyboardKey::F7 => 0x40u8,
            KeyboardKey::F8 => 0x41u8,
            KeyboardKey::F9 => 0x42u8,
            KeyboardKey::F10 => 0x43u8,
            KeyboardKey::F11 => 0x44u8,
            KeyboardKey::F12 => 0x45u8,
            KeyboardKey::PRINT_SCREEN => 0x46u8,
            KeyboardKey::SCROLL_LOCK => 0x47u8,
            KeyboardKey::PAUSE => 0x48u8,
            KeyboardKey::INSERT => 0x49u8,
            KeyboardKey::HOME => 0x4Au8,
            KeyboardKey::PAGE_UP => 0x4Bu8,
            KeyboardKey::DELETE => 0x4Cu8,
            KeyboardKey::END => 0x4Du8,
            KeyboardKey::PAGE_DOWN => 0x4Eu8,
            KeyboardKey::RIGHT_ARROW => 0x4Fu8,
            KeyboardKey::LEFT_ARROW => 0x50u8,
            KeyboardKey::DOWN_ARROW => 0x51u8,
            KeyboardKey::UP_ARROW => 0x52u8,
            KeyboardKey::KEYPAD_NUMLOCK => 0x53u8,
            KeyboardKey::KEYPAD_FORWARD_SLASH => 0x54u8,
            KeyboardKey::KEYPAD_ASTERISK => 0x55u8,
            KeyboardKey::KEYPAD_MINUS => 0x56u8,
            KeyboardKey::KEYPAD_PLUS => 0x57u8,
            KeyboardKey::KEYPAD_ENTER => 0x58u8,
            KeyboardKey::KEYPAD_ONE => 0x59u8,
            KeyboardKey::KEYPAD_TWO => 0x5Au8,
            KeyboardKey::KEYPAD_THREE => 0x5Bu8,
            KeyboardKey::KEYPAD_FOUR => 0x5Cu8,
            KeyboardKey::KEYPAD_FIVE => 0x5Du8,
            KeyboardKey::KEYPAD_SIX => 0x5Eu8,
            KeyboardKey::KEYPAD_SEVEN => 0x5Fu8,
            KeyboardKey::KEYPAD_EIGHT => 0x60u8,
            KeyboardKey::KEYPAD_NINE => 0x61u8,
            KeyboardKey::KEYPAD_ZERO => 0x62u8,
            KeyboardKey::KEYPAD_PERIOD => 0x63u8,
            KeyboardKey::KEYPAD_BACKSLASH => 0x64u8,
            KeyboardKey::APPLICATION => 0x65u8,
            KeyboardKey::KEYPAD_EQUALS => 0x67u8,
            KeyboardKey::F13 => 0x68u8,
            KeyboardKey::F14 => 0x69u8,
            KeyboardKey::F15 => 0x6Au8,
            KeyboardKey::F16 => 0x6Bu8,
            KeyboardKey::F17 => 0x6Cu8,
            KeyboardKey::F18 => 0x6Du8,
            KeyboardKey::F19 => 0x6Eu8,
            KeyboardKey::F20 => 0x6Fu8,
            KeyboardKey::F21 => 0x70u8,
            KeyboardKey::F22 => 0x71u8,
            KeyboardKey::F23 => 0x72u8,
            KeyboardKey::F24 => 0x73u8,
            KeyboardKey::MENU => 0x76u8,
            KeyboardKey::LEFT_CONTROL => 0xE0u8,
            KeyboardKey::LEFT_SHIFT => 0xE1u8,
            KeyboardKey::LEFT_ALT => 0xE2u8,
            KeyboardKey::LEFT_GUI => 0xE3u8,
            KeyboardKey::RIGHT_CONTROL => 0xE4u8,
            KeyboardKey::RIGHT_SHIFT => 0xE5u8,
            KeyboardKey::RIGHT_ALT => 0xE6u8,
            KeyboardKey::RIGHT_GUI => 0xE7u8,
        }
    }

    pub fn code(&self) -> (r: u8)
        ensures
            r == self.spec_code(),
    {
        match self {
            KeyboardKey::A => 0x04u8,
            KeyboardKey::B => 0x05u8,
            KeyboardKey::C => 0x06u8,
            KeyboardKey::D => 0x07u8,
            KeyboardKey::E => 0x08u8,
            KeyboardKey::F => 0x09u8,
            KeyboardKey::G => 0x0Au8,
            KeyboardKey::H => 0x0Bu8,
            KeyboardKey::I => 0x0Cu8,
            KeyboardKey::J => 0x0Du8,
            KeyboardKey::K => 0x0Eu8,
            KeyboardKey::L => 0x0Fu8,
            KeyboardKey::M => 0x10u8,
            KeyboardKey::N => 0x11u8,
            KeyboardKey::O => 0x12u8,
            KeyboardKey::P => 0x13u8,
            KeyboardKey::Q => 0x14u8,
            KeyboardKey::R => 0x15u8,
            KeyboardKey::S => 0x16u8,
            KeyboardKey::T => 0x17u8,
            KeyboardKey::U => 0x18u8,
            KeyboardKey::V => 0x19u8,
            KeyboardKey::W => 0x1Au8,
            KeyboardKey::X => 0x1Bu8,
            KeyboardKey::Y => 0x1Cu8,
            KeyboardKey::Z => 0x1Du8,
            KeyboardKey::ONE => 0x1Eu8,
            KeyboardKey::TWO => 0x1Fu8,
            KeyboardKey::THREE => 0x20u8,
            KeyboardKey::FOUR => 0x21u8,
            KeyboardKey::FIVE => 0x22u8,
            KeyboardKey::SIX => 0x23u8,
            KeyboardKey::SEVEN => 0x24u8,
            KeyboardKey::EIGHT => 0x25u8,
            KeyboardKey::NINE => 0x26u8,
            KeyboardKey::ZERO => 0x27u8,
            KeyboardKey::ENTER => 0x28u8,
            KeyboardKey::ESCAPE => 0x29u8,
            KeyboardKey::BACKSPACE => 0x2Au8,
            KeyboardKey::TAB => 0x2Bu8,
            KeyboardKey::SPACEBAR => 0x2Cu8,
            KeyboardKey::MINUS => 0x2Du8,
            KeyboardKey::EQUALS => 0x2Eu8,
            KeyboardKey::LEFT_BRACKET => 0x2Fu8,
            KeyboardKey::RIGHT_BRACKET => 0x30u8,
            KeyboardKey::BACKSLASH => 0x31u8,
            KeyboardKey::POUND => 0x32u8,
            KeyboardKey::SEMICOLON => 0x33u8,
            KeyboardKey::QUOTE => 0x34u8,
            KeyboardKey::GRAVE_ACCENT => 0x35u8,
            KeyboardKey::COMMA => 0x36u8,
            KeyboardKey::PERIOD => 0x37u8,
            KeyboardKey::FORWARD_SLASH => 0x38u8,
            KeyboardKey::CAPS_LOCK => 0x39u8,
            KeyboardKey::F1 => 0x3Au8,
            KeyboardKey::F2 => 0x3Bu8,
            KeyboardKey::F3 => 0x3Cu8,
            KeyboardKey::F4 => 0x3Du8,
            KeyboardKey::F5 => 0x3Eu8,
            KeyboardKey::F6 => 0x3Fu8,
            KeyboardKey::F7 => 0x40u8,
            KeyboardKey::F8 => 0x41u8,
            KeyboardKey::F9 => 0x42u8,
            KeyboardKey::F10 => 0x43u8,
            KeyboardKey::F11 => 0x44u8,
            KeyboardKey::F12 => 0x45u8,
            KeyboardKey::PRINT_SCREEN => 0x46u8,
            KeyboardKey::SCROLL_LOCK => 0x47u8,
            KeyboardKey::PAUSE => 0x48u8,
            KeyboardKey::INSERT => 0x49u8,
            KeyboardKey::HOME => 0x4Au8,
            KeyboardKey::PAGE_UP => 0x4Bu8,
            KeyboardKey::DELETE => 0x4Cu8,
            KeyboardKey::END => 0x4Du8,
            KeyboardKey::PAGE_DOWN => 0x4Eu8,
            KeyboardKey::RIGHT_ARROW => 0x4Fu8,
            KeyboardKey::LEFT_ARROW => 0x50u8,
            KeyboardKey::DOWN_ARROW => 0x51u8,
            KeyboardKey::UP_ARROW => 0x52u8,
            KeyboardKey::KEYPAD_NUMLOCK => 0x53u8,
            KeyboardKey::KEYPAD_FORWARD_SLASH => 0x54u8,
            KeyboardKey::KEYPAD_ASTERISK => 0x55u8,
            KeyboardKey::KEYPAD_MINUS => 0x56u8,
            KeyboardKey::KEYPAD_PLUS => 0x57u8,
            KeyboardKey::KEYPAD_ENTER => 0x58u8,
            KeyboardKey::KEYPAD_ONE => 0x59u8,
            KeyboardKey::KEYPAD_TWO => 0x5Au8,
            KeyboardKey::KEYPAD_THREE => 0x5Bu8,
            KeyboardKey::KEYPAD_FOUR => 0x5Cu8,
            KeyboardKey::KEYPAD_FIVE => 0x5Du8,
            KeyboardKey::KEYPAD_SIX => 0x5Eu8,
            KeyboardKey::KEYPAD_SEVEN => 0x5Fu8,
            KeyboardKey::KEYPAD_EIGHT => 0x60u8,
            KeyboardKey::KEYPAD_NINE => 0x61u8,
            KeyboardKey::KEYPAD_ZERO => 0x62u8,
            KeyboardKey::KEYPAD_PERIOD => 0x63u8,
            KeyboardKey::KEYPAD_BACKSLASH => 0x64u8,
            KeyboardKey::APPLICATION => 0x65u8,
            KeyboardKey::KEYPAD_EQUALS => 0x67u8,
            KeyboardKey::F13 => 0x68u8,
            KeyboardKey::F14 => 0x69u8,
            KeyboardKey::F15 => 0x6Au8,
            KeyboardKey::F16 => 0x6Bu8,
            KeyboardKey::F17 => 0x6Cu8,
            KeyboardKey::F18 => 0x6Du8,
            KeyboardKey::F19 => 0x6Eu8,
            KeyboardKey::F20 => 0x6Fu8,
            KeyboardKey::F21 => 0x70u8,
            KeyboardKey::F22 => 0x71u8,
            KeyboardKey::F23 => 0x72u8,
            KeyboardKey::F24 => 0x73u8,
            KeyboardKey::MENU => 0x76u8,
            KeyboardKey::LEFT_CONTROL => 0xE0u8,
            KeyboardKey::LEFT_SHIFT => 0xE1u8,
            KeyboardKey::LEFT_ALT => 0xE2u8,
            KeyboardKey::LEFT_GUI => 0xE3u8,
            KeyboardKey::RIGHT_CONTROL => 0xE4u8,
            KeyboardKey::RIGHT_SHIFT => 0xE5u8,
            KeyboardKey::RIGHT_ALT => 0xE6u8,
            KeyboardKey::RIGHT_GUI => 0xE7u8,
        }
    }

    /// The key whose usage code is `c`, if there is one.
    pub fn from_code(c: u8) -> (r: Option<KeyboardKey>)
        ensures
            r matches Some(k) ==> k.spec_code() == c,
            r is None ==> forall|k: KeyboardKey| k.spec_code() != c,
    {
        match c {
            0x04u8 => Some(KeyboardKey::A),
            0x05u8 => Some(KeyboardKey::B),
            0x06u8 => Some(KeyboardKey::C),
            0x07u8 => Some(KeyboardKey::D),
            0x08u8 => Some(KeyboardKey::E),
            0x09u8 => Some(KeyboardKey::F),
            0x0Au8 => Some(KeyboardKey::G),
            0x0Bu8 => Some(KeyboardKey::H),
            0x0Cu8 => Some(KeyboardKey::I),
            0x0Du8 => Some(KeyboardKey::J),
            0x0Eu8 => Some(KeyboardKey::K),
            0x0Fu8 => Some(KeyboardKey::L),
            0x10u8 => Some(KeyboardKey::M),
            0x11u8 => Some(KeyboardKey::N),
            0x12u8 => Some(KeyboardKey::O),
            0x13u8 => Some(KeyboardKey::P),
            0x14u8 => Some(KeyboardKey::Q),
            0x15u8 => Some(KeyboardKey::R),
            0x16u8 => Some(KeyboardKey::S),
            0x17u8 => Some(KeyboardKey::T),
            0x18u8 => Some(KeyboardKey::U),
            0x19u8 => Some(KeyboardKey::V),
            0x1Au8 => Some(KeyboardKey::W),
            0x1Bu8 => Some(KeyboardKey::X),
            0x1Cu8 => Some(KeyboardKey::Y),
            0x1Du8 => Some(KeyboardKey::Z),
            0x1Eu8 => Some(KeyboardKey::ONE),
            0x1Fu8 => Some(KeyboardKey::TWO),
            0x20u8 => Some(KeyboardKey::THREE),
            0x21u8 => Some(KeyboardKey::FOUR),
            0x22u8 => Some(KeyboardKey::FIVE),
            0x23u8 => Some(KeyboardKey::SIX),
            0x24u8 => Some(KeyboardKey::SEVEN),
            0x25u8 => Some(KeyboardKey::EIGHT),
            0x26u8 => Some(KeyboardKey::NINE),
            0x27u8 => Some(KeyboardKey::ZERO),
            0x28u8 => Some(KeyboardKey::ENTER),
            0x29u8 => Some(KeyboardKey::ESCAPE),
            0x2Au8 => Some(KeyboardKey::BACKSPACE),
            0x2Bu8 => Some(KeyboardKey::TAB),
            0x2Cu8 => Some(KeyboardKey::SPACEBAR),
            0x2Du8 => Some(KeyboardKey::MINUS),
            0x2Eu8 => Some(KeyboardKey::EQUALS),
            0x2Fu8 => Some(KeyboardKey::LEFT_BRACKET),
            0x30u8 => Some(KeyboardKey::RIGHT_BRACKET),
            0x31u8 => Some(KeyboardKey::BACKSLASH),
            0x32u8 => Some(KeyboardKey::POUND),
            0x33u8 => Some(KeyboardKey::SEMICOLON),
            0x34u8 => Some(KeyboardKey::QUOTE),
            0x35u8 => Some(KeyboardKey::GRAVE_ACCENT),
            0x36u8 => Some(KeyboardKey::COMMA),
            0x37u8 => Some(KeyboardKey::PERIOD),
            0x38u8 => Some(KeyboardKey::FORWARD_SLASH),
            0x39u8 => Some(KeyboardKey::CAPS_LOCK),
            0x3Au8 => Some(KeyboardKey::F1),
            0x3Bu8 => Some(KeyboardKey::F2),
            0x3Cu8 => Some(KeyboardKey::F3),
            0x3Du8 => Some(KeyboardKey::F4),
            0x3Eu8 => Some(KeyboardKey::F5),
            0x3Fu8 => Some(KeyboardKey::F6),
            0x40u8 => Some(KeyboardKey::F7),
            0x41u8 => Some(KeyboardKey::F8),
            0x42u8 => Some(KeyboardKey::F9),
            0x43u8 => Some(KeyboardKey::F10),
            0x44u8 => Some(KeyboardKey::F11),
            0x45u8 => Some(KeyboardKey::F12),
            0x46u8 => Some(KeyboardKey::PRINT_SCREEN),
            0x47u8 => Some(KeyboardKey::SCROLL_LOCK),
            0x48u8 => Some(KeyboardKey::PAUSE),
            0x49u8 => Some(KeyboardKey::INSERT),
            0x4Au8 => Some(KeyboardKey::HOME),
            0x4Bu8 => Some(KeyboardKey::PAGE_UP),
            0x4Cu8 => Some(KeyboardKey::DELETE),
            0x4Du8 => Some(KeyboardKey::END),
            0x4Eu8 => Some(KeyboardKey::PAGE_DOWN),
            0x4Fu8 => Some(KeyboardKey::RIGHT_ARROW),
            0x50u8 => Some(KeyboardKey::LEFT_ARROW),
            0x51u8 => Some(KeyboardKey::DOWN_ARROW),
            0x52u8 => Some(KeyboardKey::UP_ARROW),
            0x53u8 => Some(KeyboardKey::KEYPAD_NUMLOCK),
            0x54u8 => Some(KeyboardKey::KEYPAD_FORWARD_SLASH),
            0x55u8 => Some(KeyboardKey::KEYPAD_ASTERISK),
            0x56u8 => Some(KeyboardKey::KEYPAD_MINUS),
            0x57u8 => Some(KeyboardKey::KEYPAD_PLUS),
            0x58u8 => Some(KeyboardKey::KEYPAD_ENTER),
            0x59u8 => Some(KeyboardKey::KEYPAD_ONE),
            0x5Au8 => Some(KeyboardKey::KEYPAD_TWO),
            0x5Bu8 => Some(KeyboardKey::KEYPAD_THREE),
            0x5Cu8 => Some(KeyboardKey::KEYPAD_FOUR),
            0x5Du8 => Some(KeyboardKey::KEYPAD_FIVE),
            0x5Eu8 => Some(KeyboardKey::KEYPAD_SIX),
            0x5Fu8 => Some(KeyboardKey::KEYPAD_SEVEN),
            0x60u8 => Some(KeyboardKey::KEYPAD_EIGHT),
            0x61u8 => Some(KeyboardKey::KEYPAD_NINE),
            0x62u8 => Some(KeyboardKey::KEYPAD_ZERO),
            0x63u8 => Some(KeyboardKey::KEYPAD_PERIOD),
            0x64u8 => Some(KeyboardKey::KEYPAD_BACKSLASH),
            0x65u8 => Some(KeyboardKey::APPLICATION),
            0x67u8 => Some(KeyboardKey::KEYPAD_EQUALS),
            0x68u8 => Some(KeyboardKey::F13),
            0x69u8 => Some(KeyboardKey::F14),
            0x6Au8 => Some(KeyboardKey::F15),
            0x6Bu8 => Some(KeyboardKey::F16),
            0x6Cu8 => Some(KeyboardKey::F17),
            0x6Du8 => Some(KeyboardKey::F18),
            0x6Eu8 => Some(KeyboardKey::F19),
            0x6Fu8 => Some(KeyboardKey::F20),
            0x70u8 => Some(KeyboardKey::F21),
            0x71u8 => Some(KeyboardKey::F22),
            0x72u8 => Some(KeyboardKey::F23),
            0x73u8 => Some(KeyboardKey::F24),
            0x76u8 => Some(KeyboardKey::MENU),
            0xE0u8 => Some(KeyboardKey::LEFT_CONTROL),
            0xE1u8 => Some(KeyboardKey::LEFT_SHIFT),
            0xE2u8 => Some(KeyboardKey::LEFT_ALT),
            0xE3u8 => Some(KeyboardKey::LEFT_GUI),
            0xE4u8 => Some(KeyboardKey::RIGHT_CONTROL),
            0xE5u8 => Some(KeyboardKey::RIGHT_SHIFT),
            0xE6u8 => Some(KeyboardKey::RIGHT_ALT),
            0xE7u8 => Some(KeyboardKey::RIGHT_GUI),
            _ => None,
        }
    }
}

/// A mouse button.
#[derive(Debug, Clone, Copy, PartialEq, Eq, Structural)]
pub enum MouseButton {
    Left,
    Right,
    Middle,
    Back,
    Forward,
}

/// A scroll of the mouse wheels.
#[derive(Debug, Clone, Copy, PartialEq, Eq, Structural)]
pub struct MouseScroll {
    pub x: i32,
    pub y: i32,
}

/// A relative movement of the mouse cursor.
#[derive(Debug, Clone, Copy, PartialEq, Eq, Structural)]
pub struct MouseMove {
    pub x: i32,
    pub y: i32,
}

/// Something the mouse does.
#[derive(Debug, Clone, Copy, PartialEq, Eq, Structural)]
pub enum MouseEvent {
    ButtonDown(MouseButton),
    ButtonUp(MouseButton),
    Scroll(MouseScroll),
    Move(MouseMove),
}

/// A consumer-control usage (media keys).
#[allow(non_camel_case_types)]
#[derive(Debug, Clone, Copy, PartialEq, Eq, Structural)]
pub enum ConsumerControlEvent {
    RECORD,
    FAST_FORWARD,
    REWIND,
    SCAN_NEXT_TRACK,
    SCAN_PREVIOUS_TRACK,
    STOP,
    EJECT,
    PLAY_PAUSE,
    MUTE,
    VOLUME_DECREMENT,
    VOLUME_INCREMENT,
}

/// Sets or clears an internal layer tag.
#[derive(Debug, Clone)]
pub enum LayerEvent {
    Clear(LayerTag),
    Add(LayerTag),
}

impl LayerEvent {
    /// A copy of this event.
    pub fn duplicate(&self) -> (r: LayerEvent)
        ensures
            r == *self,
    {
        match self {
            LayerEvent::Clear(t) => LayerEvent::Clear(t.duplicate()),
            LayerEvent::Add(t) => LayerEvent::Add(t.duplicate()),
        }
    }
}

/// A diagnostic event.
#[derive(Debug, Clone)]
pub enum DebugEvent {
    Log(String),
}

impl DebugEvent {
    /// A copy of this event.
    pub fn duplicate(&self) -> (r: DebugEvent)
        ensures
            r == *self,
    {
        match self {
            DebugEvent::Log(s) => DebugEvent::Log(s.clone()),
        }
    }
}

/// What an action does when it plays.
#[derive(Debug, Clone)]
pub enum ActionEvent {
    Nothing,
    Keyboard(KeyboardEvent),
    Mouse(MouseEvent),
    ConsumerControl(ConsumerControlEvent),
    Layer(LayerEvent),
    DebugAction(DebugEvent),
}

impl ActionEvent {
    /// A copy of this event.
    pub fn duplicate(&self) -> (r: ActionEvent)
        ensures
            r == *self,
    {
        match self {
            ActionEvent::Nothing => ActionEvent::Nothing,
            ActionEvent::Keyboard(e) => ActionEvent::Keyboard(*e),
            ActionEvent::Mouse(e) => ActionEvent::Mouse(*e),
            ActionEvent::ConsumerControl(e) => ActionEvent::ConsumerControl(*e),
            ActionEvent::Layer(e) => ActionEvent::Layer(e.duplicate()),
            ActionEvent::DebugAction(e) => ActionEvent::DebugAction(e.duplicate()),
        }
    }
}

/// An event that plays once `predelay_ms` milliseconds have passed since the previous one.
#[derive(Debug, Clone)]
pub struct Action {
    pub predelay_ms: u64,
    pub action_event: ActionEvent,
}

impl Action {
    /// A copy of this action.
    pub fn duplicate(&self) -> (r: Action)
        ensures
            r == *self,
    {
        Action { predelay_ms: self.predelay_ms, action_event: self.action_event.duplicate() }
    }
}

/// An ordered list of timed actions.
#[derive(Debug, Clone)]
pub struct Sequence {
    pub actions: Vec<Action>,
}

/// A copy of `v`, element by element.
pub fn duplicate_actions(v: &Vec<Action>) -> (r: Vec<Action>)
    ensures
        r@ == v@,
{
    let mut r: Vec<Action> = Vec::new();
    let mut i: usize = 0;
    while i < v.len()
        invariant
            i <= v.len(),
            r@ == v@.subrange(0, i as int),
        decreases v.len() - i,
    {
        r.push(v[i].duplicate());
        i = i + 1;
    }
    proof {
        assert(v@.subrange(0, v@.len() as int) =~= v@);
    }
    r
}

impl Default for Sequence {
    /// A sequence with no actions.
    fn default() -> (r: Sequence)
        ensures
            r.actions@.len() == 0,
    {
        Sequence { actions: Vec::new() }
    }
}

impl Sequence {
    /// A copy of this sequence.
    pub fn duplicate(&self) -> (r: Sequence)
        ensures
            r.actions@ == self.actions@,
    {
        Sequence { actions: duplicate_actions(&self.actions) }
    }
}

/// A macro: three timed sequences played on a trigger, held, and released.
#[derive(Debug, Clone)]
pub struct Macro {
    pub id: MacroId,
    pub name: String,
    pub play_channel: Option<Channel>,
    pub cut_channels: Vec<Channel>,
    pub start_sequence: Sequence,
    pub loop_sequence: Sequence,
    pub end_sequence: Sequence,
}

impl Macro {
    /// A copy of this macro.
    pub fn duplicate(&self) -> (r: Macro)
        ensures
            r.id == self.id,
            r.name@ == self.name@,
            r.play_channel == self.play_channel,
            r.cut_channels@ == self.cut_channels@,
            r.start_sequence.actions@ == self.start_sequence.actions@,
            r.loop_sequence.actions@ == self.loop_sequence.actions@,
            r.end_sequence.actions@ == self.end_sequence.actions@,
    {
        Macro {
            id: self.id,
            name: self.name.clone(),
            play_channel: self.play_channel,
            cut_channels: self.cut_channels.clone(),
            start_sequence: self.start_sequence.duplicate(),
            loop_sequence: self.loop_sequence.duplicate(),
            end_sequence: self.end_sequence.duplicate(),
        }
    }
}

/// A layer of a key: its identity and the macros it binds, by index into the profile.
#[derive(Debug, Clone)]
pub struct DeviceKeyLayer {
    pub id: LayerId,
    pub macros: Vec<MacroIndex>,
}

/// The views of a list of tags.
pub open spec fn tag_views(tags: Seq<LayerTag>) -> Seq<Seq<char>> {
    tags.map_values(|t: LayerTag| t@)
}

/// A layer that is active when its tags match.
#[derive(Debug, Clone)]
pub struct TaggedDeviceKeyLayer {
    pub tags: Vec<LayerTag>,
    pub match_type: TagMatchType,
    pub layer: DeviceKeyLayer,
}

impl TaggedDeviceKeyLayer {
    /// Whether this layer's tags match the active tags `v`.
    pub open spec fn spec_is_match(&self, v: (Seq<Seq<char>>, Seq<Seq<char>>)) -> bool {
        tags_match(v, tag_views(self.tags@), self.match_type)
    }

    fn is_match(&self, tags: &TagList) -> (r: bool)
        ensures
            r == self.spec_is_match(tags@),
    {
        tags.matches(self.tags.as_slice(), &self.match_type)
    }
}

/// The position of the first layer of `layers`, from position `i` on, that matches `v`.
pub open spec fn active_index_from(
    layers: Seq<TaggedDeviceKeyLayer>,
    v: (Seq<Seq<char>>, Seq<Seq<char>>),
    i: int,
) -> Option<int>
    decreases layers.len() - i,
{
    if i < 0 || i >= layers.len() {
        None
    } else if layers[i].spec_is_match(v) {
        Some(i)
    } else {
        active_index_from(layers, v, i + 1)
    }
}

/// The layer table of a key: tagged layers in order of precedence, and the default layer.
#[derive(Debug, Clone)]
pub struct DeviceLayers {
    pub layers: Vec<TaggedDeviceKeyLayer>,
    pub default_layer: DeviceKeyLayer,
}

impl DeviceLayers {
    /// The position of the active tagged layer under `v`, or `None` for the default layer.
    pub open spec fn spec_active_index(&self, v: (Seq<Seq<char>>, Seq<Seq<char>>)) -> Option<int> {
        active_index_from(self.layers@, v, 0)
    }

    /// The layer at position `sel`, or the default layer.
    pub open spec fn layer_at(&self, sel: Option<int>) -> DeviceKeyLayer {
        match sel {
            Some(i) => self.layers@[i].layer,
            None => self.default_layer,
        }
    }

    /// The layer that is active under tags `v`: the first tagged layer whose tags match,
    /// else the default layer.
    pub open spec fn spec_active_layer(&self, v: (Seq<Seq<char>>, Seq<Seq<char>>)) -> DeviceKeyLayer {
        self.layer_at(self.spec_active_index(v))
    }

    pub fn get_active_layer(&self, tags: &TagList) -> (r: &DeviceKeyLayer)
        ensures
            *r == self.spec_active_layer(tags@),
    {
        match self.active_index(tags) {
            Some(i) => &self.layers[i].layer,
            None => &self.default_layer,
        }
    }

    /// The position of the active tagged layer under `tags`, or `None` for the default layer.
    pub fn active_index(&self, tags: &TagList) -> (r: Option<usize>)
        ensures
            r matches Some(i) ==> i < self.layers@.len(),
            self.spec_active_index(tags@) == match r {
                Some(i) => Some(i as int),
                None => None,
            },
    {
        let mut i: usize = 0;
        while i < self.layers.len()
            invariant
                i <= self.layers@.len(),
                active_index_from(self.layers@, tags@, 0) == active_index_from(
                    self.layers@,
                    tags@,
                    i as int,
                ),
            decreases self.layers.len() - i,
        {
            if self.layers[i].is_match(tags) {
                return Some(i);
            }
            i = i + 1;
        }
        None
    }

    /// The layer at position `sel`, or the default layer.
    pub fn layer(&self, sel: Option<usize>) -> (r: &DeviceKeyLayer)
        requires
            sel matches Some(i) ==> i < self.layers@.len(),
        ensures
            *r == self.layer_at(
                match sel {
                    Some(i) => Some(i as int),
                    None => None,
                },
            ),
    {
        match sel {
            Some(i) => &self.layers[i].layer,
            None => &self.default_layer,
        }
    }
}

/// A physical key of the device.
#[derive(Debug, Clone)]
pub struct DeviceKey {
    pub id: KeyId,
    pub layers: DeviceLayers,
}

/// A key toggled by software, addressed by its position.
#[derive(Debug, Clone)]
pub struct VirtualKey {
    pub layers: DeviceLayers,
}

/// A complete keyboard configuration.
#[derive(Debug, Clone)]
pub struct KeyboardProfile {
    pub name: String,
    pub keys: Vec<DeviceKey>,
    pub virtual_keys: Vec<VirtualKey>,
    pub macros: Vec<Macro>,
}

impl Default for KeyboardProfile {
    /// An empty profile: no name, no keys, no macros.
    fn default() -> (r: KeyboardProfile)
        ensures
            r.name@.len() == 0,
            r.keys@.len() == 0,
            r.virtual_keys@.len() == 0,
            r.macros@.len() == 0,
    {
        KeyboardProfile {
            name: String::new(),
            keys: Vec::new(),
            virtual_keys: Vec::new(),
            macros: Vec::new(),
        }
    }
}

} // verus!
