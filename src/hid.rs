//! HID report state: what the keyboard, mouse and media keys report to the host.
use vstd::prelude::*;
use crate::profile::{
    ConsumerControlEvent, KeyboardEvent, KeyboardKey, MouseButton, MouseEvent,
};

verus! {

/// The reports produced for one flush, per device.
pub struct HidReport {
    pub keyboard: Option<Vec<u8>>,
    pub mouse: Option<Vec<u8>>,
    pub consumer: Option<Vec<u8>>,
}

/// Something that turns action events into HID reports.
pub trait ReportHid {
    fn report_keyboard(&mut self, report: &KeyboardEvent);

    fn report_mouse(&mut self, report: &MouseEvent);

    fn report_consumer(&mut self, report: &ConsumerControlEvent);

    fn flush(&mut self);

    fn reset(&mut self);
}

/// A keyboard that reports keyboard events.
pub trait HidKeyboard {
    fn report(&mut self, event: &KeyboardEvent);
}

/// A mouse that reports mouse events.
pub trait HidMouse {
    fn report(&mut self, event: &MouseEvent);
}

/// A consumer control that reports media-key events.
pub trait HidConsumerControl {
    fn report(&mut self, event: &ConsumerControlEvent);
}

/// The state of a HID device fed with inputs of type `I`.
pub trait HidDevice<I> {
    /// The report of the current state, if there is one to send.
    fn create_report(&mut self) -> Option<Vec<u8>>;

    fn input(&mut self, input: &I);

    fn reset(&mut self);

    /// The length of a report.
    fn size() -> usize;
}

/// The report descriptor of the keyboard: a modifier byte, a 128-key bitmap, and LED outputs.
pub open spec fn nkro_descriptor() -> Seq<u8> {
    seq![
        0x05u8, 0x01u8, 0x09u8, 0x06u8, 0xA1u8, 0x01u8, 0x75u8, 0x01u8, 0x95u8, 0x08u8,
        0x05u8, 0x07u8, 0x19u8, 0xE0u8, 0x29u8, 0xE7u8, 0x15u8, 0x00u8, 0x25u8, 0x01u8,
        0x81u8, 0x02u8, 0x75u8, 0x01u8, 0x95u8, 0x80u8, 0x05u8, 0x07u8, 0x19u8, 0x00u8,
        0x29u8, 0x7Fu8, 0x15u8, 0x00u8, 0x25u8, 0x01u8, 0x81u8, 0x02u8, 0x75u8, 0x01u8,
        0x95u8, 0x05u8, 0x05u8, 0x08u8, 0x19u8, 0x01u8, 0x29u8, 0x05u8, 0x91u8, 0x02u8,
        0x75u8, 0x03u8, 0x95u8, 0x01u8, 0x91u8, 0x03u8, 0xC0u8,
    ]
}

/// The report descriptor of the mouse: five buttons, X and Y, and two wheels.
pub open spec fn mouse_descriptor() -> Seq<u8> {
    seq![
        0x05u8, 0x01u8, 0x09u8, 0x02u8, 0xA1u8, 0x01u8, 0x09u8, 0x01u8, 0xA1u8, 0x00u8,
        0x05u8, 0x09u8, 0x19u8, 0x01u8, 0x29u8, 0x05u8, 0x15u8, 0x00u8, 0x25u8, 0x01u8,
        0x95u8, 0x05u8, 0x75u8, 0x01u8, 0x81u8, 0x02u8, 0x95u8, 0x03u8, 0x75u8, 0x01u8,
        0x81u8, 0x03u8, 0x05u8, 0x01u8, 0x09u8, 0x30u8, 0x09u8, 0x31u8, 0x15u8, 0x81u8,
        0x25u8, 0x7Fu8, 0x75u8, 0x08u8, 0x95u8, 0x02u8, 0x81u8, 0x06u8, 0x09u8, 0x38u8,
        0x15u8, 0x81u8, 0x25u8, 0x7Fu8, 0x75u8, 0x08u8, 0x95u8, 0x01u8, 0x81u8, 0x06u8,
        0x09u8, 0x48u8, 0x15u8, 0x81u8, 0x25u8, 0x7Fu8, 0x75u8, 0x08u8, 0x95u8, 0x01u8,
        0x81u8, 0x06u8, 0xC0u8, 0xC0u8,
    ]
}

/// The report descriptor of the scroll device: five buttons and two wheels.
pub open spec fn scroll_descriptor() -> Seq<u8> {
    seq![
        0x05u8, 0x01u8, 0x09u8, 0x0Eu8, 0xA1u8, 0x01u8, 0x09u8, 0x01u8, 0xA1u8, 0x00u8,
        0x05u8, 0x09u8, 0x19u8, 0x01u8, 0x29u8, 0x05u8, 0x15u8, 0x00u8, 0x25u8, 0x01u8,
        0x95u8, 0x05u8, 0x75u8, 0x01u8, 0x81u8, 0x02u8, 0x95u8, 0x03u8, 0x75u8, 0x01u8,
        0x81u8, 0x03u8, 0x09u8, 0x38u8, 0x15u8, 0x81u8, 0x25u8, 0x7Fu8, 0x75u8, 0x08u8,
        0x95u8, 0x01u8, 0x81u8, 0x06u8, 0x09u8, 0x48u8, 0x15u8, 0x81u8, 0x25u8, 0x7Fu8,
        0x75u8, 0x08u8, 0x95u8, 0x01u8, 0x81u8, 0x06u8, 0xC0u8, 0xC0u8,
    ]
}

/// The report descriptor of the consumer control: a bitmap of usages.
pub open spec fn consumer_descriptor() -> Seq<u8> {
    seq![
        0x05u8, 0x0Cu8, 0x09u8, 0x01u8, 0xA1u8, 0x01u8, 0x19u8, 0x00u8, 0x2Au8, 0xFFu8,
        0x00u8, 0x15u8, 0x00u8, 0x25u8, 0x01u8, 0x75u8, 0x01u8, 0x95u8, 0x00u8, 0x81u8,
        0x02u8, 0xC0u8,
    ]
}

/// Where the state of key `code` sits in a keyboard report: modifiers (0xE0 to 0xE7) in
/// byte 0, one bit each; other keys in the bitmap that follows, `code / 8 + 1`, bit `code % 8`.
pub open spec fn key_slot(code: u8) -> (int, u8) {
    if 0xE0 <= code <= 0xE7 {
        (0, (code - 0xE0) as u8)
    } else {
        (code / 8 + 1, code % 8)
    }
}

/// `b` with bit `k` set when `on`, cleared otherwise.
pub open spec fn with_bit(b: u8, k: u8, on: bool) -> u8 {
    if on {
        b | (1u8 << k)
    } else {
        b & !(1u8 << k)
    }
}

pub const NKRO_REPORT_SIZE: usize = 17;

/// An n-key-rollover keyboard: a modifier byte and a bitmap of the keys held.
pub struct NKROKeyboard {
    state: Vec<u8>,
}

impl View for NKROKeyboard {
    type V = Seq<u8>;

    closed spec fn view(&self) -> Seq<u8> {
        self.state@
    }
}

impl NKROKeyboard {
    pub open spec fn wf(&self) -> bool {
        self@.len() == NKRO_REPORT_SIZE
    }

    /// A keyboard with no key held.
    pub fn new() -> (r: NKROKeyboard)
        ensures
            r.wf(),
            r@ == Seq::new(NKRO_REPORT_SIZE as nat, |i: int| 0u8),
    {
        NKROKeyboard { state: zeroes(NKRO_REPORT_SIZE) }
    }

    /// The report: the whole state.
    pub fn create_report(&mut self) -> (r: Option<Vec<u8>>)
        ensures
            *final(self) == *old(self),
            r matches Some(v) && v@ == old(self)@,
    {
        Some(self.state.clone())
    }

    /// Sets the bit of the key pressed, or clears the bit of the key released.
    pub fn input(&mut self, input: &KeyboardEvent)
        requires
            old(self).wf(),
        ensures
            final(self).wf(),
            ({
                let (key, on) = match *input {
                    KeyboardEvent::KeyDown(k) => (k, true),
                    KeyboardEvent::KeyUp(k) => (k, false),
                };
                let (byte, bit) = key_slot(key.spec_code());
                final(self)@ == old(self)@.update(byte, with_bit(old(self)@[byte], bit, on))
            }),
    {
        let (key, on) = match input {
            KeyboardEvent::KeyDown(k) => (*k, true),
            KeyboardEvent::KeyUp(k) => (*k, false),
        };
        let keycode = key.code();
        let (byte, bit): (usize, u8) = if 0xE0 <= keycode && keycode <= 0xE7 {
            (0, keycode - 0xE0)
        } else {
            proof {
                assert(keycode <= 0x76) by {
                    reveal(KeyboardKey::spec_code);
                }
            }
            ((keycode / 8) as usize + 1, keycode % 8)
        };
        let old_byte = self.state[byte];
        let new_byte = if on {
            old_byte | (1u8 << bit)
        } else {
            old_byte & !(1u8 << bit)
        };
        self.state.set(byte, new_byte);
    }

    /// Releases every key.
    pub fn reset(&mut self)
        ensures
            final(self).wf(),
            final(self)@ == Seq::new(NKRO_REPORT_SIZE as nat, |i: int| 0u8),
    {
        self.state = zeroes(NKRO_REPORT_SIZE);
    }

    pub fn report_descriptor() -> (r: Vec<u8>)
        ensures
            r@ == nkro_descriptor(),
    {
        let r = vec![
            0x05u8, 0x01u8, 0x09u8, 0x06u8, 0xA1u8, 0x01u8, 0x75u8, 0x01u8, 0x95u8, 0x08u8,
            0x05u8, 0x07u8, 0x19u8, 0xE0u8, 0x29u8, 0xE7u8, 0x15u8, 0x00u8, 0x25u8, 0x01u8,
            0x81u8, 0x02u8, 0x75u8, 0x01u8, 0x95u8, 0x80u8, 0x05u8, 0x07u8, 0x19u8, 0x00u8,
            0x29u8, 0x7Fu8, 0x15u8, 0x00u8, 0x25u8, 0x01u8, 0x81u8, 0x02u8, 0x75u8, 0x01u8,
            0x95u8, 0x05u8, 0x05u8, 0x08u8, 0x19u8, 0x01u8, 0x29u8, 0x05u8, 0x91u8, 0x02u8,
            0x75u8, 0x03u8, 0x95u8, 0x01u8, 0x91u8, 0x03u8, 0xC0u8,
        ];
        proof {
            assert(r@ =~= nkro_descriptor());
        }
        r
    }
}

impl HidDevice<KeyboardEvent> for NKROKeyboard {
    fn create_report(&mut self) -> Option<Vec<u8>> {
        NKROKeyboard::create_report(self)
    }

    fn input(&mut self, input: &KeyboardEvent) {
        if self.state.len() == NKRO_REPORT_SIZE {
            NKROKeyboard::input(self, input)
        }
    }

    fn reset(&mut self) {
        NKROKeyboard::reset(self)
    }

    fn size() -> usize {
        NKRO_REPORT_SIZE
    }
}

/// `n` zero bytes.
fn zeroes(n: usize) -> (r: Vec<u8>)
    ensures
        r@ == Seq::new(n as nat, |i: int| 0u8),
{
    let mut r: Vec<u8> = Vec::new();
    let mut i: usize = 0;
    while i < n
        invariant
            i <= n,
            r@ == Seq::new(i as nat, |j: int| 0u8),
        decreases n - i,
    {
        r.push(0);
        proof {
            assert(r@ =~= Seq::new((i + 1) as nat, |j: int| 0u8));
        }
        i = i + 1;
    }
    r
}

pub const BUTTON_LEFT: u8 = 0b00000001;
pub const BUTTON_RIGHT: u8 = 0b00000010;
pub const BUTTON_MIDDLE: u8 = 0b00000100;
pub const BUTTON_BACK: u8 = 0b00001000;
pub const BUTTON_FORWARD: u8 = 0b00010000;

pub open spec fn button_mask(b: MouseButton) -> u8 {
    match b {
        MouseButton::Left => BUTTON_LEFT,
        MouseButton::Right => BUTTON_RIGHT,
        MouseButton::Middle => BUTTON_MIDDLE,
        MouseButton::Back => BUTTON_BACK,
        MouseButton::Forward => BUTTON_FORWARD,
    }
}

/// The bit of a mouse button in a report's button byte.
pub fn map_button(key: &MouseButton) -> (r: u8)
    ensures
        r == button_mask(*key),
{
    match key {
        MouseButton::Left => BUTTON_LEFT,
        MouseButton::Right => BUTTON_RIGHT,
        MouseButton::Middle => BUTTON_MIDDLE,
        MouseButton::Back => BUTTON_BACK,
        MouseButton::Forward => BUTTON_FORWARD,
    }
}

/// `a + b`, held within the range of `i32`.
pub open spec fn sat_add_i32(a: i32, b: i32) -> i32 {
    if a + b > i32::MAX {
        i32::MAX
    } else if a + b < i32::MIN {
        i32::MIN
    } else {
        (a + b) as i32
    }
}

fn saturating_add_i32(a: i32, b: i32) -> (r: i32)
    ensures
        r == sat_add_i32(a, b),
{
    let s: i64 = a as i64 + b as i64;
    if s > i32::MAX as i64 {
        i32::MAX
    } else if s < i32::MIN as i64 {
        i32::MIN
    } else {
        s as i32
    }
}

/// `v` held within -128 ..= 127.
pub open spec fn clamp_i8(v: i32) -> i32 {
    if v < -128 {
        -128i32
    } else if v > 127 {
        127i32
    } else {
        v
    }
}

/// The report byte of an axis: its value held within -128 ..= 127, in two's complement.
pub open spec fn axis_byte(v: i32) -> u8 {
    (clamp_i8(v) as i8) as u8
}

fn axis_to_byte(v: i32) -> (r: u8)
    ensures
        r == axis_byte(v),
{
    let c: i32 = if v < -128 {
        -128
    } else if v > 127 {
        127
    } else {
        v
    };
    (c as i8) as u8
}

pub const MOUSE_REPORT_SIZE: usize = 5;

/// A mouse: buttons held, and cursor movement and scrolling accumulated.
pub struct Mouse {
    buttons: u8,
    cursor: (i32, i32),
    scroll: (i32, i32),
}

impl Mouse {
    pub closed spec fn spec_buttons(&self) -> u8 {
        self.buttons
    }

    pub closed spec fn spec_cursor(&self) -> (i32, i32) {
        self.cursor
    }

    pub closed spec fn spec_scroll(&self) -> (i32, i32) {
        self.scroll
    }

    /// A mouse with no button held and nothing accumulated.
    pub fn new() -> (r: Mouse)
        ensures
            r.spec_buttons() == 0,
            r.spec_cursor() == (0i32, 0i32),
            r.spec_scroll() == (0i32, 0i32),
    {
        Mouse { buttons: 0, cursor: (0, 0), scroll: (0, 0) }
    }

    fn button_down(&mut self, button: u8)
        ensures
            final(self).spec_buttons() == old(self).spec_buttons() | button,
            final(self).spec_cursor() == old(self).spec_cursor(),
            final(self).spec_scroll() == old(self).spec_scroll(),
    {
        self.buttons = self.buttons | button;
    }

    fn button_up(&mut self, button: u8)
        ensures
            final(self).spec_buttons() == old(self).spec_buttons() & !button,
            final(self).spec_cursor() == old(self).spec_cursor(),
            final(self).spec_scroll() == old(self).spec_scroll(),
    {
        self.buttons = self.buttons & !button;
    }

    fn move_cursor(&mut self, x: i32, y: i32)
        ensures
            final(self).spec_buttons() == old(self).spec_buttons(),
            final(self).spec_cursor() == (
                sat_add_i32(old(self).spec_cursor().0, x),
                sat_add_i32(old(self).spec_cursor().1, y),
            ),
            final(self).spec_scroll() == old(self).spec_scroll(),
    {
        self.cursor = (saturating_add_i32(self.cursor.0, x), saturating_add_i32(self.cursor.1, y));
    }

    fn scroll(&mut self, x: i32, y: i32)
        ensures
            final(self).spec_buttons() == old(self).spec_buttons(),
            final(self).spec_cursor() == old(self).spec_cursor(),
            final(self).spec_scroll() == (
                sat_add_i32(old(self).spec_scroll().0, x),
                sat_add_i32(old(self).spec_scroll().1, y),
            ),
    {
        self.scroll = (saturating_add_i32(self.scroll.0, x), saturating_add_i32(self.scroll.1, y));
    }

    /// The report: buttons, cursor X and Y, then the two wheels, each axis held within a byte.
    pub fn create_report(&mut self) -> (r: Option<Vec<u8>>)
        ensures
            *final(self) == *old(self),
            r matches Some(v) && v@ == seq![
                old(self).spec_buttons(),
                axis_byte(old(self).spec_cursor().0),
                axis_byte(old(self).spec_cursor().1),
                axis_byte(old(self).spec_scroll().0),
                axis_byte(old(self).spec_scroll().1),
            ],
    {
        let r = vec![
            self.buttons,
            axis_to_byte(self.cursor.0),
            axis_to_byte(self.cursor.1),
            axis_to_byte(self.scroll.0),
            axis_to_byte(self.scroll.1),
        ];
        proof {
            assert(r@ =~= seq![
                self.buttons,
                axis_byte(self.cursor.0),
                axis_byte(self.cursor.1),
                axis_byte(self.scroll.0),
                axis_byte(self.scroll.1),
            ]);
        }
        Some(r)
    }

    /// A button press or release sets or clears its bit; a move or scroll accumulates.
    pub fn input(&mut self, input: &MouseEvent)
        ensures
            match *input {
                MouseEvent::ButtonDown(b) => final(self).spec_buttons() == old(self).spec_buttons()
                    | button_mask(b) && final(self).spec_cursor() == old(self).spec_cursor()
                    && final(self).spec_scroll() == old(self).spec_scroll(),
                MouseEvent::ButtonUp(b) => final(self).spec_buttons() == old(self).spec_buttons()
                    & !button_mask(b) && final(self).spec_cursor() == old(self).spec_cursor()
                    && final(self).spec_scroll() == old(self).spec_scroll(),
                MouseEvent::Move(m) => final(self).spec_buttons() == old(self).spec_buttons()
                    && final(self).spec_cursor() == (
                    sat_add_i32(old(self).spec_cursor().0, m.x),
                    sat_add_i32(old(self).spec_cursor().1, m.y),
                ) && final(self).spec_scroll() == old(self).spec_scroll(),
                MouseEvent::Scroll(s) => final(self).spec_buttons() == old(self).spec_buttons()
                    && final(self).spec_cursor() == old(self).spec_cursor()
                    && final(self).spec_scroll() == (
                    sat_add_i32(old(self).spec_scroll().0, s.x),
                    sat_add_i32(old(self).spec_scroll().1, s.y),
                ),
            },
    {
        match input {
            MouseEvent::ButtonDown(button) => self.button_down(map_button(button)),
            MouseEvent::ButtonUp(button) => self.button_up(map_button(button)),
            MouseEvent::Move(m) => self.move_cursor(m.x, m.y),
            MouseEvent::Scroll(s) => self.scroll(s.x, s.y),
        }
    }

    /// Releases every button and drops what was accumulated.
    pub fn reset(&mut self)
        ensures
            final(self).spec_buttons() == 0,
            final(self).spec_cursor() == (0i32, 0i32),
            final(self).spec_scroll() == (0i32, 0i32),
    {
        *self = Mouse::new();
    }

    pub fn report_descriptor() -> (r: Vec<u8>)
        ensures
            r@ == mouse_descriptor(),
    {
        let r = vec![
            0x05u8, 0x01u8, 0x09u8, 0x02u8, 0xA1u8, 0x01u8, 0x09u8, 0x01u8, 0xA1u8, 0x00u8,
            0x05u8, 0x09u8, 0x19u8, 0x01u8, 0x29u8, 0x05u8, 0x15u8, 0x00u8, 0x25u8, 0x01u8,
            0x95u8, 0x05u8, 0x75u8, 0x01u8, 0x81u8, 0x02u8, 0x95u8, 0x03u8, 0x75u8, 0x01u8,
            0x81u8, 0x03u8, 0x05u8, 0x01u8, 0x09u8, 0x30u8, 0x09u8, 0x31u8, 0x15u8, 0x81u8,
            0x25u8, 0x7Fu8, 0x75u8, 0x08u8, 0x95u8, 0x02u8, 0x81u8, 0x06u8, 0x09u8, 0x38u8,
            0x15u8, 0x81u8, 0x25u8, 0x7Fu8, 0x75u8, 0x08u8, 0x95u8, 0x01u8, 0x81u8, 0x06u8,
            0x09u8, 0x48u8, 0x15u8, 0x81u8, 0x25u8, 0x7Fu8, 0x75u8, 0x08u8, 0x95u8, 0x01u8,
            0x81u8, 0x06u8, 0xC0u8, 0xC0u8,
        ];
        proof {
            assert(r@ =~= mouse_descriptor());
        }
        r
    }
}

impl HidDevice<MouseEvent> for Mouse {
    fn create_report(&mut self) -> Option<Vec<u8>> {
        Mouse::create_report(self)
    }

    fn input(&mut self, input: &MouseEvent) {
        Mouse::input(self, input)
    }

    fn reset(&mut self) {
        Mouse::reset(self)
    }

    fn size() -> usize {
        MOUSE_REPORT_SIZE
    }
}

pub const SCROLL_REPORT_SIZE: usize = 3;

/// A scroll device: buttons held and scrolling accumulated; cursor moves are ignored.
pub struct Scroll {
    buttons: u8,
    scroll: (i32, i32),
}

impl Scroll {
    pub closed spec fn spec_buttons(&self) -> u8 {
        self.buttons
    }

    pub closed spec fn spec_scroll(&self) -> (i32, i32) {
        self.scroll
    }

    /// A scroll device with no button held and nothing accumulated.
    pub fn new() -> (r: Scroll)
        ensures
            r.spec_buttons() == 0,
            r.spec_scroll() == (0i32, 0i32),
    {
        Scroll { buttons: 0, scroll: (0, 0) }
    }

    fn button_down(&mut self, button: u8)
        ensures
            final(self).spec_buttons() == old(self).spec_buttons() | button,
            final(self).spec_scroll() == old(self).spec_scroll(),
    {
        self.buttons = self.buttons | button;
    }

    fn button_up(&mut self, button: u8)
        ensures
            final(self).spec_buttons() == old(self).spec_buttons() & !button,
            final(self).spec_scroll() == old(self).spec_scroll(),
    {
        self.buttons = self.buttons & !button;
    }

    fn scroll(&mut self, x: i32, y: i32)
        ensures
            final(self).spec_buttons() == old(self).spec_buttons(),
            final(self).spec_scroll() == (
                sat_add_i32(old(self).spec_scroll().0, x),
                sat_add_i32(old(self).spec_scroll().1, y),
            ),
    {
        self.scroll = (saturating_add_i32(self.scroll.0, x), saturating_add_i32(self.scroll.1, y));
    }

    /// The report: buttons, then the two wheels, each held within a byte.
    pub fn create_report(&mut self) -> (r: Option<Vec<u8>>)
        ensures
            *final(self) == *old(self),
            r matches Some(v) && v@ == seq![
                old(self).spec_buttons(),
                axis_byte(old(self).spec_scroll().0),
                axis_byte(old(self).spec_scroll().1),
            ],
    {
        let r = vec![self.buttons, axis_to_byte(self.scroll.0), axis_to_byte(self.scroll.1)];
        proof {
            assert(r@ =~= seq![
                self.buttons,
                axis_byte(self.scroll.0),
                axis_byte(self.scroll.1),
            ]);
        }
        Some(r)
    }

    /// A button press or release sets or clears its bit; a scroll accumulates.
    pub fn input(&mut self, input: &MouseEvent)
        ensures
            match *input {
                MouseEvent::ButtonDown(b) => final(self).spec_buttons() == old(self).spec_buttons()
                    | button_mask(b) && final(self).spec_scroll() == old(self).spec_scroll(),
                MouseEvent::ButtonUp(b) => final(self).spec_buttons() == old(self).spec_buttons()
                    & !button_mask(b) && final(self).spec_scroll() == old(self).spec_scroll(),
                MouseEvent::Move(_) => *final(self) == *old(self),
                MouseEvent::Scroll(s) => final(self).spec_buttons() == old(self).spec_buttons()
                    && final(self).spec_scroll() == (
                    sat_add_i32(old(self).spec_scroll().0, s.x),
                    sat_add_i32(old(self).spec_scroll().1, s.y),
                ),
            },
    {
        match input {
            MouseEvent::ButtonDown(button) => self.button_down(map_button(button)),
            MouseEvent::ButtonUp(button) => self.button_up(map_button(button)),
            MouseEvent::Move(_) => {},
            MouseEvent::Scroll(s) => self.scroll(s.x, s.y),
        }
    }

    /// Releases every button and drops what was accumulated.
    pub fn reset(&mut self)
        ensures
            final(self).spec_buttons() == 0,
            final(self).spec_scroll() == (0i32, 0i32),
    {
        *self = Scroll::new();
    }

    pub fn report_descriptor() -> (r: Vec<u8>)
        ensures
            r@ == scroll_descriptor(),
    {
        let r = vec![
            0x05u8, 0x01u8, 0x09u8, 0x0Eu8, 0xA1u8, 0x01u8, 0x09u8, 0x01u8, 0xA1u8, 0x00u8,
            0x05u8, 0x09u8, 0x19u8, 0x01u8, 0x29u8, 0x05u8, 0x15u8, 0x00u8, 0x25u8, 0x01u8,
            0x95u8, 0x05u8, 0x75u8, 0x01u8, 0x81u8, 0x02u8, 0x95u8, 0x03u8, 0x75u8, 0x01u8,
            0x81u8, 0x03u8, 0x09u8, 0x38u8, 0x15u8, 0x81u8, 0x25u8, 0x7Fu8, 0x75u8, 0x08u8,
            0x95u8, 0x01u8, 0x81u8, 0x06u8, 0x09u8, 0x48u8, 0x15u8, 0x81u8, 0x25u8, 0x7Fu8,
            0x75u8, 0x08u8, 0x95u8, 0x01u8, 0x81u8, 0x06u8, 0xC0u8, 0xC0u8,
        ];
        proof {
            assert(r@ =~= scroll_descriptor());
        }
        r
    }
}

impl HidDevice<MouseEvent> for Scroll {
    fn create_report(&mut self) -> Option<Vec<u8>> {
        Scroll::create_report(self)
    }

    fn input(&mut self, input: &MouseEvent) {
        Scroll::input(self, input)
    }

    fn reset(&mut self) {
        Scroll::reset(self)
    }

    fn size() -> usize {
        SCROLL_REPORT_SIZE
    }
}

pub const CONSUMER_CONTROL_REPORT_SIZE: usize = 32;

/// The consumer-page usage of a media-key event.
pub open spec fn cc_usage(key: ConsumerControlEvent) -> u16 {
    match key {
        ConsumerControlEvent::RECORD => 0xB2,
        ConsumerControlEvent::FAST_FORWARD => 0xB3,
        ConsumerControlEvent::REWIND => 0xB4,
        ConsumerControlEvent::SCAN_NEXT_TRACK => 0xB5,
        ConsumerControlEvent::SCAN_PREVIOUS_TRACK => 0xB6,
        ConsumerControlEvent::STOP => 0xB7,
        ConsumerControlEvent::EJECT => 0xB8,
        ConsumerControlEvent::PLAY_PAUSE => 0xCD,
        ConsumerControlEvent::MUTE => 0xE2,
        ConsumerControlEvent::VOLUME_DECREMENT => 0xEA,
        ConsumerControlEvent::VOLUME_INCREMENT => 0xE9,
    }
}

/// The consumer-page usage of a media-key event.
pub fn map_cc(key: &ConsumerControlEvent) -> (r: u16)
    ensures
        r == cc_usage(*key),
{
    match key {
        ConsumerControlEvent::RECORD => 0xB2,
        ConsumerControlEvent::FAST_FORWARD => 0xB3,
        ConsumerControlEvent::REWIND => 0xB4,
        ConsumerControlEvent::SCAN_NEXT_TRACK => 0xB5,
        ConsumerControlEvent::SCAN_PREVIOUS_TRACK => 0xB6,
        ConsumerControlEvent::STOP => 0xB7,
        ConsumerControlEvent::EJECT => 0xB8,
        ConsumerControlEvent::PLAY_PAUSE => 0xCD,
        ConsumerControlEvent::MUTE => 0xE2,
        ConsumerControlEvent::VOLUME_DECREMENT => 0xEA,
        ConsumerControlEvent::VOLUME_INCREMENT => 0xE9,
    }
}

/// Media keys: a bitmap of the usages reported since the last report, if any.
pub struct ConsumerControl {
    state: Option<Vec<u8>>,
}

impl View for ConsumerControl {
    type V = Option<Seq<u8>>;

    closed spec fn view(&self) -> Option<Seq<u8>> {
        match self.state {
            Some(v) => Some(v@),
            None => None,
        }
    }
}

impl ConsumerControl {
    pub open spec fn wf(&self) -> bool {
        self@ matches Some(s) ==> s.len() == CONSUMER_CONTROL_REPORT_SIZE
    }

    /// Media keys with nothing to report.
    pub fn new() -> (r: ConsumerControl)
        ensures
            r.wf(),
            r@ is None,
    {
        ConsumerControl { state: None }
    }

    fn get_state_or_new(&mut self)
        requires
            old(self).wf(),
        ensures
            final(self).wf(),
            final(self)@ == match old(self)@ {
                Some(s) => Some(s),
                None => Some(Seq::new(CONSUMER_CONTROL_REPORT_SIZE as nat, |i: int| 0u8)),
            },
    {
        if self.state.is_none() {
            self.state = Some(zeroes(CONSUMER_CONTROL_REPORT_SIZE));
        }
    }

    /// The report, if a usage was reported since the last one; the state is then cleared.
    pub fn create_report(&mut self) -> (r: Option<Vec<u8>>)
        ensures
            final(self)@ is None,
            match r {
                Some(v) => old(self)@ == Some(v@),
                None => old(self)@ is None,
            },
    {
        let r = self.state.take();
        proof {
            assert(self@ is None);
        }
        r
    }

    /// Sets the bit of the usage of `input`.
    pub fn input(&mut self, input: &ConsumerControlEvent)
        requires
            old(self).wf(),
        ensures
            final(self).wf(),
            ({
                let s = match old(self)@ {
                    Some(s) => s,
                    None => Seq::new(CONSUMER_CONTROL_REPORT_SIZE as nat, |i: int| 0u8),
                };
                let u = cc_usage(*input);
                final(self)@ == Some(
                    s.update((u / 8) as int, with_bit(s[(u / 8) as int], (u % 8) as u8, true)),
                )
            }),
    {
        self.get_state_or_new();
        let usage = map_cc(input) as u8;
        let byte_index = (usage / 8) as usize;
        let bit_index = usage % 8;
        let mut state = self.state.take().unwrap();
        let old_byte = state[byte_index];
        state.set(byte_index, old_byte | (1u8 << bit_index));
        self.state = Some(state);
    }

    /// Drops what was reported.
    pub fn reset(&mut self)
        ensures
            final(self)@ is None,
    {
        self.state = None;
    }

    pub fn report_descriptor() -> (r: Vec<u8>)
        ensures
            r@ == consumer_descriptor(),
    {
        let r = vec![
            0x05u8, 0x0Cu8, 0x09u8, 0x01u8, 0xA1u8, 0x01u8, 0x19u8, 0x00u8, 0x2Au8, 0xFFu8,
            0x00u8, 0x15u8, 0x00u8, 0x25u8, 0x01u8, 0x75u8, 0x01u8, 0x95u8, 0x00u8, 0x81u8,
            0x02u8, 0xC0u8,
        ];
        proof {
            assert(r@ =~= consumer_descriptor());
        }
        r
    }
}

impl HidDevice<ConsumerControlEvent> for ConsumerControl {
    fn create_report(&mut self) -> Option<Vec<u8>> {
        ConsumerControl::create_report(self)
    }

    fn input(&mut self, input: &ConsumerControlEvent) {
        let ok = match &self.state {
            Some(v) => v.len() == CONSUMER_CONTROL_REPORT_SIZE,
            None => true,
        };
        if ok {
            ConsumerControl::input(self, input)
        }
    }

    fn reset(&mut self) {
        ConsumerControl::reset(self)
    }

    fn size() -> usize {
        CONSUMER_CONTROL_REPORT_SIZE
    }
}

} // verus!
