//! Macro and layer engine of a programmable keyboard, with HID report state.

pub mod decode;
pub mod device;
pub mod hid;
pub mod input;
pub mod keyboard;
pub mod macros;
pub mod profile;
pub mod sequence;
pub mod serial;
pub mod storage;
pub mod tags;
pub mod time;
