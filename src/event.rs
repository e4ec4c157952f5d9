//! Decoding of raw X11 events.
//!
//! The client library hands out every event as a 96-byte block whose first
//! four bytes are the event's kind. The layouts below are those of Xlib on a
//! 64-bit little-endian machine; each kind is decoded once, here, into a
//! tagged [`Event`] that the rest of the program matches on.
use vstd::prelude::*;

verus! {

/// Number of bytes of one raw event.
pub const EVENT_BYTES: usize = 96;

pub const KEY_PRESS: i32 = 2;
pub const KEY_RELEASE: i32 = 3;
pub const BUTTON_PRESS: i32 = 4;
pub const BUTTON_RELEASE: i32 = 5;
pub const MOTION_NOTIFY: i32 = 6;
pub const EXPOSE: i32 = 12;
pub const DESTROY_NOTIFY: i32 = 17;
pub const MAP_NOTIFY: i32 = 19;

/// The unsigned value of the four bytes of `s` at `off`, least significant first.
pub open spec fn le_u32_at(s: Seq<u8>, off: int) -> int {
    s[off] as int + s[off + 1] as int * 0x100 + s[off + 2] as int * 0x1_0000 + s[off + 3] as int
        * 0x100_0000
}

/// The unsigned value of the eight bytes of `s` at `off`, least significant first.
pub open spec fn le_u64_at(s: Seq<u8>, off: int) -> int {
    le_u32_at(s, off) + le_u32_at(s, off + 4) * 0x1_0000_0000
}

/// The two's-complement value of the four bytes of `s` at `off`.
pub open spec fn le_i32_at(s: Seq<u8>, off: int) -> int {
    let u = le_u32_at(s, off);
    if u < 0x8000_0000 {
        u
    } else {
        u - 0x1_0000_0000
    }
}

/// The two's-complement value of the byte of `s` at `off`.
pub open spec fn i8_at(s: Seq<u8>, off: int) -> int {
    if s[off] < 0x80 {
        s[off] as int
    } else {
        s[off] - 0x100
    }
}

fn read_u32(data: &[u8; 96], off: usize) -> (r: u32)
    requires
        off + 4 <= EVENT_BYTES,
    ensures
        r as int == le_u32_at(data@, off as int),
{
    data[off] as u32 + data[off + 1] as u32 * 0x100 + data[off + 2] as u32 * 0x1_0000
        + data[off + 3] as u32 * 0x100_0000
}

fn read_u64(data: &[u8; 96], off: usize) -> (r: u64)
    requires
        off + 8 <= EVENT_BYTES,
    ensures
        r as int == le_u64_at(data@, off as int),
{
    let lo = read_u32(data, off);
    let hi = read_u32(data, off + 4);
    lo as u64 + hi as u64 * 0x1_0000_0000
}

fn read_i32(data: &[u8; 96], off: usize) -> (r: i32)
    requires
        off + 4 <= EVENT_BYTES,
    ensures
        r as int == le_i32_at(data@, off as int),
{
    let u = read_u32(data, off);
    if u < 0x8000_0000 {
        u as i32
    } else {
        (u as i64 - 0x1_0000_0000) as i32
    }
}

fn read_i8(data: &[u8; 96], off: usize) -> (r: i8)
    requires
        off < EVENT_BYTES,
    ensures
        r as int == i8_at(data@, off as int),
{
    let b = data[off];
    if b < 0x80 {
        b as i8
    } else {
        (b as i16 - 0x100) as i8
    }
}

/// A key press or release.
#[derive(Clone, Copy, Debug, PartialEq, Eq)]
pub struct XKeyEvent {
    pub type_: i32,
    pub serial: u64,
    pub send_event: i32,
    /// Address of the client's display structure, kept only as a number.
    pub display: u64,
    pub window: u64,
    pub root: u64,
    pub subwindow: u64,
    pub time: u64,
    pub x: i32,
    pub y: i32,
    pub x_root: i32,
    pub y_root: i32,
    pub state: u32,
    pub keycode: u32,
    pub same_screen: i32,
}

/// A pointer button press or release.
#[derive(Clone, Copy, Debug, PartialEq, Eq)]
pub struct XButtonEvent {
    pub type_: i32,
    pub serial: u64,
    pub send_event: i32,
    pub display: u64,
    pub window: u64,
    pub root: u64,
    pub subwindow: u64,
    pub time: u64,
    pub x: i32,
    pub y: i32,
    pub x_root: i32,
    pub y_root: i32,
    pub state: u32,
    pub button: u32,
    pub same_screen: i32,
}

/// A pointer motion.
#[derive(Clone, Copy, Debug, PartialEq, Eq)]
pub struct XMotionEvent {
    pub type_: i32,
    pub serial: u64,
    pub send_event: i32,
    pub display: u64,
    pub window: u64,
    pub root: u64,
    pub subwindow: u64,
    pub time: u64,
    pub x: i32,
    pub y: i32,
    pub x_root: i32,
    pub y_root: i32,
    pub state: u32,
    pub is_hint: i8,
    pub same_screen: i32,
}

/// The notification that a window has been mapped.
#[derive(Clone, Copy, Debug, PartialEq, Eq)]
pub struct XMapEvent {
    pub type_: i32,
    pub serial: u64,
    pub send_event: i32,
    pub display: u64,
    /// The window whose event mask selected this notification.
    pub event: u64,
    /// The window that was mapped.
    pub window: u64,
    pub override_redirect: i32,
}

/// One event as the client library stores it.
pub struct XEvent {
    pub data: [u8; 96],
}

/// A decoded event.
#[derive(Clone, Copy, Debug, PartialEq, Eq)]
pub enum Event {
    KeyPress(XKeyEvent),
    KeyRelease(XKeyEvent),
    ButtonPress(XButtonEvent),
    ButtonRelease(XButtonEvent),
    Motion(XMotionEvent),
    MapNotify(XMapEvent),
    DestroyNotify,
    Expose,
    Unknown,
}

pub open spec fn key_event_of(s: Seq<u8>) -> XKeyEvent {
    XKeyEvent {
        type_: le_i32_at(s, 0) as i32,
        serial: le_u64_at(s, 8) as u64,
        send_event: le_i32_at(s, 16) as i32,
        display: le_u64_at(s, 24) as u64,
        window: le_u64_at(s, 32) as u64,
        root: le_u64_at(s, 40) as u64,
        subwindow: le_u64_at(s, 48) as u64,
        time: le_u64_at(s, 56) as u64,
        x: le_i32_at(s, 64) as i32,
        y: le_i32_at(s, 68) as i32,
        x_root: le_i32_at(s, 72) as i32,
        y_root: le_i32_at(s, 76) as i32,
        state: le_u32_at(s, 80) as u32,
        keycode: le_u32_at(s, 84) as u32,
        same_screen: le_i32_at(s, 88) as i32,
    }
}

pub open spec fn button_event_of(s: Seq<u8>) -> XButtonEvent {
    XButtonEvent {
        type_: le_i32_at(s, 0) as i32,
        serial: le_u64_at(s, 8) as u64,
        send_event: le_i32_at(s, 16) as i32,
        display: le_u64_at(s, 24) as u64,
        window: le_u64_at(s, 32) as u64,
        root: le_u64_at(s, 40) as u64,
        subwindow: le_u64_at(s, 48) as u64,
        time: le_u64_at(s, 56) as u64,
        x: le_i32_at(s, 64) as i32,
        y: le_i32_at(s, 68) as i32,
        x_root: le_i32_at(s, 72) as i32,
        y_root: le_i32_at(s, 76) as i32,
        state: le_u32_at(s, 80) as u32,
        button: le_u32_at(s, 84) as u32,
        same_screen: le_i32_at(s, 88) as i32,
    }
}

pub open spec fn motion_event_of(s: Seq<u8>) -> XMotionEvent {
    XMotionEvent {
        type_: le_i32_at(s, 0) as i32,
        serial: le_u64_at(s, 8) as u64,
        send_event: le_i32_at(s, 16) as i32,
        display: le_u64_at(s, 24) as u64,
        window: le_u64_at(s, 32) as u64,
        root: le_u64_at(s, 40) as u64,
        subwindow: le_u64_at(s, 48) as u64,
        time: le_u64_at(s, 56) as u64,
        x: le_i32_at(s, 64) as i32,
        y: le_i32_at(s, 68) as i32,
        x_root: le_i32_at(s, 72) as i32,
        y_root: le_i32_at(s, 76) as i32,
        state: le_u32_at(s, 80) as u32,
        is_hint: i8_at(s, 84) as i8,
        same_screen: le_i32_at(s, 88) as i32,
    }
}

pub open spec fn map_event_of(s: Seq<u8>) -> XMapEvent {
    XMapEvent {
        type_: le_i32_at(s, 0) as i32,
        serial: le_u64_at(s, 8) as u64,
        send_event: le_i32_at(s, 16) as i32,
        display: le_u64_at(s, 24) as u64,
        event: le_u64_at(s, 32) as u64,
        window: le_u64_at(s, 40) as u64,
        override_redirect: le_i32_at(s, 48) as i32,
    }
}

/// The event that the bytes `s` hold, chosen by the kind in their first four bytes.
pub open spec fn event_of(s: Seq<u8>) -> Event {
    let kind = le_i32_at(s, 0);
    if kind == KEY_PRESS {
        Event::KeyPress(key_event_of(s))
    } else if kind == KEY_RELEASE {
        Event::KeyRelease(key_event_of(s))
    } else if kind == BUTTON_PRESS {
        Event::ButtonPress(button_event_of(s))
    } else if kind == BUTTON_RELEASE {
        Event::ButtonRelease(button_event_of(s))
    } else if kind == MOTION_NOTIFY {
        Event::Motion(motion_event_of(s))
    } else if kind == MAP_NOTIFY {
        Event::MapNotify(map_event_of(s))
    } else if kind == DESTROY_NOTIFY {
        Event::DestroyNotify
    } else if kind == EXPOSE {
        Event::Expose
    } else {
        Event::Unknown
    }
}

fn decode_key(data: &[u8; 96]) -> (r: XKeyEvent)
    ensures
        r == key_event_of(data@),
{
    XKeyEvent {
        type_: read_i32(data, 0),
        serial: read_u64(data, 8),
        send_event: read_i32(data, 16),
        display: read_u64(data, 24),
        window: read_u64(data, 32),
        root: read_u64(data, 40),
        subwindow: read_u64(data, 48),
        time: read_u64(data, 56),
        x: read_i32(data, 64),
        y: read_i32(data, 68),
        x_root: read_i32(data, 72),
        y_root: read_i32(data, 76),
        state: read_u32(data, 80),
        keycode: read_u32(data, 84),
        same_screen: read_i32(data, 88),
    }
}

fn decode_button(data: &[u8; 96]) -> (r: XButtonEvent)
    ensures
        r == button_event_of(data@),
{
    XButtonEvent {
        type_: read_i32(data, 0),
        serial: read_u64(data, 8),
        send_event: read_i32(data, 16),
        display: read_u64(data, 24),
        window: read_u64(data, 32),
        root: read_u64(data, 40),
        subwindow: read_u64(data, 48),
        time: read_u64(data, 56),
        x: read_i32(data, 64),
        y: read_i32(data, 68),
        x_root: read_i32(data, 72),
        y_root: read_i32(data, 76),
        state: read_u32(data, 80),
        button: read_u32(data, 84),
        same_screen: read_i32(data, 88),
    }
}

fn decode_motion(data: &[u8; 96]) -> (r: XMotionEvent)
    ensures
        r == motion_event_of(data@),
{
    XMotionEvent {
        type_: read_i32(data, 0),
        serial: read_u64(data, 8),
        send_event: read_i32(data, 16),
        display: read_u64(data, 24),
        window: read_u64(data, 32),
        root: read_u64(data, 40),
        subwindow: read_u64(data, 48),
        time: read_u64(data, 56),
        x: read_i32(data, 64),
        y: read_i32(data, 68),
        x_root: read_i32(data, 72),
        y_root: read_i32(data, 76),
        state: read_u32(data, 80),
        is_hint: read_i8(data, 84),
        same_screen: read_i32(data, 88),
    }
}

fn decode_map(data: &[u8; 96]) -> (r: XMapEvent)
    ensures
        r == map_event_of(data@),
{
    XMapEvent {
        type_: read_i32(data, 0),
        serial: read_u64(data, 8),
        send_event: read_i32(data, 16),
        display: read_u64(data, 24),
        event: read_u64(data, 32),
        window: read_u64(data, 40),
        override_redirect: read_i32(data, 48),
    }
}

impl XEvent {
    /// The event's kind: the integer in its first four bytes.
    pub fn event_type(&self) -> (r: i32)
        ensures
            r as int == le_i32_at(self.data@, 0),
    {
        read_i32(&self.data, 0)
    }

    /// Decodes the event by its kind; kinds that the program does not handle
    /// come out as [`Event::Unknown`].
    pub fn into_event(&self) -> (r: Event)
        ensures
            r == event_of(self.data@),
    {
        let kind = self.event_type();
        if kind == KEY_PRESS {
            Event::KeyPress(decode_key(&self.data))
        } else if kind == KEY_RELEASE {
            Event::KeyRelease(decode_key(&self.data))
        } else if kind == BUTTON_PRESS {
            Event::ButtonPress(decode_button(&self.data))
        } else if kind == BUTTON_RELEASE {
            Event::ButtonRelease(decode_button(&self.data))
        } else if kind == MOTION_NOTIFY {
            Event::Motion(decode_motion(&self.data))
        } else if kind == MAP_NOTIFY {
            Event::MapNotify(decode_map(&self.data))
        } else if kind == DESTROY_NOTIFY {
            Event::DestroyNotify
        } else if kind == EXPOSE {
            Event::Expose
        } else {
            Event::Unknown
        }
    }
}

} // verus!
