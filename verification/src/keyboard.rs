//! Typed view over one low-level keyboard hook notification.
//!
//! The operating system hands the hook callback a raw record holding the
//! virtual-key code, the scan code, a flag word and an opaque "extra info"
//! tag. The callback shell decodes that record into a `KeyboardLL` value of
//! plain fields and passes it here; nothing in the library ever touches the
//! raw record itself, whose memory belongs to the caller for the duration
//! of the callback only.

use vstd::prelude::*;

verus! {

/// Flag bit set when the key is an extended key.
pub const LLKHF_EXTENDED: u32 = 0x01;

/// Flag bit set when the ALT key is held down (context code).
pub const LLKHF_ALTDOWN: u32 = 0x20;

/// Flag bit set on a key-release (transition) event.
pub const LLKHF_UP: u32 = 0x80;

/// One keystroke notification, decoded to plain values.
#[derive(Clone, Copy, PartialEq, Eq, Structural, Debug)]
pub struct KeyboardLL {
    /// Virtual-key code of the key.
    pub vk: u16,
    /// Hardware scan code of the key.
    pub scan: u32,
    /// Flag word; see the `LLKHF_*` bits above.
    pub flags: u32,
    /// Opaque tag the sender attached to the event; compared only for
    /// equality against the injection tag.
    pub extra: usize,
}

impl KeyboardLL {
    /// Build the typed view from the decoded fields of one notification.
    pub fn new(vk: u16, scan: u32, flags: u32, extra: usize) -> (ev: KeyboardLL)
        ensures
            ev == (KeyboardLL { vk, scan, flags, extra }),
    {
        KeyboardLL { vk, scan, flags, extra }
    }

    /// Virtual-key code of the key.
    pub fn vk_code(&self) -> (vk: u16)
        ensures
            vk == self.vk,
    {
        self.vk
    }

    /// Hardware scan code of the key.
    pub fn scan_code(&self) -> (scan: u32)
        ensures
            scan == self.scan,
    {
        self.scan
    }

    /// Whether the extended-key flag bit is set.
    pub fn extended(&self) -> (b: bool)
        ensures
            b == ((self.flags & LLKHF_EXTENDED) != 0),
    {
        (self.flags & LLKHF_EXTENDED) != 0
    }

    /// Whether the ALT-down (context code) flag bit is set.
    pub fn altdown(&self) -> (b: bool)
        ensures
            b == ((self.flags & LLKHF_ALTDOWN) != 0),
    {
        (self.flags & LLKHF_ALTDOWN) != 0
    }

    /// Whether this is a key-release event (transition flag bit).
    pub fn up(&self) -> (b: bool)
        ensures
            b == ((self.flags & LLKHF_UP) != 0),
    {
        (self.flags & LLKHF_UP) != 0
    }

    /// The opaque tag attached to the event.
    pub fn extra_info(&self) -> (extra: usize)
        ensures
            extra == self.extra,
    {
        self.extra
    }
}

} // verus!
