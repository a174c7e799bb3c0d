//! Terminal modes: the raw mode that the recorder puts the user's terminal
//! in, and the guard that keeps the settings to restore.
//!
//! A mode holds the four flag words and the control characters of a
//! terminal's settings, with the bit values and slots of Linux's termios.
use vstd::prelude::*;

verus! {

/// The number of control-character slots.
pub const NCCS: usize = 32;

/// The slot of the least number of bytes that a read waits for.
pub const VMIN: usize = 6;

/// The slot of a read's timeout, in tenths of a second.
pub const VTIME: usize = 5;

pub const IGNBRK: u32 = 0x1;
pub const BRKINT: u32 = 0x2;
pub const PARMRK: u32 = 0x8;
pub const ISTRIP: u32 = 0x20;
pub const INLCR: u32 = 0x40;
pub const IGNCR: u32 = 0x80;
pub const ICRNL: u32 = 0x100;
pub const IXON: u32 = 0x400;

pub const OPOST: u32 = 0x1;

pub const ISIG: u32 = 0x1;
pub const ICANON: u32 = 0x2;
pub const ECHO: u32 = 0x8;
pub const ECHONL: u32 = 0x40;
pub const IEXTEN: u32 = 0x8000;

pub const CSIZE: u32 = 0x30;
pub const CS8: u32 = 0x30;
pub const PARENB: u32 = 0x100;

/// Input flags that raw mode clears: break handling, parity marking,
/// stripping, carriage-return and newline translation, and flow control.
pub const RAW_INPUT_OFF: u32 = IGNBRK | BRKINT | PARMRK | ISTRIP | INLCR | IGNCR | ICRNL | IXON;

/// Local flags that raw mode clears: echo, canonical input, signal
/// characters and extended input processing.
pub const RAW_LOCAL_OFF: u32 = ECHO | ECHONL | ICANON | ISIG | IEXTEN;

/// Control flags that raw mode clears before it sets eight-bit characters.
pub const RAW_CONTROL_OFF: u32 = CSIZE | PARENB;

/// A terminal's settings.
#[derive(Clone, Copy, Debug)]
pub struct TermMode {
    pub input: u32,
    pub output: u32,
    pub control: u32,
    pub local: u32,
    pub chars: [u8; NCCS],
}

/// Whether `r` is the raw form of `m`: the raw-mode flags cleared, output
/// post-processing off, eight-bit characters without parity, and reads that
/// wait for one byte with no timeout; everything else as in `m`.
pub open spec fn is_raw_of(r: TermMode, m: TermMode) -> bool {
    &&& r.input == m.input & !RAW_INPUT_OFF
    &&& r.output == m.output & !OPOST
    &&& r.local == m.local & !RAW_LOCAL_OFF
    &&& r.control == (m.control & !RAW_CONTROL_OFF) | CS8
    &&& r.chars@ == m.chars@.update(VMIN as int, 1u8).update(VTIME as int, 0u8)
}

/// The raw form of a mode.
pub fn make_raw(m: &TermMode) -> (r: TermMode)
    ensures
        is_raw_of(r, *m),
        r.local & ECHO == 0,
        r.local & ICANON == 0,
        r.local & ISIG == 0,
        r.output & OPOST == 0,
{
    let mut chars = m.chars;
    chars[VMIN] = 1;
    chars[VTIME] = 0;
    let r = TermMode {
        input: m.input & !RAW_INPUT_OFF,
        output: m.output & !OPOST,
        control: (m.control & !RAW_CONTROL_OFF) | CS8,
        local: m.local & !RAW_LOCAL_OFF,
        chars,
    };
    let l = m.local;
    let o = m.output;
    assert(l & !(0x8u32 | 0x40u32 | 0x2u32 | 0x1u32 | 0x8000u32) & 0x8u32 == 0) by (bit_vector);
    assert(l & !(0x8u32 | 0x40u32 | 0x2u32 | 0x1u32 | 0x8000u32) & 0x2u32 == 0) by (bit_vector);
    assert(l & !(0x8u32 | 0x40u32 | 0x2u32 | 0x1u32 | 0x8000u32) & 0x1u32 == 0) by (bit_vector);
    assert(o & !0x1u32 & 0x1u32 == 0) by (bit_vector);
    assert(r.chars@ =~= m.chars@.update(VMIN as int, 1u8).update(VTIME as int, 0u8));
    r
}

/// Keeps the settings that the user's terminal had before raw mode, and
/// whether they still have to be put back.
#[derive(Debug)]
pub struct ModeGuard {
    saved: TermMode,
    pending: bool,
}

/// The settings that a restoration applies, if any: the saved ones while
/// raw mode is in force.
pub open spec fn restore_result(saved: TermMode, pending: bool) -> Option<TermMode> {
    if pending {
        Some(saved)
    } else {
        None
    }
}

/// The terminal's settings after applying what a restoration returned.
pub open spec fn applied(current: TermMode, r: Option<TermMode>) -> TermMode {
    match r {
        Some(m) => m,
        None => current,
    }
}

impl ModeGuard {
    /// The settings kept for restoration.
    pub closed spec fn saved(&self) -> TermMode {
        self.saved
    }

    /// Whether raw mode is in force and the saved settings are owed back.
    pub closed spec fn pending(&self) -> bool {
        self.pending
    }

    /// A guard over the settings that the terminal has at start, before any
    /// change.
    pub fn capture(original: TermMode) -> (g: ModeGuard)
        ensures
            g.saved() == original,
            !g.pending(),
    {
        ModeGuard { saved: original, pending: false }
    }

    /// Enters raw mode: `current` is what the terminal holds just before the
    /// change. It is kept as the settings to restore, and the raw form of it
    /// is returned, to apply after pending output drains.
    pub fn enter_raw(&mut self, current: TermMode) -> (r: TermMode)
        ensures
            final(self).saved() == current,
            final(self).pending(),
            is_raw_of(r, current),
    {
        self.saved = current;
        self.pending = true;
        make_raw(&current)
    }

    /// Restores: returns the settings to apply at once, where raw mode is in
    /// force, and marks them as given back; returns `None` where nothing is
    /// owed.
    pub fn restore(&mut self) -> (r: Option<TermMode>)
        ensures
            r == restore_result(old(self).saved(), old(self).pending()),
            final(self).saved() == old(self).saved(),
            !final(self).pending(),
    {
        let r = if self.pending {
            Some(self.saved)
        } else {
            None
        };
        self.pending = false;
        r
    }

    /// The settings kept for restoration.
    pub fn saved_mode(&self) -> (r: TermMode)
        ensures
            r == self.saved(),
    {
        self.saved
    }
}

/// Restoring twice in a row leaves the terminal as restoring once does, from
/// any state of the guard and any settings of the terminal.
pub proof fn lemma_restore_idempotent(saved: TermMode, pending: bool, current: TermMode)
    ensures
        ({
            let once = applied(current, restore_result(saved, pending));
            applied(once, restore_result(saved, false)) == once
        }),
{
}

} // verus!
