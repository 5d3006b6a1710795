//! The local terminal's mode: the four flag words of its attributes,
//! the raw-passthrough transformation applied for an interactive
//! session, and the guard that keeps the captured attributes until they
//! are restored, exactly once.
//!
//! The flag values are the ones the platform's terminal interface uses;
//! querying and setting the real terminal is the caller's part, over
//! plain copies of these words.

use vstd::prelude::*;

verus! {

pub const IGNBRK: u32 = 0o000001;

pub const BRKINT: u32 = 0o000002;

pub const PARMRK: u32 = 0o000010;

pub const ISTRIP: u32 = 0o000040;

pub const INLCR: u32 = 0o000100;

pub const IGNCR: u32 = 0o000200;

pub const ICRNL: u32 = 0o000400;

pub const IXON: u32 = 0o002000;

pub const OPOST: u32 = 0o000001;

pub const ISIG: u32 = 0o000001;

pub const ICANON: u32 = 0o000002;

pub const ECHO: u32 = 0o000010;

pub const ECHONL: u32 = 0o000100;

pub const IEXTEN: u32 = 0o100000;

pub const CSIZE: u32 = 0o000060;

pub const CS8: u32 = 0o000060;

pub const PARENB: u32 = 0o000400;

/// A snapshot of the local terminal's attributes: the input, output,
/// control and local flag words.
#[derive(Clone, Copy, Debug, PartialEq, Eq, Structural)]
pub struct TermAttrs {
    pub iflag: u32,
    pub oflag: u32,
    pub cflag: u32,
    pub lflag: u32,
}

/// The raw-passthrough transformation: input translation and flow
/// control off, output post-processing off, eight data bits without
/// parity, and echo, canonical line editing, signal keys and extended
/// input processing all off.
pub open spec fn raw_mode_view(t: TermAttrs) -> TermAttrs {
    TermAttrs {
        iflag: t.iflag & !(IGNBRK | BRKINT | PARMRK | ISTRIP | INLCR | IGNCR | ICRNL | IXON),
        oflag: t.oflag & !OPOST,
        cflag: (t.cflag & !(CSIZE | PARENB)) | CS8,
        lflag: t.lflag & !(ECHO | ECHONL | ICANON | ISIG | IEXTEN),
    }
}

/// Computes the raw-passthrough attributes from a captured snapshot.
pub fn raw_mode(t: &TermAttrs) -> (r: TermAttrs)
    ensures
        r == raw_mode_view(*t),
{
    TermAttrs {
        iflag: t.iflag & !(IGNBRK | BRKINT | PARMRK | ISTRIP | INLCR | IGNCR | ICRNL | IXON),
        oflag: t.oflag & !OPOST,
        cflag: (t.cflag & !(CSIZE | PARENB)) | CS8,
        lflag: t.lflag & !(ECHO | ECHONL | ICANON | ISIG | IEXTEN),
    }
}

/// Raw mode really is raw: whatever the snapshot held, echo, canonical
/// editing, signal keys, extended input processing, output
/// post-processing and input flow control are off afterwards.
pub proof fn lemma_raw_mode_disables(t: TermAttrs)
    ensures
        raw_mode_view(t).lflag & ECHO == 0,
        raw_mode_view(t).lflag & ICANON == 0,
        raw_mode_view(t).lflag & ISIG == 0,
        raw_mode_view(t).lflag & IEXTEN == 0,
        raw_mode_view(t).oflag & OPOST == 0,
        raw_mode_view(t).iflag & IXON == 0,
        raw_mode_view(t).iflag & ICRNL == 0,
        raw_mode_view(t).cflag & CSIZE == CS8,
        raw_mode_view(t).cflag & PARENB == 0,
{
    let l = t.lflag;
    let o = t.oflag;
    let i = t.iflag;
    let c = t.cflag;
    assert((l & !(0o10u32 | 0o100 | 0o2 | 0o1 | 0o100000)) & 0o10u32 == 0) by (bit_vector);
    assert((l & !(0o10u32 | 0o100 | 0o2 | 0o1 | 0o100000)) & 0o2u32 == 0) by (bit_vector);
    assert((l & !(0o10u32 | 0o100 | 0o2 | 0o1 | 0o100000)) & 0o1u32 == 0) by (bit_vector);
    assert((l & !(0o10u32 | 0o100 | 0o2 | 0o1 | 0o100000)) & 0o100000u32 == 0) by (bit_vector);
    assert((o & !0o1u32) & 0o1u32 == 0) by (bit_vector);
    assert((i & !(0o1u32 | 0o2 | 0o10 | 0o40 | 0o100 | 0o200 | 0o400 | 0o2000)) & 0o2000u32 == 0)
        by (bit_vector);
    assert((i & !(0o1u32 | 0o2 | 0o10 | 0o40 | 0o100 | 0o200 | 0o400 | 0o2000)) & 0o400u32 == 0)
        by (bit_vector);
    assert(((c & !(0o60u32 | 0o400)) | 0o60u32) & 0o60u32 == 0o60u32) by (bit_vector);
    assert(((c & !(0o60u32 | 0o400)) | 0o60u32) & 0o400u32 == 0) by (bit_vector);
}

/// Holds the attributes captured before raw mode was entered, until
/// they are taken for the one restoring write. While nothing was
/// captured, taking is a no-op: restoring after a failed entry never
/// crashes and writes nothing.
pub struct TerminalModeGuard {
    pub snapshot: Option<TermAttrs>,
}

impl TerminalModeGuard {
    /// A snapshot is being held: raw mode was entered and not yet
    /// restored.
    pub open spec fn entered(self) -> bool {
        self.snapshot is Some
    }

    /// The held snapshot.
    pub open spec fn held(self) -> Option<TermAttrs> {
        self.snapshot
    }

    /// The guard before raw mode is entered: holding nothing.
    pub fn inactive() -> (g: TerminalModeGuard)
        ensures
            !g.entered(),
    {
        TerminalModeGuard { snapshot: None }
    }

    /// The guard right after raw mode was entered: holding the captured
    /// attributes.
    pub fn entered_with(saved: TermAttrs) -> (g: TerminalModeGuard)
        ensures
            g.held() == Some(saved),
    {
        TerminalModeGuard { snapshot: Some(saved) }
    }

    pub fn is_entered(&self) -> (r: bool)
        ensures
            r == self.entered(),
    {
        self.snapshot.is_some()
    }

    /// Takes the snapshot for the restoring write, leaving the guard
    /// empty: a second take, or a take after a failed entry, hands back
    /// nothing.
    pub fn take_restore(&mut self) -> (r: Option<TermAttrs>)
        ensures
            r == old(self).held(),
            !final(self).entered(),
    {
        let r = self.snapshot;
        self.snapshot = None;
        r
    }
}

} // verus!
