//! Negotiated input styles of the input-method protocol.
//!
//! A style is a bitset combining one preedit-feedback bit with one status
//! bit.  Which combinations a client may negotiate is decided by the external
//! protocol layer; the handler only reads whether the preedit feedback is
//! callback-based ("on-the-spot", drawn inline by the client) or positioned
//! ("off-the-spot", drawn by this server in an overlay window).

use vstd::prelude::*;

verus! {

/// Preedit drawn by the client in a reserved area.
pub const PREEDIT_AREA: u32 = 0x0001;
/// Preedit drawn inline by the client through protocol callbacks.
pub const PREEDIT_CALLBACKS: u32 = 0x0002;
/// Preedit drawn by the server at a spot the client reports.
pub const PREEDIT_POSITION: u32 = 0x0004;
/// No preedit feedback beyond root-window defaults.
pub const PREEDIT_NOTHING: u32 = 0x0008;
/// Preedit feedback explicitly disabled.
pub const PREEDIT_NONE: u32 = 0x0010;
/// Status drawn by the client in a reserved area.
pub const STATUS_AREA: u32 = 0x0100;
/// Status delivered through protocol callbacks.
pub const STATUS_CALLBACKS: u32 = 0x0200;
/// No status feedback beyond root-window defaults.
pub const STATUS_NOTHING: u32 = 0x0400;
/// Status feedback explicitly disabled.
pub const STATUS_NONE: u32 = 0x0800;

/// One negotiated style combination.
#[derive(Clone, Copy, Debug, PartialEq, Eq, Structural)]
pub struct InputStyle {
    pub bits: u32,
}

impl InputStyle {
    /// Whether this style routes preedit feedback inline, through the
    /// client's preedit callbacks, instead of a server-side overlay window.
    pub open spec fn spec_is_inline(self) -> bool {
        self.bits & PREEDIT_CALLBACKS != 0
    }

    pub fn new(bits: u32) -> (r: Self)
        ensures
            r.bits == bits,
    {
        InputStyle { bits }
    }

    /// Whether preedit feedback is delegated to the client ("on-the-spot").
    pub fn is_inline(&self) -> (r: bool)
        ensures
            r == self.spec_is_inline(),
    {
        self.bits & PREEDIT_CALLBACKS != 0
    }
}

} // verus!
