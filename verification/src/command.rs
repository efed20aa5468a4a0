//! Actions the handler decides on.
//!
//! Every windowing or protocol output call is a synchronous round-trip owned
//! by the event loop around this library.  The handler therefore never
//! performs such a call itself: it returns the exact actions, in the exact
//! order they must be performed, as values of [`ServerCmd`].

use vstd::prelude::*;

verus! {

/// One output action, to be performed against the protocol server or the
/// windowing system, in the order returned.
#[derive(Clone, Copy, Debug, PartialEq, Eq, Structural)]
pub enum ServerCmd {
    /// Commit this finished character into the client application.
    Commit { ch: char },
    /// Send this in-progress unit to the client's inline preedit callbacks.
    PreeditDraw { ch: char },
    /// Redraw the existing overlay window `window` showing `ch`.
    SetPreedit { window: u32, ch: char },
    /// Create a new overlay window showing `ch`; once the windowing system
    /// has assigned its identifier, report it back through
    /// `KimeHandler::window_created`.
    CreateWindow { ch: char },
    /// Release the overlay window's rendering resources and destroy it.
    CleanWindow { window: u32 },
    /// Register which key events the protocol server must forward.
    SetEventMask { forward_mask: u32, sync_mask: u32 },
}

/// Outcome of dispatching one raw key event.
#[derive(Debug)]
pub enum ForwardResult {
    /// A key release: never consulted, never consumed, nothing to do.
    Skip,
    /// A key press carrying modifiers beyond a lone shift: the pending
    /// composition was flushed (the returned actions commit and clear it)
    /// and the original key must then be forwarded unmodified.
    Flushed { cmds: Vec<ServerCmd> },
    /// An ordinary key press: evaluate it in the composition engine and hand
    /// the engine's answer to `KimeHandler::handle_key_result`.
    Consult { hardware_code: u16, state: u32 },
}

/// Synchronous answer to the protocol's reset-context callback.
#[derive(Debug)]
pub struct ResetReply {
    /// The flushed text: the buffered unit if one existed, empty otherwise.
    /// The protocol's reply itself carries this text to the client.
    pub reply: String,
    /// The output actions clearing the preedit display, in order.
    pub cmds: Vec<ServerCmd>,
}

/// Outcome of applying one composition-engine answer.
#[derive(Debug)]
pub struct KeyOutput {
    /// Whether the key event was consumed (`false` means: forward it to the
    /// client unchanged).
    pub consumed: bool,
    /// The output actions, in the order they must be performed.
    pub cmds: Vec<ServerCmd>,
}

} // verus!
