//! The input-context state machine.
//!
//! [`KimeHandler`] receives the protocol's lifecycle callbacks and key events
//! as plain values, consults the composition engine's answers, and decides
//! the exact output actions: commits, inline preedit draws, and the creation,
//! redraw and destruction of overlay preedit windows.  The event loop around
//! the library performs those actions and reports back the one fact only the
//! windowing system knows: the identifier of a freshly created window.

use vstd::prelude::*;

use crate::command::{ForwardResult, KeyOutput, ResetReply, ServerCmd};
use crate::config::Config;
use crate::engine::{preedit_after, InputEngine, InputResult, InputResultType};
use crate::registry::{
    empty_registry, registry_contains, registry_get, registry_insert, registry_len, registry_model,
    registry_new, registry_remove, WindowMap,
};
use crate::style::{
    InputStyle, PREEDIT_CALLBACKS, PREEDIT_NOTHING, PREEDIT_POSITION, STATUS_AREA, STATUS_NONE,
    STATUS_NOTHING,
};

verus! {

/// Response type of a key-press event in the windowing system's wire format;
/// any other response type is a key release.
pub const KEY_PRESS_EVENT: u8 = 2;

/// Event-mask bit asking the protocol server to forward key presses.
pub const KEY_PRESS_MASK: u32 = 0x1;

/// Event-mask bit asking the protocol server to forward key releases.
pub const KEY_RELEASE_MASK: u32 = 0x2;

/// One raw key event as the protocol forwards it: the wire response type,
/// the hardware key code and the modifier state.
#[derive(Clone, Copy, Debug, PartialEq, Eq, Structural)]
pub struct KeyEvent {
    pub response_type: u8,
    pub detail: u8,
    pub state: u16,
}

/// Whether the modifier state holds any bit beyond a lone shift.  Such a key
/// event always flushes the pending composition and is then forwarded.
pub open spec fn has_non_shift_modifier(state: u16) -> bool {
    state & 0xFFFEu16 != 0
}

/// Per-context data: the engine's observable composition state, the optional
/// identifier of the context's one preedit overlay window, and the feedback
/// mode negotiated once at context creation.
pub struct KimeData {
    pub engine: InputEngine,
    pub pe: Option<u32>,
    pub style: InputStyle,
}

impl KimeData {
    /// Fresh context data: nothing composed, no overlay window.
    pub fn new(style: InputStyle) -> (r: Self)
        ensures
            r.engine.preedit is None,
            r.pe is None,
            r.style == style,
    {
        KimeData { engine: InputEngine::new(), pe: None, style }
    }

    /// Whether preedit feedback is delegated to the client ("on-the-spot").
    pub open spec fn is_inline(self) -> bool {
        self.style.spec_is_inline()
    }
}

/// Ghost snapshot of everything one event may change: the registry contents,
/// the context's window reference and the buffered composition unit.
pub struct HandlerModel {
    pub registry: Map<u32, char>,
    pub pe: Option<u32>,
    pub preedit: Option<char>,
}

/// Actions that clearing the preedit performs: destroy the overlay window if
/// the context owns one, nothing otherwise (inline feedback has no window).
pub open spec fn clear_cmds(pe: Option<u32>) -> Seq<ServerCmd> {
    match pe {
        Some(w) => seq![ServerCmd::CleanWindow { window: w }],
        None => Seq::empty(),
    }
}

/// Registry contents once the context's window, if any, is destroyed.
pub open spec fn clear_registry(reg: Map<u32, char>, pe: Option<u32>) -> Map<u32, char> {
    match pe {
        Some(w) => reg.remove(w),
        None => reg,
    }
}

/// Actions that showing the in-progress unit `ch` performs: an inline draw
/// callback, a redraw of the existing overlay window, or the creation of a
/// new one.
pub open spec fn preedit_cmds(ic: KimeData, ch: char) -> Seq<ServerCmd> {
    if ic.is_inline() {
        seq![ServerCmd::PreeditDraw { ch }]
    } else {
        match ic.pe {
            Some(w) => seq![ServerCmd::SetPreedit { window: w, ch }],
            None => seq![ServerCmd::CreateWindow { ch }],
        }
    }
}

/// Registry contents once the in-progress unit `ch` is shown: only a context
/// that already owns an overlay window changes an entry (a new window enters
/// the registry later, through `KimeHandler::window_created`).
pub open spec fn preedit_registry(reg: Map<u32, char>, ic: KimeData, ch: char) -> Map<u32, char> {
    if ic.is_inline() {
        reg
    } else {
        match ic.pe {
            Some(w) => reg.insert(w, ch),
            None => reg,
        }
    }
}

/// Actions a reset trigger performs: if a unit was buffered, the preedit is
/// cleared first and the flushed unit is committed after; otherwise nothing.
pub open spec fn reset_cmds(ic: KimeData) -> Seq<ServerCmd> {
    match ic.engine.preedit {
        Some(c) => clear_cmds(ic.pe) + seq![ServerCmd::Commit { ch: c }],
        None => Seq::empty(),
    }
}

/// Registry contents after a reset trigger.
pub open spec fn reset_registry(reg: Map<u32, char>, ic: KimeData) -> Map<u32, char> {
    match ic.engine.preedit {
        Some(_) => clear_registry(reg, ic.pe),
        None => reg,
    }
}

/// The context's window reference after a reset trigger.
pub open spec fn reset_pe(ic: KimeData) -> Option<u32> {
    match ic.engine.preedit {
        Some(_) => None,
        None => ic.pe,
    }
}

/// Whether the key event is consumed after the engine answered with `ty`:
/// only `Bypass` and `CommitBypass` forward the key to the client.
pub open spec fn consumed_after(ty: InputResultType) -> bool {
    match ty {
        InputResultType::Bypass => false,
        InputResultType::CommitBypass => false,
        _ => true,
    }
}

/// The exact actions, in order, that one engine answer requires.
pub open spec fn key_cmds(ic: KimeData, ret: InputResult) -> Seq<ServerCmd> {
    match ret.ty {
        InputResultType::Bypass => Seq::empty(),
        InputResultType::Consume => Seq::empty(),
        InputResultType::ClearPreedit => clear_cmds(ic.pe),
        InputResultType::CommitBypass => seq![ServerCmd::Commit { ch: ret.char1 }] + clear_cmds(
            ic.pe,
        ),
        InputResultType::Commit => seq![ServerCmd::Commit { ch: ret.char1 }] + clear_cmds(ic.pe),
        InputResultType::CommitCommit => seq![
            ServerCmd::Commit { ch: ret.char1 },
            ServerCmd::Commit { ch: ret.char2 },
        ] + clear_cmds(ic.pe),
        InputResultType::CommitPreedit => seq![ServerCmd::Commit { ch: ret.char1 }] + preedit_cmds(
            ic,
            ret.char2,
        ),
        InputResultType::Preedit => preedit_cmds(ic, ret.char1),
    }
}

/// The context's window reference after one engine answer.
pub open spec fn key_pe(ic: KimeData, ret: InputResult) -> Option<u32> {
    match ret.ty {
        InputResultType::Bypass => ic.pe,
        InputResultType::Consume => ic.pe,
        InputResultType::ClearPreedit => None,
        InputResultType::CommitBypass => None,
        InputResultType::Commit => None,
        InputResultType::CommitCommit => None,
        InputResultType::CommitPreedit => ic.pe,
        InputResultType::Preedit => ic.pe,
    }
}

/// The registry contents after one engine answer.
pub open spec fn key_registry(reg: Map<u32, char>, ic: KimeData, ret: InputResult) -> Map<
    u32,
    char,
> {
    match ret.ty {
        InputResultType::Bypass => reg,
        InputResultType::Consume => reg,
        InputResultType::ClearPreedit => clear_registry(reg, ic.pe),
        InputResultType::CommitBypass => clear_registry(reg, ic.pe),
        InputResultType::Commit => clear_registry(reg, ic.pe),
        InputResultType::CommitCommit => clear_registry(reg, ic.pe),
        InputResultType::CommitPreedit => preedit_registry(reg, ic, ret.char2),
        InputResultType::Preedit => preedit_registry(reg, ic, ret.char1),
    }
}

/// How one raw key event changes the model: a release changes nothing, a
/// press with modifiers beyond a lone shift flushes the composition, and an
/// ordinary press leaves the state to the engine's answer (applied in
/// `KimeHandler::handle_key_result`, so this step changes nothing yet).
pub open spec fn forward_model(m: HandlerModel, xev: KeyEvent) -> HandlerModel {
    if xev.response_type != KEY_PRESS_EVENT {
        m
    } else if has_non_shift_modifier(xev.state) {
        match m.preedit {
            Some(_) => HandlerModel {
                registry: clear_registry(m.registry, m.pe),
                pe: None,
                preedit: None,
            },
            None => HandlerModel { registry: m.registry, pe: m.pe, preedit: None },
        }
    } else {
        m
    }
}

/// The model after a whole run of raw key events.
pub open spec fn run_forward(m: HandlerModel, events: Seq<KeyEvent>) -> HandlerModel
    decreases events.len(),
{
    if events.len() == 0 {
        m
    } else {
        run_forward(forward_model(m, events[0]), events.drop_first())
    }
}

/// Law: a run of nothing but key-release events leaves the registry, the
/// window reference and the buffered unit exactly as they were; no release
/// ever consults the engine or produces an action.
pub proof fn lemma_release_run_unchanged(m: HandlerModel, events: Seq<KeyEvent>)
    requires
        forall|i: int|
            0 <= i < events.len() ==> (#[trigger] events[i]).response_type != KEY_PRESS_EVENT,
    ensures
        run_forward(m, events) == m,
    decreases events.len(),
{
    if events.len() > 0 {
        assert(forward_model(m, events[0]) == m);
        assert(forall|i: int|
            0 <= i < events.drop_first().len() ==> (#[trigger] events.drop_first()[i]).response_type
                != KEY_PRESS_EVENT);
        lemma_release_run_unchanged(m, events.drop_first());
    }
}

/// Appending the flush's commit action behind the clearing actions yields
/// exactly what a reset trigger performs.
proof fn lemma_reset_seq(entry: Seq<ServerCmd>, ic: KimeData, c: char)
    requires
        ic.engine.preedit == Some(c),
    ensures
        (entry + clear_cmds(ic.pe)).push(ServerCmd::Commit { ch: c }) == entry + reset_cmds(ic),
{
    assert((entry + clear_cmds(ic.pe)).push(ServerCmd::Commit { ch: c }) =~= entry + reset_cmds(
        ic,
    ));
}

/// The state machine over all input contexts: the centrally owned registry
/// of live overlay windows, the configuration snapshot and the screen the
/// windows are created on.
pub struct KimeHandler {
    preedit_windows: WindowMap,
    config: Config,
    screen_num: usize,
}

impl KimeHandler {
    /// The registry's observable contents: window identifier to the
    /// character the window displays.
    pub closed spec fn registry(&self) -> Map<u32, char> {
        registry_model(self.preedit_windows)
    }

    /// The configuration snapshot the handler was created with.
    pub closed spec fn spec_config(&self) -> Config {
        self.config
    }

    /// The screen overlay windows are created on.
    pub closed spec fn spec_screen_num(&self) -> usize {
        self.screen_num
    }

    /// The ghost snapshot of what events change for one context.
    pub open spec fn model(&self, ic: KimeData) -> HandlerModel {
        HandlerModel { registry: self.registry(), pe: ic.pe, preedit: ic.engine.preedit }
    }

    /// The context's window reference is well linked: if it claims an
    /// overlay window, the identifier is nonzero, the registry owns that
    /// window, and the context composes in overlay (not inline) mode.
    pub open spec fn ic_linked(&self, ic: KimeData) -> bool {
        ic.pe matches Some(w) ==> w != 0 && self.registry().contains_key(w) && !ic.is_inline()
    }

    /// Well-formedness of one context against this handler: the window
    /// reference is well linked, and an owned window exists only while a
    /// unit is buffered and displays exactly that unit.
    pub open spec fn ic_wf(&self, ic: KimeData) -> bool {
        &&& self.ic_linked(ic)
        &&& (ic.pe matches Some(w) ==> ic.engine.preedit == Some(self.registry()[w]))
    }

    /// The handler's own settings never change after construction.
    pub open spec fn same_settings(pre: KimeHandler, post: KimeHandler) -> bool {
        &&& post.spec_config() == pre.spec_config()
        &&& post.spec_screen_num() == pre.spec_screen_num()
    }

    /// A handler for one screen, with an empty registry.
    pub fn new(screen_num: usize, config: Config) -> (r: Self)
        ensures
            r.registry() == empty_registry(),
            r.spec_config() == config,
            r.spec_screen_num() == screen_num,
    {
        KimeHandler { preedit_windows: registry_new(), config, screen_num }
    }

    /// The configuration snapshot, for the event loop's window creation.
    pub fn config(&self) -> (r: &Config)
        ensures
            *r == self.spec_config(),
    {
        &self.config
    }

    /// The screen overlay windows are created on.
    pub fn screen_num(&self) -> (r: usize)
        ensures
            r == self.spec_screen_num(),
    {
        self.screen_num
    }

    /// How many overlay windows are live.
    pub fn preedit_window_count(&self) -> (r: usize)
        ensures
            r == self.registry().dom().len(),
    {
        registry_len(&self.preedit_windows)
    }

    /// Whether `window` is one of the live overlay windows.
    pub fn has_window(&self, window: u32) -> (r: bool)
        ensures
            r == self.registry().contains_key(window),
    {
        registry_contains(&self.preedit_windows, window)
    }

    /// The character the overlay window `window` displays, if it is live.
    pub fn window_char(&self, window: u32) -> (r: Option<char>)
        ensures
            r == (if self.registry().contains_key(window) {
                Some(self.registry()[window])
            } else {
                None::<char>
            }),
    {
        registry_get(&self.preedit_windows, window)
    }

    /// A damage notification for `window` arrived.  Returns whether the
    /// window is one of the live overlay windows and must be repainted; a
    /// stray notification for an unknown window is a benign no-op.
    pub fn expose(&self, window: u32) -> (r: bool)
        ensures
            r == (window != 0 && self.registry().contains_key(window)),
    {
        if window != 0 {
            registry_contains(&self.preedit_windows, window)
        } else {
            false
        }
    }

    /// The target application window moved or resized.  Returns whether
    /// `window` is one of the live overlay windows and must be repositioned;
    /// a notification for an unknown window is a benign no-op.
    pub fn configure_notify(&self, window: u32) -> (r: bool)
        ensures
            r == (window != 0 && self.registry().contains_key(window)),
    {
        if window != 0 {
            registry_contains(&self.preedit_windows, window)
        } else {
            false
        }
    }

    /// Takes the context's overlay window out of the registry and appends
    /// the action destroying it; nothing happens without an owned window.
    fn clear_preedit(&mut self, ic: &mut KimeData, cmds: &mut Vec<ServerCmd>)
        requires
            old(self).ic_linked(*old(ic)),
        ensures
            final(cmds)@ == old(cmds)@ + clear_cmds(old(ic).pe),
            final(self).registry() == clear_registry(old(self).registry(), old(ic).pe),
            final(ic).pe is None,
            final(ic).engine == old(ic).engine,
            final(ic).style == old(ic).style,
            Self::same_settings(*old(self), *final(self)),
    {
        match ic.pe {
            Some(w) => {
                ic.pe = None;
                let _removed = registry_remove(&mut self.preedit_windows, w);
                cmds.push(ServerCmd::CleanWindow { window: w });
            },
            None => {},
        }
    }

    /// Shows the in-progress unit `ch`: delegates to the client's inline
    /// callbacks, redraws the context's existing overlay window, or asks for
    /// a new overlay window to be created.
    fn preedit(&mut self, ic: &KimeData, ch: char, cmds: &mut Vec<ServerCmd>)
        requires
            old(self).ic_linked(*ic),
            ic.engine.preedit == Some(ch),
        ensures
            final(self).ic_wf(*ic),
            final(cmds)@ == old(cmds)@ + preedit_cmds(*ic, ch),
            final(self).registry() == preedit_registry(old(self).registry(), *ic, ch),
            Self::same_settings(*old(self), *final(self)),
    {
        if ic.style.is_inline() {
            cmds.push(ServerCmd::PreeditDraw { ch });
        } else {
            match ic.pe {
                Some(w) => {
                    registry_insert(&mut self.preedit_windows, w, ch);
                    cmds.push(ServerCmd::SetPreedit { window: w, ch });
                },
                None => {
                    cmds.push(ServerCmd::CreateWindow { ch });
                },
            }
        }
    }

    /// A reset trigger: flushes the engine; a flushed unit has the preedit
    /// cleared first and is committed after.
    fn reset(&mut self, ic: &mut KimeData, cmds: &mut Vec<ServerCmd>)
        requires
            old(self).ic_wf(*old(ic)),
        ensures
            final(self).ic_wf(*final(ic)),
            final(cmds)@ == old(cmds)@ + reset_cmds(*old(ic)),
            final(self).registry() == reset_registry(old(self).registry(), *old(ic)),
            final(ic).pe == reset_pe(*old(ic)),
            final(ic).engine.preedit is None,
            final(ic).style == old(ic).style,
            Self::same_settings(*old(self), *final(self)),
    {
        let ghost pre = *old(ic);
        let ghost entry = cmds@;
        let flushed = ic.engine.reset();
        match flushed {
            Some(c) => {
                self.clear_preedit(ic, cmds);
                cmds.push(ServerCmd::Commit { ch: c });
                proof {
                    lemma_reset_seq(entry, pre, c);
                    assert(cmds@ == (entry + clear_cmds(pre.pe)).push(ServerCmd::Commit { ch: c }));
                }
            },
            None => {},
        }
    }

    /// The event loop created the overlay window the handler asked for (a
    /// `CreateWindow` action) and reports the identifier the windowing
    /// system assigned.  The window displays `ch`, the unit the engine
    /// buffers; the registry takes ownership of it.
    pub fn window_created(&mut self, ic: &mut KimeData, window: u32, ch: char)
        requires
            old(self).ic_wf(*old(ic)),
            old(ic).pe is None,
            !old(ic).is_inline(),
            old(ic).engine.preedit == Some(ch),
            window != 0,
            !old(self).registry().contains_key(window),
        ensures
            final(self).ic_wf(*final(ic)),
            final(self).registry() == old(self).registry().insert(window, ch),
            final(ic).pe == Some(window),
            final(ic).engine == old(ic).engine,
            final(ic).style == old(ic).style,
            Self::same_settings(*old(self), *final(self)),
    {
        registry_insert(&mut self.preedit_windows, window, ch);
        ic.pe = Some(window);
    }

    /// Dispatches one raw key event.  A key release is never consumed and
    /// never reaches the engine.  A press with modifiers beyond a lone shift
    /// flushes the pending composition and asks for the key to be forwarded
    /// unmodified.  Any other press must be evaluated in the composition
    /// engine; its answer then goes to `handle_key_result`.
    pub fn handle_forward_event(&mut self, ic: &mut KimeData, xev: KeyEvent) -> (r: ForwardResult)
        requires
            old(self).ic_wf(*old(ic)),
        ensures
            final(self).ic_wf(*final(ic)),
            final(self).model(*final(ic)) == forward_model(old(self).model(*old(ic)), xev),
            final(ic).style == old(ic).style,
            Self::same_settings(*old(self), *final(self)),
            xev.response_type != KEY_PRESS_EVENT ==> r is Skip && *final(self) == *old(self)
                && *final(ic) == *old(ic),
            xev.response_type == KEY_PRESS_EVENT && has_non_shift_modifier(xev.state) ==> (
            r matches ForwardResult::Flushed { cmds } && cmds@ == reset_cmds(*old(ic))),
            xev.response_type == KEY_PRESS_EVENT && !has_non_shift_modifier(xev.state) ==> (
            r matches ForwardResult::Consult { hardware_code, state } && hardware_code == xev.detail
                as u16 && state == xev.state as u32 && *final(self) == *old(self) && *final(ic)
                == *old(ic)),
    {
        if xev.response_type != KEY_PRESS_EVENT {
            // skip release
            return ForwardResult::Skip;
        }
        if xev.state & 0xFFFE != 0 {
            // other modifiers than shift: flush, then forward the key
            let mut cmds: Vec<ServerCmd> = Vec::new();
            self.reset(ic, &mut cmds);
            return ForwardResult::Flushed { cmds };
        }
        ForwardResult::Consult { hardware_code: xev.detail as u16, state: xev.state as u32 }
    }

    /// Applies one composition-engine answer: performs, in order, exactly
    /// the actions its kind requires, and tells whether the key event was
    /// consumed.
    pub fn handle_key_result(&mut self, ic: &mut KimeData, ret: InputResult) -> (out: KeyOutput)
        requires
            old(self).ic_wf(*old(ic)),
        ensures
            final(self).ic_wf(*final(ic)),
            out.consumed == consumed_after(ret.ty),
            out.cmds@ == key_cmds(*old(ic), ret),
            final(ic).engine.preedit == preedit_after(old(ic).engine.preedit, ret),
            final(ic).pe == key_pe(*old(ic), ret),
            final(ic).style == old(ic).style,
            final(self).registry() == key_registry(old(self).registry(), *old(ic), ret),
            Self::same_settings(*old(self), *final(self)),
    {
        let ret = ic.engine.press_key(ret);
        let mut cmds: Vec<ServerCmd> = Vec::new();
        let consumed: bool;
        match ret.ty {
            InputResultType::Bypass => {
                consumed = false;
            },
            InputResultType::Consume => {
                consumed = true;
            },
            InputResultType::ClearPreedit => {
                self.clear_preedit(ic, &mut cmds);
                consumed = true;
            },
            InputResultType::CommitBypass => {
                cmds.push(ServerCmd::Commit { ch: ret.char1 });
                self.clear_preedit(ic, &mut cmds);
                consumed = false;
                proof {
                    assert(cmds@ =~= key_cmds(*old(ic), ret));
                }
            },
            InputResultType::Commit => {
                cmds.push(ServerCmd::Commit { ch: ret.char1 });
                self.clear_preedit(ic, &mut cmds);
                consumed = true;
                proof {
                    assert(cmds@ =~= key_cmds(*old(ic), ret));
                }
            },
            InputResultType::CommitCommit => {
                cmds.push(ServerCmd::Commit { ch: ret.char1 });
                cmds.push(ServerCmd::Commit { ch: ret.char2 });
                self.clear_preedit(ic, &mut cmds);
                consumed = true;
                proof {
                    assert(cmds@ =~= key_cmds(*old(ic), ret));
                }
            },
            InputResultType::CommitPreedit => {
                cmds.push(ServerCmd::Commit { ch: ret.char1 });
                self.preedit(ic, ret.char2, &mut cmds);
                consumed = true;
                proof {
                    assert(cmds@ =~= key_cmds(*old(ic), ret));
                }
            },
            InputResultType::Preedit => {
                self.preedit(ic, ret.char1, &mut cmds);
                consumed = true;
            },
        }
        KeyOutput { consumed, cmds }
    }

    /// The protocol asked for a synchronous reset reply: flushes the engine
    /// and answers with the flushed text (or empty), while the preedit
    /// display is cleared.  The reply itself carries the text to the client.
    pub fn handle_reset_ic(&mut self, ic: &mut KimeData) -> (r: ResetReply)
        requires
            old(self).ic_wf(*old(ic)),
        ensures
            final(self).ic_wf(*final(ic)),
            r.reply@ == flushed_text(old(ic).engine.preedit),
            r.cmds@ == clear_cmds(old(ic).pe),
            final(ic).engine.preedit is None,
            final(ic).pe is None,
            final(ic).style == old(ic).style,
            final(self).registry() == clear_registry(old(self).registry(), old(ic).pe),
            Self::same_settings(*old(self), *final(self)),
    {
        let mut cmds: Vec<ServerCmd> = Vec::new();
        match ic.engine.reset() {
            Some(c) => {
                self.clear_preedit(ic, &mut cmds);
                ResetReply { reply: char_to_string(c), cmds }
            },
            None => ResetReply { reply: String::new(), cmds },
        }
    }

    /// The context lost keyboard focus: a reset trigger.  Any buffered unit
    /// is committed and the preedit display is cleared.
    pub fn handle_unset_focus(&mut self, ic: &mut KimeData) -> (cmds: Vec<ServerCmd>)
        requires
            old(self).ic_wf(*old(ic)),
        ensures
            final(self).ic_wf(*final(ic)),
            cmds@ == reset_cmds(*old(ic)),
            final(self).registry() == reset_registry(old(self).registry(), *old(ic)),
            final(ic).pe == reset_pe(*old(ic)),
            final(ic).engine.preedit is None,
            final(ic).style == old(ic).style,
            Self::same_settings(*old(self), *final(self)),
    {
        let mut cmds: Vec<ServerCmd> = Vec::new();
        self.reset(ic, &mut cmds);
        cmds
    }

    /// The context is destroyed: its owned overlay window, if any, leaves
    /// the registry and is destroyed; the engine instance is discarded with
    /// the context, so a buffered, uncommitted unit vanishes without a
    /// flush.  Afterwards the registry holds no entry for the context's
    /// former window identifier.
    pub fn handle_destory_ic(&mut self, ic: KimeData) -> (cmds: Vec<ServerCmd>)
        requires
            old(self).ic_wf(ic),
        ensures
            cmds@ == clear_cmds(ic.pe),
            final(self).registry() == clear_registry(old(self).registry(), ic.pe),
            ic.pe matches Some(w) ==> !final(self).registry().contains_key(w),
            Self::same_settings(*old(self), *final(self)),
    {
        let mut cmds: Vec<ServerCmd> = Vec::new();
        match ic.pe {
            Some(w) => {
                let _removed = registry_remove(&mut self.preedit_windows, w);
                cmds.push(ServerCmd::CleanWindow { window: w });
            },
            None => {},
        }
        cmds
    }

    /// Fresh per-context data for a newly negotiated context.
    pub fn new_ic_data(&mut self, input_style: InputStyle) -> (r: KimeData)
        ensures
            r.engine.preedit is None,
            r.pe is None,
            r.style == input_style,
            *final(self) == *old(self),
    {
        KimeData::new(input_style)
    }

    /// A context was created: ask the protocol server to forward key press
    /// and key release events for it, unsynchronized.
    pub fn handle_create_ic(&mut self, ic: &mut KimeData) -> (cmds: Vec<ServerCmd>)
        ensures
            cmds@ == seq![
                (ServerCmd::SetEventMask {
                    forward_mask: KEY_PRESS_MASK | KEY_RELEASE_MASK,
                    sync_mask: 0,
                }),
            ],
            *final(self) == *old(self),
            *final(ic) == *old(ic),
    {
        let mut cmds: Vec<ServerCmd> = Vec::new();
        cmds.push(ServerCmd::SetEventMask {
            forward_mask: KEY_PRESS_MASK | KEY_RELEASE_MASK,
            sync_mask: 0,
        });
        cmds
    }

    /// The exactly seven supported style combinations: root-window default,
    /// three positioned ("off-the-spot") styles, and three callback-based
    /// ("on-the-spot") styles.  Other combinations are rejected by the
    /// external protocol negotiation, not here.
    pub fn input_styles(&self) -> (r: Vec<InputStyle>)
        ensures
            r@ == supported_styles(),
    {
        let mut styles: Vec<InputStyle> = Vec::new();
        styles.push(InputStyle::new(PREEDIT_NOTHING | STATUS_NOTHING));
        styles.push(InputStyle::new(PREEDIT_POSITION | STATUS_AREA));
        styles.push(InputStyle::new(PREEDIT_POSITION | STATUS_NOTHING));
        styles.push(InputStyle::new(PREEDIT_POSITION | STATUS_NONE));
        styles.push(InputStyle::new(PREEDIT_CALLBACKS | STATUS_AREA));
        styles.push(InputStyle::new(PREEDIT_CALLBACKS | STATUS_NOTHING));
        styles.push(InputStyle::new(PREEDIT_CALLBACKS | STATUS_NONE));
        proof {
            assert(styles@ =~= supported_styles());
        }
        styles
    }

    /// A client connected: nothing to decide.
    pub fn handle_connect(&mut self)
        ensures
            *final(self) == *old(self),
    {
    }

    /// The client set context values: nothing to decide.
    pub fn handle_set_ic_values(&mut self, ic: &mut KimeData)
        ensures
            *final(self) == *old(self),
            *final(ic) == *old(ic),
    {
    }

    /// The client starts inline preedit feedback: nothing to decide.
    pub fn handle_preedit_start(&mut self, ic: &mut KimeData)
        ensures
            *final(self) == *old(self),
            *final(ic) == *old(ic),
    {
    }

    /// The client moved its caret: nothing to decide.
    pub fn handle_caret(&mut self, ic: &mut KimeData, _position: i32)
        ensures
            *final(self) == *old(self),
            *final(ic) == *old(ic),
    {
    }

    /// The context gained keyboard focus: nothing to decide.
    pub fn handle_set_focus(&mut self, ic: &mut KimeData)
        ensures
            *final(self) == *old(self),
            *final(ic) == *old(ic),
    {
    }
}

/// The synchronous reset reply's text: the flushed unit or nothing.
pub open spec fn flushed_text(buf: Option<char>) -> Seq<char> {
    match buf {
        Some(c) => seq![c],
        None => Seq::empty(),
    }
}

/// The list of the seven supported style combinations, in negotiation order.
pub open spec fn supported_styles() -> Seq<InputStyle> {
    seq![
        InputStyle { bits: PREEDIT_NOTHING | STATUS_NOTHING },
        InputStyle { bits: PREEDIT_POSITION | STATUS_AREA },
        InputStyle { bits: PREEDIT_POSITION | STATUS_NOTHING },
        InputStyle { bits: PREEDIT_POSITION | STATUS_NONE },
        InputStyle { bits: PREEDIT_CALLBACKS | STATUS_AREA },
        InputStyle { bits: PREEDIT_CALLBACKS | STATUS_NOTHING },
        InputStyle { bits: PREEDIT_CALLBACKS | STATUS_NONE },
    ]
}

/// Relies on char's ToString: the returned string holds exactly the one
/// character.
#[verifier::external_body]
fn char_to_string(c: char) -> (r: String)
    ensures
        r@ == seq![c],
{
    c.to_string()
}

} // verus!
