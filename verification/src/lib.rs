//! Server-side core of an input method that composes multi-keystroke text
//! (Korean syllables) from raw keyboard events and commits finished text into
//! client applications.
//!
//! The crate holds the logic worth stating exactly: the per-context state
//! machine that interprets composition-engine results into protocol actions,
//! the registry of on-screen preedit overlay windows it drives, and the
//! observable contract of the composition engine itself.  The wire protocol,
//! the X11 connection and the native composition automaton are external
//! collaborators; their answers enter the handler as plain values and the
//! actions the handler decides on leave it as plain values.

pub mod command;
pub mod config;
pub mod engine;
pub mod handler;
pub mod registry;
pub mod style;

pub use command::{ForwardResult, KeyOutput, ResetReply, ServerCmd};
pub use config::Config;
pub use engine::{InputEngine, InputResult, InputResultType};
pub use handler::{KeyEvent, KimeData, KimeHandler};
pub use style::InputStyle;
