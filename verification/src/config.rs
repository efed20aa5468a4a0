//! Process-wide configuration snapshot: loaded once, immutable afterwards,
//! shared by reference with every consumer.

use vstd::prelude::*;

verus! {

/// Read-only settings of the input method server.
///
/// The values are produced once, at process start, by an external
/// configuration provider; this snapshot only carries them.  Every engine
/// consultation and every preedit window creation reads the same snapshot.
pub struct Config {
    /// Name of the font the preedit overlay windows render with.
    pub xim_font_name: String,
    /// Whether plain (non-composing) characters are committed directly.
    pub gtk_commit_english: bool,
}

impl Config {
    /// Builds the snapshot from the values the configuration provider handed out.
    pub fn new(xim_font_name: String, gtk_commit_english: bool) -> (r: Self)
        ensures
            r.xim_font_name@ == xim_font_name@,
            r.gtk_commit_english == gtk_commit_english,
    {
        Config { xim_font_name, gtk_commit_english }
    }

    /// The font name preedit overlay windows are created with.
    pub fn xim_font_name(&self) -> (r: &str)
        ensures
            r@ == self.xim_font_name@,
    {
        self.xim_font_name.as_str()
    }

    /// Whether plain characters bypass composition and are committed directly.
    pub fn gtk_commit_english(&self) -> (r: bool)
        ensures
            r == self.gtk_commit_english,
    {
        self.gtk_commit_english
    }
}

} // verus!
