//! How the wizard is drawn: the symbol set and the screen layout.

use vstd::prelude::*;

verus! {

/// The symbol set of the key hints.
#[derive(Clone, Copy, Debug, PartialEq, Eq, Structural)]
pub enum TuiSymbols {
    /// Plain words, for terminals without the glyphs.
    Ascii,
    Unicode,
    NerdFont,
}

/// Where on the screen the wizard is drawn.
#[derive(Clone, Copy, Debug, PartialEq, Eq, Structural)]
pub enum TUILayout {
    Inline,
    Fullscreen,
    FullscreenCenter,
}

/// The settings of the terminal interface.
#[derive(Clone, Copy, Debug, PartialEq, Eq, Structural)]
pub struct TUIConfig {
    pub symbols: TuiSymbols,
    pub layout: TUILayout,
}

impl Default for TUIConfig {
    /// Unicode symbols, drawn inline.
    fn default() -> (config: TUIConfig)
        ensures
            config == (TUIConfig { symbols: TuiSymbols::Unicode, layout: TUILayout::Inline }),
    {
        TUIConfig { symbols: TuiSymbols::Unicode, layout: TUILayout::Inline }
    }
}

impl TUIConfig {
    /// The settings to use: those stored by the user, or the defaults
    /// where nothing is stored.
    pub fn load(stored: Option<TUIConfig>) -> (config: TUIConfig)
        ensures
            config == match stored {
                Some(c) => c,
                None => TUIConfig { symbols: TuiSymbols::Unicode, layout: TUILayout::Inline },
            },
    {
        match stored {
            Some(c) => c,
            None => TUIConfig::default(),
        }
    }
}

} // verus!
