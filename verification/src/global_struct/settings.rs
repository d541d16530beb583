//! The settings of a session: the two modes that the builtins switch.

use vstd::prelude::*;
use vstd::string::StringSliceAdditionalSpecFns;

use crate::ascii::{LOWER_I, LOWER_X};
use crate::bytes::{extend, from_text};

verus! {

/// The modes.
#[derive(Clone, Copy, Debug, PartialEq, Eq, Structural)]
pub struct Mode {
    /// A child keeps the terminal: nothing of it is captured.
    pub interactive: bool,
    /// What a stage wrote becomes further words of the next stage, not its input.
    pub xargs: bool,
}

impl Mode {
    /// Both modes off.
    pub open spec fn initial() -> Mode {
        Mode { interactive: false, xargs: false }
    }

    /// The letters of the modes that are on: `i`, then `x`.
    pub open spec fn letters(self) -> Seq<u8> {
        (if self.interactive {
            seq![LOWER_I]
        } else {
            Seq::empty()
        }) + (if self.xargs {
            seq![LOWER_X]
        } else {
            Seq::empty()
        })
    }
}

impl Default for Mode {
    fn default() -> (mode: Self)
        ensures
            mode == Mode::initial(),
    {
        Mode { interactive: false, xargs: false }
    }
}

/// The escape sequence that opens the part of the prompt that shows the modes: bold
/// red.
pub open spec fn mode_colour() -> Seq<u8> {
    "\x1b[0;1;31m".spec_bytes()
}

/// The escape sequence that opens the invitation itself: bold white.
pub open spec fn invitation_colour() -> Seq<u8> {
    "\x1b[0;1;37m".spec_bytes()
}

/// The escape sequence that closes the prompt.
pub open spec fn colour_reset() -> Seq<u8> {
    "\x1b[0m".spec_bytes()
}

/// The prompt: the modes that are on, in brackets and followed by a space, if any
/// is on; then the invitation symbol three times.
pub open spec fn invitation(symbol: Seq<u8>, mode: Mode) -> Seq<u8> {
    (if mode.letters().len() > 0 {
        mode_colour() + "(".spec_bytes() + mode.letters() + ") ".spec_bytes()
    } else {
        Seq::empty()
    }) + invitation_colour() + symbol + symbol + symbol + colour_reset()
}

/// The settings of a session.
#[derive(Clone, Debug, PartialEq, Eq)]
pub struct Settings {
    /// The symbol that the prompt is made of.
    pub invitation_input_symbol: Vec<u8>,
    /// The modes that are on.
    pub mode: Mode,
}

impl Settings {
    pub fn set_interactive_mode(&mut self, value: bool)
        ensures
            final(self).mode == (Mode { interactive: value, xargs: old(self).mode.xargs }),
            final(self).invitation_input_symbol == old(self).invitation_input_symbol,
    {
        self.mode.interactive = value
    }

    pub fn set_xargs_mode(&mut self, value: bool)
        ensures
            final(self).mode == (Mode { interactive: old(self).mode.interactive, xargs: value }),
            final(self).invitation_input_symbol == old(self).invitation_input_symbol,
    {
        self.mode.xargs = value
    }

    pub fn is_interactive(&self) -> (interactive: bool)
        ensures
            interactive == self.mode.interactive,
    {
        self.mode.interactive
    }

    /// The prompt.
    pub fn get_invitation_input(&self) -> (prompt: Vec<u8>)
        ensures
            prompt@ == invitation(self.invitation_input_symbol@, self.mode),
    {
        let mut letters: Vec<u8> = Vec::new();
        if self.mode.interactive {
            letters.push(LOWER_I);
        }
        if self.mode.xargs {
            letters.push(LOWER_X);
        }
        let mut output: Vec<u8> = Vec::new();
        if letters.len() > 0 {
            output.append(&mut from_text("\x1b[0;1;31m"));
            output.append(&mut from_text("("));
            output.append(&mut letters);
            output.append(&mut from_text(") "));
        }
        output.append(&mut from_text("\x1b[0;1;37m"));
        let symbol = &self.invitation_input_symbol;
        extend(&mut output, symbol, 0, symbol.len());
        extend(&mut output, symbol, 0, symbol.len());
        extend(&mut output, symbol, 0, symbol.len());
        output.append(&mut from_text("\x1b[0m"));
        output
    }
}

impl Default for Settings {
    fn default() -> (settings: Self)
        ensures
            settings.mode == Mode::initial(),
            settings.invitation_input_symbol@ == ">".spec_bytes(),
    {
        Settings { invitation_input_symbol: from_text(">"), mode: Mode::default() }
    }
}

} // verus!
