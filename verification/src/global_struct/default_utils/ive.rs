//! The builtin that switches the interactive mode on and off.

use vstd::prelude::*;
use vstd::string::StringSliceAdditionalSpecFns;

use crate::ascii::NUL;
use crate::bytes::{copy, equal, from_text, join, joined, strings_view};
use crate::global_struct::default_utils::{Outcome, OutcomeView};
use crate::global_struct::environment::Environment;
use crate::global_struct::settings::{Mode, Settings};
use crate::program_output::ProgramOutput;

verus! {

/// What `ive` says of a call without exactly one argument.
pub open spec fn ive_arity_message(args: Seq<Seq<u8>>) -> Seq<u8> {
    "Incorrect number of arguments: ".spec_bytes() + joined(args)
}

/// What `ive` says of an argument that is neither `on` nor `off`.
pub open spec fn ive_argument_message(args: Seq<Seq<u8>>) -> Seq<u8> {
    "Wrong argument: ".spec_bytes() + joined(args)
}

/// What `ive` asks of the shell: it succeeds with exactly one argument, `on` or
/// `off`, and fails with a message otherwise.
pub open spec fn ive_outcome(args: Seq<Seq<u8>>) -> OutcomeView {
    if args.len() != 2 {
        OutcomeView::failure(ive_arity_message(args))
    } else if args[1] == "on".spec_bytes() || args[1] == "off".spec_bytes() {
        OutcomeView::success()
    } else {
        OutcomeView::failure(ive_argument_message(args))
    }
}

/// The modes after `ive`: `on` and `off` set the interactive mode, and a call that
/// fails changes nothing.
pub open spec fn ive_modes(args: Seq<Seq<u8>>, modes: Mode) -> Mode {
    if args.len() != 2 {
        modes
    } else if args[1] == "on".spec_bytes() {
        Mode { interactive: true, xargs: modes.xargs }
    } else if args[1] == "off".spec_bytes() {
        Mode { interactive: false, xargs: modes.xargs }
    } else {
        modes
    }
}

/// `ive on` and `ive off`: the interactive mode.
pub struct Ive {
    pub name: Vec<u8>,
    pub path: Vec<u8>,
}

impl Ive {
    /// Switches the interactive mode.
    ///
    /// `args` holds the name of the builtin and its arguments. With exactly one
    /// argument, `on` or `off`, the mode is set and the call succeeds. Every other
    /// call fails with code -1 and a message, and changes nothing.
    pub fn execute(
        &self,
        args: Vec<Vec<u8>>,
        settings: &mut Settings,
        environment: &mut Environment,
    ) -> (outcome: Outcome)
        ensures
            outcome@ == ive_outcome(strings_view(args@)),
            final(settings).mode == ive_modes(strings_view(args@), old(settings).mode),
            final(settings).invitation_input_symbol == old(settings).invitation_input_symbol,
            final(environment)@ == old(environment)@,
    {
        if args.len() != 2 {
            let mut message = from_text("Incorrect number of arguments: ");
            let mut line = join(&args);
            message.append(&mut line);
            return Outcome::Finished(ProgramOutput::new(-1, Vec::new(), message));
        }
        if equal(&args[1], &from_text("on")) {
            settings.set_interactive_mode(true);
        } else if equal(&args[1], &from_text("off")) {
            settings.set_interactive_mode(false);
        } else {
            let mut message = from_text("Wrong argument: ");
            let mut line = join(&args);
            message.append(&mut line);
            return Outcome::Finished(ProgramOutput::new(-1, Vec::new(), message));
        }
        Outcome::Finished(ProgramOutput::new(0, Vec::new(), Vec::new()))
    }

    /// Puts the pseudo-path of the builtin, closed by a NUL, in the place of a name.
    pub fn name_into_path(&self, name: &mut Vec<u8>)
        ensures
            final(name)@ == self.path@.push(NUL),
    {
        let mut path = copy(&self.path);
        path.push(NUL);
        *name = path;
    }
}

impl Default for Ive {
    fn default() -> (ive: Self)
        ensures
            ive.name@ == "ive".spec_bytes(),
            ive.path@ == "@ive".spec_bytes(),
    {
        Ive { name: from_text("ive"), path: from_text("@ive") }
    }
}

} // verus!
