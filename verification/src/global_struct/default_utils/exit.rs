//! The builtin that ends the session.

use vstd::prelude::*;
use vstd::string::StringSliceAdditionalSpecFns;

use crate::ascii::NUL;
use crate::bytes::{copy, from_text};
use crate::global_struct::default_utils::{Outcome, OutcomeView};
use crate::global_struct::environment::Environment;
use crate::global_struct::settings::Settings;

verus! {

/// `exit`: ends the shell.
pub struct Exit {
    pub name: Vec<u8>,
    pub path: Vec<u8>,
}

impl Exit {
    /// Asks for the end of the process, with status 0; writes nothing and changes
    /// nothing.
    pub fn execute(
        &self,
        args: Vec<Vec<u8>>,
        settings: &mut Settings,
        environment: &mut Environment,
    ) -> (outcome: Outcome)
        ensures
            outcome@ == (OutcomeView::Exit { code: 0 }),
            *final(settings) == *old(settings),
            final(environment)@ == old(environment)@,
    {
        Outcome::Exit(0)
    }

    /// Puts the pseudo-path of the builtin, closed by a NUL, in the place of a name.
    pub fn name_into_path(&self, name: &mut Vec<u8>)
        ensures
            final(name)@ == self.path@.push(NUL),
    {
        let mut path = copy(&self.path);
        path.push(NUL);
        *name = path;
    }
}

impl Default for Exit {
    fn default() -> (exit: Self)
        ensures
            exit.name@ == "exit".spec_bytes(),
            exit.path@ == "@exit".spec_bytes(),
    {
        Exit { name: from_text("exit"), path: from_text("@exit") }
    }
}

} // verus!
