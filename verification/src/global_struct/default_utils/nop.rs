//! The builtin that does nothing.

use vstd::prelude::*;
use vstd::string::StringSliceAdditionalSpecFns;

use crate::ascii::NUL;
use crate::bytes::{copy, from_text};
use crate::global_struct::default_utils::{Outcome, OutcomeView};
use crate::global_struct::environment::Environment;
use crate::global_struct::settings::Settings;
use crate::program_output::ProgramOutput;

verus! {

/// `nop`: stands for a stage without words.
pub struct Nop {
    pub name: Vec<u8>,
    pub path: Vec<u8>,
}

impl Nop {
    /// Succeeds, writes nothing and changes nothing.
    pub fn execute(
        &self,
        args: Vec<Vec<u8>>,
        settings: &mut Settings,
        environment: &mut Environment,
    ) -> (outcome: Outcome)
        ensures
            outcome@ == OutcomeView::success(),
            *final(settings) == *old(settings),
            final(environment)@ == old(environment)@,
    {
        Outcome::Finished(ProgramOutput::new(0, Vec::new(), Vec::new()))
    }

    /// Puts the pseudo-path of the builtin, closed by a NUL, in the place of a name.
    pub fn name_into_path(&self, name: &mut Vec<u8>)
        ensures
            final(name)@ == self.path@.push(NUL),
    {
        let mut path = copy(&self.path);
        path.push(NUL);
        *name = path;
    }
}

impl Default for Nop {
    fn default() -> (nop: Self)
        ensures
            nop.name@ == "nop".spec_bytes(),
            nop.path@ == "@nop".spec_bytes(),
    {
        Nop { name: from_text("nop"), path: from_text("@nop") }
    }
}

} // verus!
