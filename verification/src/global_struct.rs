//! What a shell session owns: its variables, its settings and its builtin commands.

use vstd::prelude::*;
use vstd::string::StringSliceAdditionalSpecFns;

use crate::global_struct::default_utils::DefaultUtils;
use crate::global_struct::environment::{Environment, Variables};
use crate::global_struct::settings::{Mode, Settings};

pub mod default_utils;
pub mod environment;
pub mod settings;

verus! {

/// The state of a session. The driver owns it and hands it down the call chain.
pub struct GS {
    pub environment: Environment,
    pub settings: Settings,
    pub default_utils: DefaultUtils,
}

impl Default for GS {
    fn default() -> (gs: Self)
        ensures
            gs.environment@ == Variables::empty(),
            gs.settings.mode == Mode::initial(),
            gs.settings.invitation_input_symbol@ == ">".spec_bytes(),
    {
        GS {
            environment: Environment::default(),
            settings: Settings::default(),
            default_utils: DefaultUtils::default(),
        }
    }
}

} // verus!
