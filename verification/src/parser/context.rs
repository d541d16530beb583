//! The state that the token, argument and statement machines share while one
//! statement is parsed.

use vstd::prelude::*;

use crate::parser::arg_builder::ArgBuilderState;

verus! {

#[derive(Clone, Copy, Debug, PartialEq, Eq, Structural)]
pub struct Context {
    /// The quote mode the argument machine is in.
    pub arg_builder_state: ArgBuilderState,
    /// Whether the token machine is in the middle of a token.
    pub token_in_process: bool,
    /// Whether an unquoted `=` has marked the argument under construction.
    pub current_arg_is_setter: bool,
}

impl Context {
    /// The context at the start of a statement.
    pub open spec fn initial() -> Context {
        Context {
            arg_builder_state: ArgBuilderState::Default,
            token_in_process: false,
            current_arg_is_setter: false,
        }
    }
}

impl Default for Context {
    fn default() -> (context: Self)
        ensures
            context == Context::initial(),
    {
        Context {
            arg_builder_state: ArgBuilderState::Default,
            token_in_process: false,
            current_arg_is_setter: false,
        }
    }
}

} // verus!
