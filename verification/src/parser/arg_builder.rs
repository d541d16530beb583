//! The argument machine: groups tokens into one argument and keeps the quote mode.

use vstd::prelude::*;

use crate::ascii::{DOUBLE_QUOTE, QUOTE};
use crate::parser::arg_builder::arg::{arg_option_view, Arg, ArgType, ArgView};
use crate::parser::context::Context;
use crate::parser::token::{is_accepted, token_finish, token_step, Token, TokenView};
use crate::parser::ParseError;

pub mod arg;

verus! {

/// The quote mode.
#[derive(Clone, Copy, Debug, PartialEq, Eq, Structural)]
pub enum ArgBuilderState {
    /// Outside any quote.
    Default,
    /// Inside `"`: verbatim, but `$` still starts a variable.
    WeakSep,
    /// Inside `'`: verbatim.
    StrongSep,
}

impl Default for ArgBuilderState {
    fn default() -> (state: Self)
        ensures
            state == ArgBuilderState::Default,
    {
        ArgBuilderState::Default
    }
}

/// The argument machine as a mathematical value.
pub struct ArgBuilderView {
    /// The argument under construction.
    pub arg: ArgView,
    /// The token under construction.
    pub token: TokenView,
}

impl ArgBuilderView {
    /// The machine that holds nothing.
    pub open spec fn empty() -> ArgBuilderView {
        ArgBuilderView { arg: ArgView::empty(), token: TokenView::empty() }
    }
}

/// The outcome of one step of the argument machine.
pub struct ArgStep {
    /// The machine after the step.
    pub builder: ArgBuilderView,
    /// The shared context after the step.
    pub context: Context,
    /// The argument that the step completed, if any.
    pub emitted: Option<ArgView>,
}

/// Completes the argument under construction if it holds a token: the argument
/// leaves, as an assignment if the context has marked it, the mark is taken back and
/// the machine starts afresh. An argument without a token stays as it is.
pub open spec fn arg_close(builder: ArgBuilderView, context: Context) -> ArgStep {
    if builder.arg.tokens.len() == 0 {
        ArgStep { builder, context, emitted: None }
    } else {
        ArgStep {
            builder: ArgBuilderView::empty(),
            context: Context { current_arg_is_setter: false, ..context },
            emitted: Some(
                ArgView {
                    tokens: builder.arg.tokens,
                    kind: if context.current_arg_is_setter {
                        ArgType::VarSetter
                    } else {
                        builder.arg.kind
                    },
                },
            ),
        }
    }
}

/// Closes the token machine, takes the token it hands out, and completes the
/// argument if it holds a token.
pub open spec fn arg_flush(builder: ArgBuilderView, context: Context) -> ArgStep {
    let closed = token_finish(builder.token, context);
    arg_close(
        ArgBuilderView { arg: builder.arg.with(closed.emitted), token: closed.token },
        closed.context,
    )
}

/// One step of the argument machine on an accepted byte.
///
/// - A quote character outside quotes opens its quote mode and is consumed.
/// - The quote character of the open quote mode closes it and is consumed; the token
///   and the argument under construction are completed.
/// - Every other byte, the other quote character inside a quote too, goes to the
///   token machine. The argument is completed if it holds a token and the token
///   machine says that no token is in progress.
pub open spec fn arg_step(builder: ArgBuilderView, context: Context, byte: u8) -> ArgStep {
    let state = context.arg_builder_state;
    if byte == QUOTE && state == ArgBuilderState::Default {
        ArgStep {
            builder,
            context: Context { arg_builder_state: ArgBuilderState::StrongSep, ..context },
            emitted: None,
        }
    } else if byte == DOUBLE_QUOTE && state == ArgBuilderState::Default {
        ArgStep {
            builder,
            context: Context { arg_builder_state: ArgBuilderState::WeakSep, ..context },
            emitted: None,
        }
    } else if (byte == QUOTE && state == ArgBuilderState::StrongSep) || (byte == DOUBLE_QUOTE
        && state == ArgBuilderState::WeakSep) {
        arg_flush(builder, Context { arg_builder_state: ArgBuilderState::Default, ..context })
    } else {
        let stepped = token_step(builder.token, context, byte);
        let absorbed = ArgBuilderView {
            arg: builder.arg.with(stepped.emitted),
            token: stepped.token,
        };
        if stepped.context.token_in_process {
            ArgStep { builder: absorbed, context: stepped.context, emitted: None }
        } else {
            arg_close(absorbed, stepped.context)
        }
    }
}

/// The argument machine.
#[derive(Debug, PartialEq, Eq)]
pub struct ArgBuilder {
    current_arg: Arg,
    current_token: Token,
}

impl View for ArgBuilder {
    type V = ArgBuilderView;

    closed spec fn view(&self) -> ArgBuilderView {
        ArgBuilderView { arg: self.current_arg@, token: self.current_token@ }
    }
}

impl Default for ArgBuilder {
    fn default() -> (builder: Self)
        ensures
            builder@ == ArgBuilderView::empty(),
    {
        ArgBuilder { current_arg: Arg::default(), current_token: Token::default() }
    }
}

impl ArgBuilder {
    /// Feeds one byte to the machine.
    ///
    /// A byte outside the alphabet is refused and changes nothing. Every other byte
    /// moves the machine as `arg_step` says.
    pub fn apply(&mut self, byte: u8, context: &mut Context) -> (result: Result<
        Option<Arg>,
        ParseError,
    >)
        ensures
            !is_accepted(byte) ==> {
                &&& result == Err::<Option<Arg>, ParseError>(ParseError::UnexpectedSymbol(byte))
                &&& final(self)@ == old(self)@
                &&& *final(context) == *old(context)
            },
            is_accepted(byte) ==> {
                &&& result is Ok
                &&& final(self)@ == arg_step(old(self)@, *old(context), byte).builder
                &&& *final(context) == arg_step(old(self)@, *old(context), byte).context
                &&& arg_option_view(result->Ok_0) == arg_step(
                    old(self)@,
                    *old(context),
                    byte,
                ).emitted
            },
    {
        if byte == QUOTE {
            match context.arg_builder_state {
                ArgBuilderState::Default => {
                    context.arg_builder_state = ArgBuilderState::StrongSep;
                    return Ok(None);
                },
                ArgBuilderState::WeakSep => {},
                ArgBuilderState::StrongSep => {
                    context.arg_builder_state = ArgBuilderState::Default;
                    return Ok(self.flush(context));
                },
            }
        } else if byte == DOUBLE_QUOTE {
            match context.arg_builder_state {
                ArgBuilderState::Default => {
                    context.arg_builder_state = ArgBuilderState::WeakSep;
                    return Ok(None);
                },
                ArgBuilderState::WeakSep => {
                    context.arg_builder_state = ArgBuilderState::Default;
                    return Ok(self.flush(context));
                },
                ArgBuilderState::StrongSep => {},
            }
        }
        match self.current_token.apply(byte, context) {
            Ok(token) => {
                match token {
                    Some(token) => {
                        self.current_arg.push(token);
                    },
                    None => {},
                }
                if !context.token_in_process {
                    Ok(self.return_if_not_empty(context))
                } else {
                    Ok(None)
                }
            },
            Err(error) => Err(error),
        }
    }

    /// Closes the machine.
    ///
    /// Inside a quote this is a syntax error and changes nothing. Outside, the token
    /// and the argument under construction are completed.
    pub fn finish(&mut self, context: &mut Context) -> (result: Result<Option<Arg>, ParseError>)
        ensures
            old(context).arg_builder_state != ArgBuilderState::Default ==> {
                &&& result == Err::<Option<Arg>, ParseError>(ParseError::UnterminatedQuote)
                &&& final(self)@ == old(self)@
                &&& *final(context) == *old(context)
            },
            old(context).arg_builder_state == ArgBuilderState::Default ==> {
                &&& result is Ok
                &&& final(self)@ == arg_flush(old(self)@, *old(context)).builder
                &&& *final(context) == arg_flush(old(self)@, *old(context)).context
                &&& arg_option_view(result->Ok_0) == arg_flush(old(self)@, *old(context)).emitted
            },
    {
        match context.arg_builder_state {
            ArgBuilderState::Default => Ok(self.flush(context)),
            ArgBuilderState::WeakSep | ArgBuilderState::StrongSep => Err(
                ParseError::UnterminatedQuote,
            ),
        }
    }

    /// Closes the token machine and completes the argument.
    fn flush(&mut self, context: &mut Context) -> (output: Option<Arg>)
        ensures
            final(self)@ == arg_flush(old(self)@, *old(context)).builder,
            *final(context) == arg_flush(old(self)@, *old(context)).context,
            arg_option_view(output) == arg_flush(old(self)@, *old(context)).emitted,
    {
        match self.current_token.finish(context) {
            Some(token) => {
                self.current_arg.push(token);
            },
            None => {},
        }
        self.return_if_not_empty(context)
    }

    /// Completes the argument under construction if it holds a token.
    fn return_if_not_empty(&mut self, context: &mut Context) -> (output: Option<Arg>)
        ensures
            final(self)@ == arg_close(old(self)@, *old(context)).builder,
            *final(context) == arg_close(old(self)@, *old(context)).context,
            arg_option_view(output) == arg_close(old(self)@, *old(context)).emitted,
    {
        if self.current_arg.is_empty() {
            None
        } else {
            if context.current_arg_is_setter {
                self.current_arg.set_setter();
                context.current_arg_is_setter = false;
            }
            let mut arg = Arg::default();
            std::mem::swap(&mut self.current_arg, &mut arg);
            self.current_token = Token::default();
            Some(arg)
        }
    }
}

} // verus!
