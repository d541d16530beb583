//! The statement machine: groups arguments into one statement and splits on `;`.

use vstd::prelude::*;

use crate::ascii::SEMICOLON;
use crate::parser::arg_builder::{
    arg_flush, arg_step, ArgBuilder, ArgBuilderState, ArgBuilderView,
};
use crate::parser::context::Context;
use crate::parser::program_builder::program::{
    program_option_view, program_with, Program, ProgramView,
};
use crate::parser::token::is_accepted;
use crate::parser::ParseError;

pub mod program;

verus! {

/// The statement machine as a mathematical value.
pub struct ProgramBuilderView {
    /// The statement under construction.
    pub program: ProgramView,
    /// The argument machine.
    pub args: ArgBuilderView,
}

impl ProgramBuilderView {
    /// The machine that holds nothing.
    pub open spec fn empty() -> ProgramBuilderView {
        ProgramBuilderView { program: Seq::empty(), args: ArgBuilderView::empty() }
    }
}

/// The outcome of one step of the statement machine.
pub struct ProgramStep {
    /// The machine after the step.
    pub builder: ProgramBuilderView,
    /// The shared context after the step.
    pub context: Context,
    /// The statement that the step completed, if any.
    pub emitted: Option<ProgramView>,
}

/// Closes the statement machine outside quotes: the argument machine is closed, the
/// argument it hands out is taken, and the statement leaves if it holds an argument.
pub open spec fn program_flush(builder: ProgramBuilderView, context: Context) -> ProgramStep {
    let flushed = arg_flush(builder.args, context);
    let program = program_with(builder.program, flushed.emitted);
    ProgramStep {
        builder: ProgramBuilderView { program: Seq::empty(), args: flushed.builder },
        context: flushed.context,
        emitted: if program.len() > 0 {
            Some(program)
        } else {
            None
        },
    }
}

/// One step of the statement machine on an accepted byte: `;` outside quotes closes
/// the statement; every other byte goes to the argument machine.
pub open spec fn program_step(builder: ProgramBuilderView, context: Context, byte: u8)
    -> ProgramStep {
    if byte == SEMICOLON && context.arg_builder_state == ArgBuilderState::Default {
        program_flush(builder, context)
    } else {
        let stepped = arg_step(builder.args, context, byte);
        ProgramStep {
            builder: ProgramBuilderView {
                program: program_with(builder.program, stepped.emitted),
                args: stepped.builder,
            },
            context: stepped.context,
            emitted: None,
        }
    }
}

/// The statement machine.
#[derive(Debug, PartialEq, Eq)]
pub struct ProgramBuilder {
    current_program: Program,
    arg_builder: ArgBuilder,
}

impl View for ProgramBuilder {
    type V = ProgramBuilderView;

    closed spec fn view(&self) -> ProgramBuilderView {
        ProgramBuilderView { program: self.current_program@, args: self.arg_builder@ }
    }
}

impl Default for ProgramBuilder {
    fn default() -> (builder: Self)
        ensures
            builder@ == ProgramBuilderView::empty(),
    {
        ProgramBuilder { current_program: Program::default(), arg_builder: ArgBuilder::default() }
    }
}

impl ProgramBuilder {
    /// Feeds one byte to the machine.
    ///
    /// A byte outside the alphabet is refused and changes nothing. Every other byte
    /// moves the machine as `program_step` says.
    pub fn apply(&mut self, byte: u8, context: &mut Context) -> (result: Result<
        Option<Program>,
        ParseError,
    >)
        ensures
            !is_accepted(byte) ==> {
                &&& result == Err::<Option<Program>, ParseError>(
                    ParseError::UnexpectedSymbol(byte),
                )
                &&& final(self)@ == old(self)@
                &&& *final(context) == *old(context)
            },
            is_accepted(byte) ==> {
                &&& result is Ok
                &&& final(self)@ == program_step(old(self)@, *old(context), byte).builder
                &&& *final(context) == program_step(old(self)@, *old(context), byte).context
                &&& program_option_view(result->Ok_0) == program_step(
                    old(self)@,
                    *old(context),
                    byte,
                ).emitted
            },
    {
        if byte == SEMICOLON {
            match context.arg_builder_state {
                ArgBuilderState::Default => {
                    return self.finish(context);
                },
                ArgBuilderState::WeakSep | ArgBuilderState::StrongSep => {},
            }
        }
        match self.arg_builder.apply(byte, context) {
            Ok(arg) => {
                match arg {
                    Some(arg) => {
                        self.current_program.push(arg);
                    },
                    None => {},
                }
                Ok(None)
            },
            Err(error) => Err(error),
        }
    }

    /// Closes the machine.
    ///
    /// Inside a quote this is a syntax error and changes nothing. Outside, the
    /// machine moves as `program_flush` says.
    pub fn finish(&mut self, context: &mut Context) -> (result: Result<
        Option<Program>,
        ParseError,
    >)
        ensures
            old(context).arg_builder_state != ArgBuilderState::Default ==> {
                &&& result == Err::<Option<Program>, ParseError>(ParseError::UnterminatedQuote)
                &&& final(self)@ == old(self)@
                &&& *final(context) == *old(context)
            },
            old(context).arg_builder_state == ArgBuilderState::Default ==> {
                &&& result is Ok
                &&& final(self)@ == program_flush(old(self)@, *old(context)).builder
                &&& *final(context) == program_flush(old(self)@, *old(context)).context
                &&& program_option_view(result->Ok_0) == program_flush(
                    old(self)@,
                    *old(context),
                ).emitted
            },
    {
        match self.arg_builder.finish(context) {
            Ok(arg) => {
                match arg {
                    Some(arg) => {
                        self.current_program.push(arg);
                    },
                    None => {},
                }
                Ok(self.return_if_not_empty())
            },
            Err(error) => Err(error),
        }
    }

    /// Hands out the statement under construction if it holds an argument, and
    /// starts a new one.
    fn return_if_not_empty(&mut self) -> (output: Option<Program>)
        ensures
            final(self)@ == (ProgramBuilderView {
                program: Seq::empty(),
                args: old(self)@.args,
            }),
            program_option_view(output) == if old(self)@.program.len() > 0 {
                Some(old(self)@.program)
            } else {
                None
            },
    {
        if self.current_program.is_empty() {
            assert(self@.program =~= Seq::empty());
            None
        } else {
            let mut program = Program::default();
            std::mem::swap(&mut self.current_program, &mut program);
            Some(program)
        }
    }
}

} // verus!
