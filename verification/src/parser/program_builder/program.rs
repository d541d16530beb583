//! One statement: a command and its arguments, as they were written.

use vstd::prelude::*;

use crate::bytes::strings_view;
use crate::global_struct::environment::{Environment, Variables};
use crate::parser::arg_builder::arg::{Arg, ArgView};

verus! {

/// A statement as a mathematical value: its arguments in order.
pub type ProgramView = Seq<ArgView>;

/// The models of the arguments of a sequence, in order.
pub open spec fn args_view(args: Seq<Arg>) -> Seq<ArgView> {
    Seq::new(args.len(), |i: int| args[i]@)
}

/// The statement with the argument, if there is one, at its end.
pub open spec fn program_with(program: ProgramView, arg: Option<ArgView>) -> ProgramView {
    match arg {
        Some(arg) => program.push(arg),
        None => program,
    }
}

/// The variables once every argument of the statement has been carried out, in
/// order.
pub open spec fn prepared_variables(program: ProgramView, variables: Variables) -> Variables
    decreases program.len(),
{
    if program.len() == 0 {
        variables
    } else {
        program.last().effect(prepared_variables(program.drop_last(), variables))
    }
}

/// The words of the command line that the statement gives: each argument is carried
/// out with the variables that the arguments before it have left, and the arguments
/// that give no byte are left out.
pub open spec fn prepared_words(program: ProgramView, variables: Variables) -> Seq<Seq<u8>>
    decreases program.len(),
{
    if program.len() == 0 {
        Seq::empty()
    } else {
        let words = prepared_words(program.drop_last(), variables);
        let word = program.last().word(prepared_variables(program.drop_last(), variables));
        if word.len() > 0 {
            words.push(word)
        } else {
            words
        }
    }
}

/// The model of a statement that may be absent.
pub open spec fn program_option_view(program: Option<Program>) -> Option<ProgramView> {
    match program {
        Some(program) => Some(program@),
        None => None,
    }
}

/// A statement.
#[derive(Debug, PartialEq, Eq)]
pub struct Program {
    args: Vec<Arg>,
}

impl View for Program {
    type V = ProgramView;

    closed spec fn view(&self) -> ProgramView {
        args_view(self.args@)
    }
}

impl Default for Program {
    fn default() -> (program: Self)
        ensures
            program@ == Seq::<ArgView>::empty(),
    {
        let program = Program { args: Vec::new() };
        program
    }
}

impl Program {
    /// A statement made of `args`.
    pub fn new(args: Vec<Arg>) -> (program: Program)
        ensures
            program@ == args_view(args@),
    {
        Program { args }
    }

    /// Carries the statement out as far as the shell itself can: variables give way
    /// to their values, assignments are made, and the words that are left are the
    /// command and its arguments.
    pub fn prepare(self, environment: &mut Environment) -> (words: Vec<Vec<u8>>)
        ensures
            strings_view(words@) == prepared_words(self@, old(environment)@),
            final(environment)@ == prepared_variables(self@, old(environment)@),
    {
        let ghost args = self.args@;
        let ghost variables = environment@;
        let mut words: Vec<Vec<u8>> = Vec::new();
        for arg in it: self.args
            invariant
                it.seq() == args,
                environment@ == prepared_variables(
                    args_view(args.take(it.index() as int)),
                    variables,
                ),
                strings_view(words@) == prepared_words(
                    args_view(args.take(it.index() as int)),
                    variables,
                ),
        {
            let word = arg.into_string_with_executing(environment);
            if word.len() > 0 {
                words.push(word);
            }
            proof {
                let k = it.index() as int;
                assert(args_view(args.take(k + 1)).drop_last() =~= args_view(args.take(k)));
            }
        }
        assert(args.take(args.len() as int) =~= args);
        words
    }

    /// Puts an argument at the end of the statement.
    pub fn push(&mut self, arg: Arg)
        ensures
            final(self)@ == old(self)@.push(arg@),
    {
        self.args.push(arg);
    }

    /// Tells whether the statement holds no argument.
    pub fn is_empty(&self) -> (empty: bool)
        ensures
            empty == (self@.len() == 0),
    {
        self.args.len() == 0
    }
}

} // verus!
