//! The statement parser: three nested byte-driven machines and the context they share.

use vstd::prelude::*;
use vstd::slice::slice_index_get;
use vstd::string::StringSliceAdditionalSpecFns;

use crate::ascii::{NUL, QUOTE};
use crate::bytes::{from_text, strings_view};
use crate::global_struct::environment::{Environment, Variables};
use crate::parser::arg_builder::arg::ArgType;
use crate::parser::arg_builder::ArgBuilderState;
use crate::parser::context::Context;
use crate::parser::program_builder::program::{
    prepared_variables, prepared_words, program_option_view, Program, ProgramView,
};
use crate::parser::program_builder::{
    program_flush, program_step, ProgramBuilder, ProgramBuilderView,
};
use crate::parser::token::is_accepted;

pub mod arg_builder;
pub mod context;
pub mod theorems;
pub mod program_builder;
pub mod token;

verus! {

/// Why a statement was rejected.
#[derive(Clone, Copy, Debug, PartialEq, Eq, Structural)]
pub enum ParseError {
    /// A byte outside the shell's alphabet.
    UnexpectedSymbol(u8),
    /// The input ended inside a quote.
    UnterminatedQuote,
}

impl ParseError {
    /// What is said of the error.
    pub open spec fn text(self) -> Seq<u8> {
        match self {
            ParseError::UnexpectedSymbol(byte) => "Unexpected symbol: ".spec_bytes() + seq![
                QUOTE,
                byte,
                QUOTE,
            ],
            ParseError::UnterminatedQuote => "Syntax error".spec_bytes(),
        }
    }

    /// What is said of the error.
    pub fn message(&self) -> (message: Vec<u8>)
        ensures
            message@ == self.text(),
    {
        match self {
            ParseError::UnexpectedSymbol(byte) => {
                let mut message = from_text("Unexpected symbol: ");
                message.push(QUOTE);
                message.push(*byte);
                message.push(QUOTE);
                message
            },
            ParseError::UnterminatedQuote => from_text("Syntax error"),
        }
    }
}

/// The parser as a mathematical value.
pub struct ParserView {
    /// The statement machine.
    pub builder: ProgramBuilderView,
    /// The context that the machines share.
    pub context: Context,
}

impl ParserView {
    /// The parser between two statements: nothing under construction.
    pub open spec fn initial() -> ParserView {
        ParserView { builder: ProgramBuilderView::empty(), context: Context::initial() }
    }

    /// What holds of a parser however it was driven: the argument under
    /// construction is not yet marked, and the context marks an assignment only
    /// while a token or an argument is under construction.
    pub open spec fn consistent(self) -> bool {
        &&& self.builder.args.arg.kind == ArgType::Default
        &&& self.context.current_arg_is_setter ==> self.builder.args.arg.tokens.len() > 0
            || self.builder.args.token.bytes.len() > 0
    }

    /// The parser after an accepted byte.
    pub open spec fn stepped(self, byte: u8) -> ParserView {
        let stepped = program_step(self.builder, self.context, byte);
        ParserView { builder: stepped.builder, context: stepped.context }
    }

    /// The statement that an accepted byte completes, if any.
    pub open spec fn emitted(self, byte: u8) -> Option<ProgramView> {
        program_step(self.builder, self.context, byte).emitted
    }

    /// The statement that the end of the input completes, if any.
    pub open spec fn flushed(self) -> Option<ProgramView> {
        program_flush(self.builder, self.context).emitted
    }
}

/// The statements with one more, if there is one, at their end.
pub open spec fn with_statement(statements: Seq<ProgramView>, statement: Option<ProgramView>)
    -> Seq<ProgramView> {
    match statement {
        Some(statement) => statements.push(statement),
        None => statements,
    }
}

/// Whether the parser takes every byte of `input`, one after the other.
pub open spec fn accepts_all(input: Seq<u8>) -> bool {
    forall|i: int| 0 <= i < input.len() ==> is_accepted(#[trigger] input[i])
}

/// The parser after the bytes of an input that it accepts.
pub open spec fn run_state(parser: ParserView, input: Seq<u8>) -> ParserView
    decreases input.len(),
{
    if input.len() == 0 {
        parser
    } else {
        run_state(parser, input.drop_last()).stepped(input.last())
    }
}

/// The statements that the bytes of an accepted input complete, in order.
pub open spec fn run_output(parser: ParserView, input: Seq<u8>) -> Seq<ProgramView>
    decreases input.len(),
{
    if input.len() == 0 {
        Seq::empty()
    } else {
        with_statement(
            run_output(parser, input.drop_last()),
            run_state(parser, input.drop_last()).emitted(input.last()),
        )
    }
}

/// The first byte of an input that the parser does not take.
pub open spec fn first_refused(input: Seq<u8>) -> u8
    decreases input.len(),
{
    if input.len() == 0 {
        0
    } else if accepts_all(input.drop_last()) {
        input.last()
    } else {
        first_refused(input.drop_last())
    }
}

/// The statements of a whole input.
///
/// A byte outside the alphabet is an error, the first such byte the one that is
/// reported; so is an input that ends inside a quote. Otherwise the statements are
/// those that the bytes complete and the one that the end of the input completes.
pub open spec fn parsed(parser: ParserView, input: Seq<u8>) -> Result<Seq<ProgramView>, ParseError> {
    if !accepts_all(input) {
        Err(ParseError::UnexpectedSymbol(first_refused(input)))
    } else if run_state(parser, input).context.arg_builder_state != ArgBuilderState::Default {
        Err(ParseError::UnterminatedQuote)
    } else {
        Ok(with_statement(run_output(parser, input), run_state(parser, input).flushed()))
    }
}

/// The variables once every statement has been carried out, in order.
pub open spec fn executed_variables(programs: Seq<ProgramView>, variables: Variables) -> Variables
    decreases programs.len(),
{
    if programs.len() == 0 {
        variables
    } else {
        prepared_variables(programs.last(), executed_variables(programs.drop_last(), variables))
    }
}

/// The words that the statements give, in order, each statement carried out with
/// the variables that the statements before it have left.
pub open spec fn executed_words(programs: Seq<ProgramView>, variables: Variables) -> Seq<Seq<u8>>
    decreases programs.len(),
{
    if programs.len() == 0 {
        Seq::empty()
    } else {
        executed_words(programs.drop_last(), variables) + prepared_words(
            programs.last(),
            executed_variables(programs.drop_last(), variables),
        )
    }
}

/// Every word with a NUL at its end.
pub open spec fn terminated(words: Seq<Seq<u8>>) -> Seq<Seq<u8>> {
    Seq::new(words.len(), |i: int| words[i].push(NUL))
}

/// A step of a consistent parser leaves it consistent.
pub proof fn lemma_step_consistent(parser: ParserView, byte: u8)
    requires
        parser.consistent(),
        is_accepted(byte),
    ensures
        parser.stepped(byte).consistent(),
{
}

/// The end of the input, outside quotes, leaves a consistent parser as it was
/// before the statement.
pub proof fn lemma_flush_initial(parser: ParserView)
    requires
        parser.consistent(),
        parser.context.arg_builder_state == ArgBuilderState::Default,
    ensures
        program_flush(parser.builder, parser.context).builder == ProgramBuilderView::empty(),
        program_flush(parser.builder, parser.context).context == Context::initial(),
{
    let flushed = program_flush(parser.builder, parser.context);
    assert(flushed.builder.args.arg.tokens =~= Seq::empty());
}

/// The parser of statements.
#[derive(Debug, PartialEq, Eq)]
pub struct Parser {
    program_builder: ProgramBuilder,
    context: Context,
}

impl View for Parser {
    type V = ParserView;

    closed spec fn view(&self) -> ParserView {
        ParserView { builder: self.program_builder@, context: self.context }
    }
}

impl Default for Parser {
    fn default() -> (parser: Self)
        ensures
            parser@ == ParserView::initial(),
    {
        Parser { program_builder: ProgramBuilder::default(), context: Context::default() }
    }
}

impl Parser {
    #[verifier::type_invariant]
    spec fn well_formed(&self) -> bool {
        self@.consistent()
    }

    /// Takes the machines out, and leaves the parser as it is between two
    /// statements.
    fn take(&mut self) -> (parts: (ProgramBuilder, Context))
        ensures
            final(self)@ == ParserView::initial(),
            parts.0@ == old(self)@.builder,
            parts.1 == old(self)@.context,
            old(self)@.consistent(),
    {
        proof {
            use_type_invariant(&*self);
        }
        let context = self.context;
        self.context = Context::default();
        let mut builder = ProgramBuilder::default();
        std::mem::swap(&mut self.program_builder, &mut builder);
        (builder, context)
    }

    /// Feeds one byte to the parser.
    ///
    /// A byte outside the alphabet is refused, and the parser drops what it held. On
    /// every other byte the machines move, and the statement that the byte
    /// completes, if any, is handed out.
    pub fn apply(&mut self, byte: u8) -> (result: Result<Option<Program>, ParseError>)
        ensures
            !is_accepted(byte) ==> {
                &&& result == Err::<Option<Program>, ParseError>(
                    ParseError::UnexpectedSymbol(byte),
                )
                &&& final(self)@ == ParserView::initial()
            },
            is_accepted(byte) ==> {
                &&& result is Ok
                &&& final(self)@ == old(self)@.stepped(byte)
                &&& program_option_view(result->Ok_0) == old(self)@.emitted(byte)
            },
    {
        let (mut builder, mut context) = self.take();
        let result = builder.apply(byte, &mut context);
        if result.is_ok() {
            proof {
                lemma_step_consistent(old(self)@, byte);
            }
            self.program_builder = builder;
            self.context = context;
        }
        result
    }

    /// Closes the statement.
    ///
    /// Inside a quote this is a syntax error. Outside, the statement under
    /// construction is handed out if it holds an argument. Either way the parser
    /// is left as it is between two statements.
    pub fn finish(&mut self) -> (result: Result<Option<Program>, ParseError>)
        ensures
            final(self)@ == ParserView::initial(),
            old(self)@.context.arg_builder_state != ArgBuilderState::Default ==> result == Err::<
                Option<Program>,
                ParseError,
            >(ParseError::UnterminatedQuote),
            old(self)@.context.arg_builder_state == ArgBuilderState::Default ==> {
                &&& result is Ok
                &&& program_option_view(result->Ok_0) == old(self)@.flushed()
            },
    {
        let (mut builder, mut context) = self.take();
        let result = builder.finish(&mut context);
        if result.is_ok() {
            proof {
                lemma_flush_initial(old(self)@);
            }
            self.program_builder = builder;
            self.context = context;
        }
        result
    }

    /// Parses a whole input and carries its statements out as far as the shell
    /// itself can.
    ///
    /// On a syntax error nothing is carried out. Otherwise the statements are
    /// carried out in order, and their words are handed out, each with a NUL at its
    /// end. Either way the parser is left as it is between two statements.
    pub fn parse(&mut self, input: &[u8], environment: &mut Environment) -> (result: Result<
        Vec<Vec<u8>>,
        ParseError,
    >)
        ensures
            final(self)@ == ParserView::initial(),
            match parsed(old(self)@, input@) {
                Err(error) => {
                    &&& result == Err::<Vec<Vec<u8>>, ParseError>(error)
                    &&& final(environment)@ == old(environment)@
                },
                Ok(programs) => {
                    &&& result is Ok
                    &&& strings_view(result->Ok_0@) == terminated(
                        executed_words(programs, old(environment)@),
                    )
                    &&& final(environment)@ == executed_variables(programs, old(environment)@)
                },
            },
    {
        let mut programs: Vec<Program> = Vec::new();
        let mut index: usize = 0;
        while index < input.len()
            invariant
                index <= input.len(),
                accepts_all(input@.take(index as int)),
                self@ == run_state(old(self)@, input@.take(index as int)),
                programs_view(programs@) == run_output(old(self)@, input@.take(index as int)),
                environment@ == old(environment)@,
            decreases input.len() - index,
        {
            let byte = *slice_index_get(input, index);
            let ghost before = input@.take(index as int);
            let ghost after = input@.take(index + 1);
            proof {
                assert(after.drop_last() =~= before);
            }
            match self.apply(byte) {
                Ok(program) => {
                    match program {
                        Some(program) => {
                            let ghost listed = programs_view(programs@);
                            programs.push(program);
                        },
                        None => {},
                    }
                },
                Err(error) => {
                    proof {
                        lemma_refused(input@, index as int);
                    }
                    return Err(error);
                },
            }
            index += 1;
            proof {
                assert forall|i: int| 0 <= i < after.len() implies is_accepted(
                    #[trigger] after[i],
                ) by {
                    if i < index - 1 {
                        assert(after[i] == before[i]);
                    }
                }
            }
        }
        assert(input@.take(index as int) =~= input@);
        match self.finish() {
            Ok(program) => {
                match program {
                    Some(program) => {
                        let ghost listed = programs_view(programs@);
                        programs.push(program);
                        assert(programs_view(programs@) =~= listed.push(program@));
                    },
                    None => {},
                }
            },
            Err(error) => {
                return Err(error);
            },
        }
        Ok(execute(programs, environment))
    }
}

/// The models of the statements of a sequence, in order.
pub open spec fn programs_view(programs: Seq<Program>) -> Seq<ProgramView> {
    Seq::new(programs.len(), |i: int| programs[i]@)
}

/// An input whose byte at `index` is the first that is refused reports that byte.
proof fn lemma_refused(input: Seq<u8>, index: int)
    requires
        0 <= index < input.len(),
        accepts_all(input.take(index)),
        !is_accepted(input[index]),
    ensures
        !accepts_all(input),
        first_refused(input) == input[index],
    decreases input.len(),
{
    if index == input.len() - 1 {
        assert(input.drop_last() =~= input.take(index));
    } else {
        lemma_refused(input.drop_last(), index);
    }
}

/// Carries statements out in order, and hands out their words, each with a NUL at
/// its end.
pub fn execute(programs: Vec<Program>, environment: &mut Environment) -> (words: Vec<Vec<u8>>)
    ensures
        strings_view(words@) == terminated(
            executed_words(programs_view(programs@), old(environment)@),
        ),
        final(environment)@ == executed_variables(programs_view(programs@), old(environment)@),
{
    let ghost all = programs@;
    let ghost variables = environment@;
    let mut words: Vec<Vec<u8>> = Vec::new();
    for program in it: programs
        invariant
            it.seq() == all,
            environment@ == executed_variables(
                programs_view(all.take(it.index() as int)),
                variables,
            ),
            strings_view(words@) == terminated(
                executed_words(programs_view(all.take(it.index() as int)), variables),
            ),
    {
        let ghost k = it.index() as int;
        let ghost done = executed_words(programs_view(all.take(k)), variables);
        let prepared = program.prepare(environment);
        let ghost fresh = strings_view(prepared@);
        for word in inner: prepared
            invariant
                inner.seq() == prepared@,
                fresh == strings_view(prepared@),
                strings_view(words@) == terminated(done + fresh.take(inner.index() as int)),
        {
            let ghost j = inner.index() as int;
            let ghost listed = strings_view(words@);
            let mut word = word;
            word.push(NUL);
            words.push(word);
            proof {
                assert(strings_view(words@) =~= listed.push(fresh[j].push(NUL)));
            }
        }
        proof {
            assert(programs_view(all.take(k + 1)).drop_last() =~= programs_view(all.take(k)));
        }
    }
    assert(all.take(all.len() as int) =~= all);
    words
}

} // verus!
