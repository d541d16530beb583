//! The pipeline splitter: cuts an input line into statements and stages, and hands
//! the stages out one by one.

use vstd::prelude::*;
use vstd::slice::slice_subrange;
use vstd::string::StringSliceAdditionalSpecFns;

use crate::ascii::{DOUBLE_QUOTE, NEWLINE, NUL, PIPE, QUOTE, SEMICOLON};
use crate::bytes::{copy, flatten, flattened, from_text, strings_view};
use crate::global_struct::environment::{resolved, NoSuchFile, Variables};
use crate::global_struct::GS;
use crate::parser::arg_builder::ArgBuilderState;
use crate::parser::{
    executed_variables, executed_words, parsed, terminated, ParseError, Parser, ParserView,
};
use crate::program::Program;

verus! {

/// What stands before a stage.
#[derive(Clone, Copy, Debug, PartialEq, Eq, Structural)]
pub enum Delimeter {
    /// The stage is the first of its statement.
    Start,
    /// The stage follows a `|`.
    Pipe,
}

/// `;` and newline close a statement.
pub open spec fn is_separator(byte: u8) -> bool {
    byte == SEMICOLON || byte == NEWLINE
}

/// The statement that stands open at the end of an input: the bytes after its last
/// separator.
pub open spec fn line_open(input: Seq<u8>) -> Seq<u8>
    decreases input.len(),
{
    if input.len() == 0 || is_separator(input.last()) {
        Seq::empty()
    } else {
        line_open(input.drop_last()).push(input.last())
    }
}

/// The statements of an input that a separator has closed, in order, each with a
/// newline at its end in place of the separator. What stands after the last
/// separator is no statement.
pub open spec fn split_lines(input: Seq<u8>) -> Seq<Seq<u8>>
    decreases input.len(),
{
    if input.len() == 0 {
        Seq::empty()
    } else if is_separator(input.last()) {
        split_lines(input.drop_last()).push(line_open(input.drop_last()).push(NEWLINE))
    } else {
        split_lines(input.drop_last())
    }
}

/// The quote mode after a byte.
pub open spec fn quote_after(state: ArgBuilderState, byte: u8) -> ArgBuilderState {
    match state {
        ArgBuilderState::Default => if byte == QUOTE {
            ArgBuilderState::StrongSep
        } else if byte == DOUBLE_QUOTE {
            ArgBuilderState::WeakSep
        } else {
            ArgBuilderState::Default
        },
        ArgBuilderState::WeakSep => if byte == DOUBLE_QUOTE {
            ArgBuilderState::Default
        } else {
            ArgBuilderState::WeakSep
        },
        ArgBuilderState::StrongSep => if byte == QUOTE {
            ArgBuilderState::Default
        } else {
            ArgBuilderState::StrongSep
        },
    }
}

/// Where the scan for the end of a stage stops: behind the first `|` outside
/// quotes that stands at `from` or later, or at the end of the statement.
pub open spec fn scan_end(line: Seq<u8>, from: int, state: ArgBuilderState) -> int
    decreases line.len() - from,
{
    if from < 0 || from >= line.len() {
        line.len() as int
    } else if line[from] == PIPE && state == ArgBuilderState::Default {
        from + 1
    } else {
        scan_end(line, from + 1, quote_after(state, line[from]))
    }
}

/// Where the stage that begins at `from` ends: behind its `|`, or at the end of
/// the statement.
pub open spec fn stage_end(line: Seq<u8>, from: int) -> int {
    scan_end(line, from, ArgBuilderState::Default)
}

/// The bytes of the stage that begins at `from`: up to its `|`, or up to the last
/// byte of the statement, which is left out.
pub open spec fn stage_slice(line: Seq<u8>, from: int) -> Seq<u8> {
    line.subrange(from, stage_end(line, from) - 1)
}

/// Where the next stage begins, as a statement and a place in it.
///
/// After a stage that failed, and at the end of a statement, it is the beginning
/// of the next statement. If the statement is past the last one, there is no next
/// stage.
pub open spec fn stage_start(lines: Seq<Seq<u8>>, line: int, offset: int, status: int) -> (
    int,
    int,
) {
    if line >= lines.len() {
        (line, offset)
    } else if status != 0 || offset >= lines[line].len() {
        (line + 1, 0)
    } else {
        (line, offset)
    }
}

/// A stage as a mathematical value.
pub struct StageView {
    /// The bytes that the stage is to read.
    pub stdin: Seq<u8>,
    /// The command and its arguments, each closed by a NUL.
    pub words: Seq<Seq<u8>>,
}

/// The word that stands for a stage without words.
pub open spec fn nop_word() -> Seq<u8> {
    "nop".spec_bytes().push(NUL)
}

/// The words of a stage: where there is none, the builtin that does nothing.
pub open spec fn or_nop(words: Seq<Seq<u8>>) -> Seq<Seq<u8>> {
    if words.len() == 0 {
        seq![nop_word()]
    } else {
        words
    }
}

/// What a stage is built to, and the variables that building it leaves.
pub struct Staged {
    pub stage: Result<StageView, ParseError>,
    pub variables: Variables,
}

/// Builds a stage from its bytes.
///
/// The bytes are parsed and carried out; a syntax error in them changes nothing.
/// What the stage before wrote, `last_output`, matters only behind a `|`: in xargs
/// mode it is parsed and carried out too, after the bytes of the stage, and gives
/// further words; otherwise it is what the stage is to read.
pub open spec fn staged(
    slice: Seq<u8>,
    piped: bool,
    xargs: bool,
    last_output: Seq<u8>,
    variables: Variables,
) -> Staged {
    match parsed(ParserView::initial(), slice) {
        Err(error) => Staged { stage: Err(error), variables },
        Ok(programs) => {
            let words = terminated(executed_words(programs, variables));
            let after = executed_variables(programs, variables);
            if piped && xargs {
                match parsed(ParserView::initial(), last_output) {
                    Err(error) => Staged { stage: Err(error), variables: after },
                    Ok(more) => Staged {
                        stage: Ok(
                            StageView {
                                stdin: Seq::empty(),
                                words: or_nop(words + terminated(executed_words(more, after))),
                            },
                        ),
                        variables: executed_variables(more, after),
                    },
                }
            } else {
                Staged {
                    stage: Ok(
                        StageView {
                            stdin: if piped {
                                last_output
                            } else {
                                Seq::empty()
                            },
                            words: or_nop(words),
                        },
                    ),
                    variables: after,
                }
            }
        },
    }
}

/// A stage of a pipeline whose command is still a name.
#[derive(Debug, PartialEq, Eq)]
pub struct Stage {
    stdin: Vec<u8>,
    tokens: Vec<Vec<u8>>,
}

impl View for Stage {
    type V = StageView;

    closed spec fn view(&self) -> StageView {
        StageView { stdin: self.stdin@, words: strings_view(self.tokens@) }
    }
}

impl Stage {
    #[verifier::type_invariant]
    spec fn well_formed(&self) -> bool {
        self.tokens.len() > 0
    }

    /// A stage with the given input and words; a stage without words is the
    /// builtin that does nothing.
    pub fn new(stdin: Vec<u8>, tokens: Vec<Vec<u8>>) -> (stage: Stage)
        ensures
            stage@ == (StageView { stdin: stdin@, words: or_nop(strings_view(tokens@)) }),
    {
        let mut tokens = tokens;
        if tokens.len() == 0 {
            let mut nop = from_text("nop");
            nop.push(NUL);
            tokens.push(nop);
            assert(strings_view(tokens@) =~= seq![nop_word()]);
        }
        Stage { stdin, tokens }
    }

    /// The command and its arguments, each closed by a NUL.
    pub fn tokens(&self) -> (tokens: &Vec<Vec<u8>>)
        ensures
            strings_view(tokens@) == self@.words,
    {
        &self.tokens
    }

    /// The bytes that the stage is to read.
    pub fn stdin(&self) -> (stdin: &Vec<u8>)
        ensures
            stdin@ == self@.stdin,
    {
        &self.stdin
    }

    /// The command of the stage, closed by a NUL.
    pub fn command(&self) -> (name: &Vec<u8>)
        ensures
            self@.words.len() > 0,
            name@ == self@.words[0],
    {
        proof {
            use_type_invariant(self);
        }
        &self.tokens[0]
    }

    /// Resolves the command and makes the stage ready to run.
    ///
    /// `probes` says of each place at which the command is looked for, in the
    /// order of `search_candidates`, whether an executable file stands there. The
    /// path that the command is resolved to takes its place, and the words are put
    /// in one buffer. A command that is found nowhere is an error.
    pub fn resolve(self, gs: &GS, probes: &Vec<bool>) -> (result: Result<Program, NoSuchFile>)
        ensures
            self@.words.len() > 0,
            match resolved(self@.words[0], gs.environment@, probes@) {
                Some(path) => {
                    &&& result matches Ok(program)
                    &&& program.stdin() == self@.stdin
                    &&& program.data() == flattened(self@.words.update(0, path))
                },
                None => result matches Err(error) && error.name@ == self@.words[0],
            },
    {
        proof {
            use_type_invariant(&self);
        }
        let ghost words = self@.words;
        let stdin = self.stdin;
        let mut tokens = self.tokens;
        let mut name: Vec<u8> = Vec::new();
        tokens.set_and_swap(0, &mut name);
        match gs.environment.get_full_path(&mut name, &gs.default_utils, probes) {
            Ok(()) => {
                tokens.set_and_swap(0, &mut name);
                assert(strings_view(tokens@) =~= words.update(0, tokens@[0]@));
                let mut program = Program::new(flatten(&tokens));
                program.set_stdin_data(stdin);
                Ok(program)
            },
            Err(error) => Err(error),
        }
    }
}

/// An input line, cut into statements, and the place of the next stage in it.
pub struct Pipeline {
    lines: Vec<Vec<u8>>,
    parser: Parser,
    current_line_index: usize,
    current_index: usize,
}

impl Pipeline {
    #[verifier::type_invariant]
    spec fn well_formed(&self) -> bool {
        &&& self.current_line_index <= self.lines.len()
        &&& forall|i: int| 0 <= i < self.lines.len() ==> (#[trigger] self.lines[i]).len() > 0
        &&& self.current_line_index < self.lines.len() ==> self.current_index
            <= self.lines[self.current_line_index as int].len()
        &&& self.parser@ == ParserView::initial()
    }

    /// The statements of the line, each with a newline at its end.
    pub closed spec fn lines(&self) -> Seq<Seq<u8>> {
        strings_view(self.lines@)
    }

    /// The statement in which the next stage stands.
    pub closed spec fn line(&self) -> int {
        self.current_line_index as int
    }

    /// The place in its statement at which the next stage begins.
    pub closed spec fn offset(&self) -> int {
        self.current_index as int
    }

    /// Cuts an input line into statements.
    pub fn new(input: Vec<u8>) -> (pipeline: Pipeline)
        ensures
            pipeline.lines() == split_lines(input@),
            pipeline.line() == 0,
            pipeline.offset() == 0,
    {
        let lines = Self::slice_to_lines(input);
        proof {
            lemma_lines_end_in_newline(input@);
            assert forall|i: int| 0 <= i < lines.len() implies (#[trigger] lines[i]).len() > 0 by {
                assert(strings_view(lines@)[i] == lines[i]@);
            }
        }
        Pipeline { lines, parser: Parser::default(), current_line_index: 0, current_index: 0 }
    }

    /// Hands out the next stage.
    ///
    /// `last_output` and `last_status` are what the stage before left. The next
    /// stage begins where `stage_start` says, and there is none past the last
    /// statement. Its bytes are those up to the next `|` outside quotes; they are
    /// built to a stage as `staged` says, with the variables and the xargs mode of
    /// the session. The place of the pipeline moves behind the stage, on a syntax
    /// error too.
    pub fn next(&mut self, last_output: &Vec<u8>, last_status: i32, gs: &mut GS) -> (result:
        Result<Option<(Delimeter, Stage)>, ParseError>)
        ensures
            final(self).lines() == old(self).lines(),
            final(gs).settings == old(gs).settings,
            final(gs).default_utils == old(gs).default_utils,
            ({
                let start = stage_start(
                    old(self).lines(),
                    old(self).line(),
                    old(self).offset(),
                    last_status as int,
                );
                if start.0 >= old(self).lines().len() {
                    &&& result == Ok::<Option<(Delimeter, Stage)>, ParseError>(None)
                    &&& final(self).line() == start.0
                    &&& final(self).offset() == start.1
                    &&& final(gs).environment@ == old(gs).environment@
                } else {
                    let line = old(self).lines()[start.0];
                    let built = staged(
                        stage_slice(line, start.1),
                        start.1 != 0,
                        old(gs).settings.mode.xargs,
                        last_output@,
                        old(gs).environment@,
                    );
                    &&& final(self).line() == start.0
                    &&& final(self).offset() == stage_end(line, start.1)
                    &&& final(gs).environment@ == built.variables
                    &&& match built.stage {
                        Err(error) => result == Err::<Option<(Delimeter, Stage)>, ParseError>(
                            error,
                        ),
                        Ok(stage) => {
                            &&& result matches Ok(Some(found))
                            &&& found.0 == if start.1 == 0 {
                                Delimeter::Start
                            } else {
                                Delimeter::Pipe
                            }
                            &&& found.1@ == stage
                        },
                    }
                }
            }),
    {
        proof {
            use_type_invariant(&*self);
        }
        if self.current_line_index == self.lines.len() {
            return Ok(None);
        }
        if last_status != 0 || self.current_index == self.lines[self.current_line_index].len() {
            if !self.to_next_line() {
                return Ok(None);
            }
        }
        proof {
            use_type_invariant(&*self);
        }
        let delimeter = if self.current_index == 0 {
            Delimeter::Start
        } else {
            Delimeter::Pipe
        };
        let line = &self.lines[self.current_line_index];
        let from = self.current_index;
        let mut index = from;
        let mut state = ArgBuilderState::Default;
        let mut found = false;
        while !found && index < line.len()
            invariant
                from <= index <= line.len(),
                found ==> index > from,
                !found ==> scan_end(line@, index as int, state) == stage_end(line@, from as int),
                found ==> index == stage_end(line@, from as int),
            decreases line.len() - index + if found { 0int } else { 1int },
        {
            let byte = line[index];
            index += 1;
            if byte == PIPE && state == ArgBuilderState::Default {
                found = true;
            } else {
                state = quote_step(state, byte);
            }
        }
        let slice = slice_subrange(line.as_slice(), from, index - 1);
        let mut parser = Parser::default();
        std::mem::swap(&mut self.parser, &mut parser);
        let mut result = parser.parse(slice, &mut gs.environment);
        let mut stdin: Vec<u8> = Vec::new();
        match delimeter {
            Delimeter::Pipe => {
                if gs.settings.mode.xargs {
                    result = match result {
                        Ok(tokens) => {
                            match parser.parse(last_output.as_slice(), &mut gs.environment) {
                                Ok(more) => {
                                    let mut tokens = tokens;
                                    let mut more = more;
                                    let ghost first = strings_view(tokens@);
                                    let ghost second = strings_view(more@);
                                    tokens.append(&mut more);
                                    assert(strings_view(tokens@) =~= first + second);
                                    Ok(tokens)
                                },
                                Err(error) => Err(error),
                            }
                        },
                        Err(error) => Err(error),
                    };
                } else {
                    stdin = copy(last_output);
                }
            },
            Delimeter::Start => {},
        }
        self.parser = parser;
        self.current_index = index;
        match result {
            Ok(tokens) => Ok(Some((delimeter, Stage::new(stdin, tokens)))),
            Err(error) => Err(error),
        }
    }

    /// Cuts an input into statements.
    fn slice_to_lines(input: Vec<u8>) -> (lines: Vec<Vec<u8>>)
        ensures
            strings_view(lines@) == split_lines(input@),
    {
        let mut output: Vec<Vec<u8>> = Vec::new();
        let mut buffer: Vec<u8> = Vec::new();
        let mut index: usize = 0;
        while index < input.len()
            invariant
                index <= input.len(),
                strings_view(output@) == split_lines(input@.take(index as int)),
                buffer@ == line_open(input@.take(index as int)),
            decreases input.len() - index,
        {
            let byte = input[index];
            proof {
                let k = index as int;
                assert(input@.take(k + 1).drop_last() =~= input@.take(k));
            }
            if byte == SEMICOLON || byte == NEWLINE {
                buffer.push(NEWLINE);
                let mut line: Vec<u8> = Vec::new();
                std::mem::swap(&mut line, &mut buffer);
                output.push(line);
            } else {
                buffer.push(byte);
            }
            index += 1;
        }
        assert(input@.take(index as int) =~= input@);
        output
    }

    /// Moves to the beginning of the next statement, and tells whether there is
    /// one.
    fn to_next_line(&mut self) -> (more: bool)
        requires
            old(self).line() < old(self).lines().len(),
        ensures
            final(self).lines() == old(self).lines(),
            final(self).line() == old(self).line() + 1,
            final(self).offset() == 0,
            more == (final(self).line() < final(self).lines().len()),
    {
        proof {
            use_type_invariant(&*self);
        }
        self.current_index = 0;
        self.current_line_index += 1;
        self.current_line_index != self.lines.len()
    }
}

/// Every statement of an input ends in a newline.
pub proof fn lemma_lines_end_in_newline(input: Seq<u8>)
    ensures
        forall|i: int|
            0 <= i < split_lines(input).len() ==> (#[trigger] split_lines(input)[i]).len() > 0
                && split_lines(input)[i].last() == NEWLINE,
    decreases input.len(),
{
    if input.len() > 0 {
        let front = input.drop_last();
        lemma_lines_end_in_newline(front);
        assert forall|i: int| 0 <= i < split_lines(input).len() implies (#[trigger] split_lines(
            input,
        )[i]).len() > 0 && split_lines(input)[i].last() == NEWLINE by {
            if i < split_lines(front).len() {
                assert(split_lines(input)[i] == split_lines(front)[i]);
            }
        }
    }
}

/// The quote mode after a byte.
fn quote_step(state: ArgBuilderState, byte: u8) -> (next: ArgBuilderState)
    ensures
        next == quote_after(state, byte),
{
    match state {
        ArgBuilderState::Default => if byte == QUOTE {
            ArgBuilderState::StrongSep
        } else if byte == DOUBLE_QUOTE {
            ArgBuilderState::WeakSep
        } else {
            ArgBuilderState::Default
        },
        ArgBuilderState::WeakSep => if byte == DOUBLE_QUOTE {
            ArgBuilderState::Default
        } else {
            ArgBuilderState::WeakSep
        },
        ArgBuilderState::StrongSep => if byte == QUOTE {
            ArgBuilderState::Default
        } else {
            ArgBuilderState::StrongSep
        },
    }
}

} // verus!
