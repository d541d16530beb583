//! What holds of the parser on every input.

use vstd::prelude::*;

use crate::ascii::{
    closed_words, is_alphanumeric, is_blank, open_word, words, COLON, DOT, MINUS, PLUS, SLASH,
    UNDERSCORE,
};
use crate::global_struct::environment::Variables;
use crate::parser::arg_builder::arg::{tokens_expanded, ArgType, ArgView};
use crate::parser::arg_builder::{arg_flush, ArgBuilderState, ArgBuilderView};
use crate::parser::context::Context;
use crate::parser::program_builder::program::{prepared_variables, prepared_words, ProgramView};
use crate::parser::program_builder::{program_flush, ProgramBuilderView};
use crate::parser::token::{is_accepted, token_finish, TokenType, TokenView};
use crate::parser::{
    accepts_all, executed_variables, executed_words, parsed, run_output, run_state, ParseError,
    ParserView,
};

verus! {

/// A byte of a plain word: a letter, a digit, or one of `- + / _ . :`.
pub open spec fn is_word_byte(byte: u8) -> bool {
    is_alphanumeric(byte) || byte == MINUS || byte == PLUS || byte == SLASH || byte == UNDERSCORE
        || byte == DOT || byte == COLON
}

/// An input of plain words and blanks: no variable, no quote, no assignment and no
/// statement separator.
pub open spec fn is_plain_input(input: Seq<u8>) -> bool {
    forall|i: int| 0 <= i < input.len() ==> is_blank(#[trigger] input[i]) || is_word_byte(input[i])
}

/// The argument that a plain word is parsed to: one token that stands for itself.
pub open spec fn word_arg(word: Seq<u8>) -> ArgView {
    ArgView {
        tokens: seq![TokenView { bytes: word, kind: TokenType::Default }],
        kind: ArgType::Default,
    }
}

/// The arguments that plain words are parsed to.
pub open spec fn word_args(words: Seq<Seq<u8>>) -> Seq<ArgView> {
    Seq::new(words.len(), |i: int| word_arg(words[i]))
}

/// The parser in the middle of a plain input: the closed words are arguments of
/// the statement, and the open word is the token under construction.
pub open spec fn plain_state(input: Seq<u8>) -> ParserView {
    ParserView {
        builder: ProgramBuilderView {
            program: word_args(closed_words(input)),
            args: ArgBuilderView {
                arg: ArgView::empty(),
                token: TokenView { bytes: open_word(input), kind: TokenType::Default },
            },
        },
        context: Context {
            arg_builder_state: ArgBuilderState::Default,
            token_in_process: open_word(input).len() > 0,
            current_arg_is_setter: false,
        },
    }
}

/// Closing the token machine twice is closing it once: the second time nothing is
/// handed out, the machine stays empty and the context stays as it is.
pub proof fn lemma_token_finish_idempotent(token: TokenView, context: Context)
    ensures
        ({
            let once = token_finish(token, context);
            let twice = token_finish(once.token, once.context);
            &&& twice.emitted is None
            &&& twice.token == TokenView::empty()
            &&& twice.context == once.context
            &&& !twice.context.token_in_process
        }),
{
}

/// Closing the argument machine twice is closing it once: the second time nothing
/// is handed out, and the machine and the context stay as they are.
pub proof fn lemma_arg_finish_idempotent(builder: ArgBuilderView, context: Context)
    ensures
        ({
            let once = arg_flush(builder, context);
            let twice = arg_flush(once.builder, once.context);
            &&& twice.emitted is None
            &&& twice.builder == once.builder
            &&& twice.context == once.context
            &&& once.builder.token == TokenView::empty()
            &&& once.builder.arg.tokens.len() == 0
        }),
{
}

/// Closing the statement machine twice is closing it once: the second time nothing
/// is handed out, and the machine and the context stay as they are.
pub proof fn lemma_program_finish_idempotent(builder: ProgramBuilderView, context: Context)
    ensures
        ({
            let once = program_flush(builder, context);
            let twice = program_flush(once.builder, once.context);
            &&& twice.emitted is None
            &&& twice.builder == once.builder
            &&& twice.context == once.context
            &&& once.builder.program.len() == 0
        }),
{
    lemma_arg_finish_idempotent(builder.args, context);
}

/// A machine that holds nothing, closed in the context of the beginning of a
/// statement, hands nothing out and stays as it is, and so does the context.
pub proof fn lemma_finish_of_nothing()
    ensures
        token_finish(TokenView::empty(), Context::initial()).emitted is None,
        token_finish(TokenView::empty(), Context::initial()).token == TokenView::empty(),
        token_finish(TokenView::empty(), Context::initial()).context == Context::initial(),
        arg_flush(ArgBuilderView::empty(), Context::initial()).emitted is None,
        arg_flush(ArgBuilderView::empty(), Context::initial()).builder == ArgBuilderView::empty(),
        arg_flush(ArgBuilderView::empty(), Context::initial()).context == Context::initial(),
        program_flush(ProgramBuilderView::empty(), Context::initial()).emitted is None,
        program_flush(ProgramBuilderView::empty(), Context::initial()).builder
            == ProgramBuilderView::empty(),
        program_flush(ProgramBuilderView::empty(), Context::initial()).context
            == Context::initial(),
        ParserView::initial().consistent(),
        ParserView::initial().flushed() is None,
        parsed(ParserView::initial(), Seq::empty()) == Ok::<Seq<ProgramView>, ParseError>(
            Seq::empty(),
        ),
{
}

/// Every closed word holds a byte.
pub proof fn lemma_closed_words_hold_bytes(input: Seq<u8>)
    ensures
        forall|i: int| 0 <= i < closed_words(input).len() ==> (#[trigger] closed_words(input)[i]).len()
            > 0,
    decreases input.len(),
{
    if input.len() > 0 {
        let front = input.drop_last();
        lemma_closed_words_hold_bytes(front);
        assert forall|i: int| 0 <= i < closed_words(input).len() implies (#[trigger] closed_words(
            input,
        )[i]).len() > 0 by {
            if i < closed_words(front).len() {
                assert(closed_words(input)[i] == closed_words(front)[i]);
            }
        }
    }
}

/// A plain input is accepted byte by byte, completes no statement before its end,
/// and leaves the parser in the state that `plain_state` describes.
pub proof fn lemma_plain_run(input: Seq<u8>)
    requires
        is_plain_input(input),
    ensures
        accepts_all(input),
        run_state(ParserView::initial(), input) == plain_state(input),
        run_output(ParserView::initial(), input) == Seq::<ProgramView>::empty(),
    decreases input.len(),
{
    if input.len() == 0 {
        assert(plain_state(input).builder.program =~= Seq::empty());
    } else {
        let front = input.drop_last();
        let byte = input.last();
        assert forall|i: int| 0 <= i < front.len() implies is_blank(#[trigger] front[i])
            || is_word_byte(front[i]) by {
            assert(front[i] == input[i]);
        }
        lemma_plain_run(front);
        assert forall|i: int| 0 <= i < input.len() implies is_accepted(#[trigger] input[i]) by {
            assert(is_blank(input[i]) || is_word_byte(input[i]));
        }
        let before = plain_state(front);
        let after = before.stepped(byte);
        if is_blank(byte) {
            if open_word(front).len() > 0 {
                assert(after.builder.program =~= word_args(closed_words(input)));
            } else {
                assert(after.builder.args.token.bytes =~= Seq::empty());
            }
        }
    }
}

/// Plain words are carried out to themselves, and change no variable.
pub proof fn lemma_plain_words_prepared(words: Seq<Seq<u8>>, variables: Variables)
    requires
        forall|i: int| 0 <= i < words.len() ==> (#[trigger] words[i]).len() > 0,
    ensures
        prepared_words(word_args(words), variables) == words,
        prepared_variables(word_args(words), variables) == variables,
    decreases words.len(),
{
    if words.len() == 0 {
        assert(prepared_words(word_args(words), variables) =~= words);
    } else {
        let front = words.drop_last();
        assert(word_args(words).drop_last() =~= word_args(front));
        lemma_plain_words_prepared(front, variables);
        let tokens = word_arg(words.last()).tokens;
        assert(tokens_expanded(tokens.drop_last(), variables) =~= Seq::<u8>::empty());
    }
}

/// An input without variables, quotes, assignments and separators is parsed to
/// its words: the longest runs of bytes that are not blank, in order. No variable
/// changes.
pub proof fn lemma_plain_input_round_trip(input: Seq<u8>, variables: Variables)
    requires
        is_plain_input(input),
    ensures
        parsed(ParserView::initial(), input) is Ok,
        executed_words(parsed(ParserView::initial(), input)->Ok_0, variables) == words(input),
        executed_variables(parsed(ParserView::initial(), input)->Ok_0, variables) == variables,
{
    lemma_plain_run(input);
    lemma_closed_words_hold_bytes(input);
    let state = plain_state(input);
    let programs = parsed(ParserView::initial(), input)->Ok_0;
    let all = words(input);
    if all.len() == 0 {
        assert(executed_words(programs, variables) =~= all);
    } else {
        if open_word(input).len() > 0 {
            assert(state.flushed() == Some(word_args(all))) by {
                assert(state.builder.program.push(word_arg(open_word(input))) =~= word_args(all));
            }
        } else {
            assert(state.flushed() == Some(word_args(all)));
        }
        lemma_plain_words_prepared(all, variables);
        assert(executed_words(programs.drop_last(), variables) =~= Seq::<Seq<u8>>::empty());
    }
}

} // verus!
