//! The token machine: turns bytes into lexical tokens, one byte at a time.

use vstd::prelude::*;
use vstd::string::StrSliceExecFns;
use vstd::string::StringSliceAdditionalSpecFns;

use crate::ascii::{
    alphanumeric, blank, is_alphanumeric, is_blank, COLON, DOLLAR, DOT, DOUBLE_QUOTE, EQUALS,
    MINUS, PLUS, QUOTE, SEMICOLON, SLASH, UNDERSCORE,
};
use crate::global_struct::environment::{Environment, Variables};
use crate::parser::arg_builder::ArgBuilderState;
use crate::parser::context::Context;
use crate::parser::ParseError;

verus! {

/// What a token stands for.
#[derive(Clone, Copy, Debug, PartialEq, Eq, Structural)]
pub enum TokenType {
    /// The bytes themselves.
    Default,
    /// The value of the variable that the bytes name.
    VarGetter,
}

/// A token as a mathematical value.
pub struct TokenView {
    pub bytes: Seq<u8>,
    pub kind: TokenType,
}

impl TokenView {
    /// The token that holds nothing.
    pub open spec fn empty() -> TokenView {
        TokenView { bytes: Seq::empty(), kind: TokenType::Default }
    }

    /// This token with one more byte.
    pub open spec fn with(self, byte: u8) -> TokenView {
        TokenView { bytes: self.bytes.push(byte), kind: self.kind }
    }

    /// The bytes that the token stands for: its own, or the value of the variable
    /// that they name.
    pub open spec fn expanded(self, variables: Variables) -> Seq<u8> {
        match self.kind {
            TokenType::Default => self.bytes,
            TokenType::VarGetter => variables.get(self.bytes),
        }
    }

    /// This token, if it holds a byte.
    pub open spec fn if_not_empty(self) -> Option<TokenView> {
        if self.bytes.len() > 0 {
            Some(self)
        } else {
            None
        }
    }
}

/// Letters, digits and the punctuation that a token takes as it comes.
pub open spec fn is_plain(byte: u8) -> bool {
    is_alphanumeric(byte) || byte == MINUS || byte == PLUS || byte == SLASH || byte == UNDERSCORE
        || byte == DOT || byte == QUOTE || byte == DOUBLE_QUOTE || byte == SEMICOLON
}

/// The bytes that the token machine takes; every other byte is a syntax error.
pub open spec fn is_accepted(byte: u8) -> bool {
    is_blank(byte) || is_plain(byte) || byte == COLON || byte == EQUALS || byte == DOLLAR
}

/// Tells whether a token takes `byte` as it comes.
pub fn plain(byte: u8) -> (b: bool)
    ensures
        b == is_plain(byte),
{
    alphanumeric(byte) || byte == MINUS || byte == PLUS || byte == SLASH || byte == UNDERSCORE
        || byte == DOT || byte == QUOTE || byte == DOUBLE_QUOTE || byte == SEMICOLON
}

/// The outcome of one step of the token machine.
pub struct TokenStep {
    /// The token under construction after the step.
    pub token: TokenView,
    /// The shared context after the step.
    pub context: Context,
    /// The token that the step completed, if any.
    pub emitted: Option<TokenView>,
}

/// One step of the token machine on an accepted byte.
///
/// - A blank outside quotes completes the token if it holds a byte, and says that no
///   token is in progress; inside quotes it is data.
/// - A plain byte is data.
/// - `:` ends a variable name: the name is completed if it holds a byte, and a fresh
///   token starts with the `:`. Elsewhere it is data.
/// - `=` is data; outside quotes, on a token that is no variable name, it marks the
///   argument as an assignment.
/// - `$` outside strong quotes completes the token if it holds a byte, and starts a
///   variable name. Inside strong quotes it is data.
pub open spec fn token_step(token: TokenView, context: Context, byte: u8) -> TokenStep {
    let in_process = Context { token_in_process: true, ..context };
    if is_blank(byte) {
        if context.arg_builder_state == ArgBuilderState::Default {
            TokenStep {
                token: if token.bytes.len() > 0 {
                    TokenView::empty()
                } else {
                    token
                },
                context: Context { token_in_process: false, ..context },
                emitted: token.if_not_empty(),
            }
        } else {
            TokenStep { token: token.with(byte), context: in_process, emitted: None }
        }
    } else if byte == COLON {
        if token.kind == TokenType::VarGetter {
            TokenStep {
                token: TokenView::empty().with(byte),
                context: in_process,
                emitted: token.if_not_empty(),
            }
        } else {
            TokenStep { token: token.with(byte), context: in_process, emitted: None }
        }
    } else if byte == EQUALS {
        TokenStep {
            token: token.with(byte),
            context: if context.arg_builder_state == ArgBuilderState::Default && token.kind
                != TokenType::VarGetter {
                Context { token_in_process: true, current_arg_is_setter: true, ..context }
            } else {
                in_process
            },
            emitted: None,
        }
    } else if byte == DOLLAR {
        if context.arg_builder_state == ArgBuilderState::StrongSep {
            TokenStep { token: token.with(byte), context: in_process, emitted: None }
        } else {
            TokenStep {
                token: TokenView { bytes: Seq::empty(), kind: TokenType::VarGetter },
                context: in_process,
                emitted: token.if_not_empty(),
            }
        }
    } else {
        TokenStep { token: token.with(byte), context: in_process, emitted: None }
    }
}

/// The outcome of closing the token machine: the token is completed if it holds a
/// byte, nothing is left under construction, and no token is in progress.
pub open spec fn token_finish(token: TokenView, context: Context) -> TokenStep {
    TokenStep {
        token: TokenView::empty(),
        context: Context { token_in_process: false, ..context },
        emitted: token.if_not_empty(),
    }
}

/// The model of a token that may be absent.
pub open spec fn token_option_view(token: Option<Token>) -> Option<TokenView> {
    match token {
        Some(token) => Some(token@),
        None => None,
    }
}

/// A lexical token, and the machine that builds it.
#[derive(Debug, PartialEq, Eq)]
pub struct Token {
    buffer: Vec<u8>,
    kind: TokenType,
}

impl View for Token {
    type V = TokenView;

    closed spec fn view(&self) -> TokenView {
        TokenView { bytes: self.buffer@, kind: self.kind }
    }
}

impl Default for Token {
    fn default() -> (token: Self)
        ensures
            token@ == TokenView::empty(),
    {
        Token { buffer: Vec::new(), kind: TokenType::Default }
    }
}

impl Token {
    /// Feeds one byte to the machine.
    ///
    /// A byte outside the alphabet is refused and changes nothing. Every other byte
    /// moves the machine as `token_step` says.
    pub fn apply(&mut self, byte: u8, context: &mut Context) -> (result: Result<
        Option<Token>,
        ParseError,
    >)
        ensures
            !is_accepted(byte) ==> {
                &&& result == Err::<Option<Token>, ParseError>(ParseError::UnexpectedSymbol(byte))
                &&& final(self)@ == old(self)@
                &&& *final(context) == *old(context)
            },
            is_accepted(byte) ==> {
                &&& result is Ok
                &&& final(self)@ == token_step(old(self)@, *old(context), byte).token
                &&& *final(context) == token_step(old(self)@, *old(context), byte).context
                &&& token_option_view(result->Ok_0) == token_step(
                    old(self)@,
                    *old(context),
                    byte,
                ).emitted
            },
    {
        if blank(byte) {
            match context.arg_builder_state {
                ArgBuilderState::Default => {
                    context.token_in_process = false;
                    Ok(self.return_if_not_empty())
                },
                ArgBuilderState::WeakSep | ArgBuilderState::StrongSep => {
                    context.token_in_process = true;
                    self.buffer.push(byte);
                    Ok(None)
                },
            }
        } else if plain(byte) {
            context.token_in_process = true;
            self.buffer.push(byte);
            Ok(None)
        } else if byte == COLON {
            context.token_in_process = true;
            match self.kind {
                TokenType::VarGetter => {
                    let output = self.return_if_not_empty();
                    self.kind = TokenType::Default;
                    self.buffer.push(byte);
                    assert(self.buffer@ =~= Seq::<u8>::empty().push(byte));
                    Ok(output)
                },
                TokenType::Default => {
                    self.buffer.push(byte);
                    Ok(None)
                },
            }
        } else if byte == EQUALS {
            context.token_in_process = true;
            match (context.arg_builder_state, self.kind) {
                (ArgBuilderState::Default, TokenType::Default) => {
                    context.current_arg_is_setter = true;
                },
                _ => {},
            }
            self.buffer.push(byte);
            Ok(None)
        } else if byte == DOLLAR {
            context.token_in_process = true;
            match context.arg_builder_state {
                ArgBuilderState::Default | ArgBuilderState::WeakSep => {
                    let output = self.return_if_not_empty();
                    self.kind = TokenType::VarGetter;
                    assert(self.buffer@ =~= Seq::<u8>::empty());
                    Ok(output)
                },
                ArgBuilderState::StrongSep => {
                    self.buffer.push(byte);
                    Ok(None)
                },
            }
        } else {
            Err(ParseError::UnexpectedSymbol(byte))
        }
    }

    /// Closes the machine: hands out the token under construction if it holds a byte,
    /// and leaves the machine empty with no token in progress.
    pub fn finish(&mut self, context: &mut Context) -> (output: Option<Token>)
        ensures
            final(self)@ == token_finish(old(self)@, *old(context)).token,
            *final(context) == token_finish(old(self)@, *old(context)).context,
            token_option_view(output) == token_finish(old(self)@, *old(context)).emitted,
    {
        context.token_in_process = false;
        let token = self.take();
        if token.buffer.len() > 0 {
            Some(token)
        } else {
            None
        }
    }

    /// The bytes that the token holds.
    pub fn downgrade(self) -> (bytes: Vec<u8>)
        ensures
            bytes@ == self@.bytes,
    {
        self.buffer
    }

    /// Puts in place of a variable name the value of the variable; a token that
    /// stands for its own bytes stays as it is.
    pub fn to_default(&mut self, environment: &Environment)
        ensures
            final(self)@ == (TokenView {
                bytes: old(self)@.expanded(environment@),
                kind: TokenType::Default,
            }),
    {
        match self.kind {
            TokenType::Default => {},
            TokenType::VarGetter => {
                environment.get_var(&mut self.buffer);
                self.kind = TokenType::Default;
            },
        }
    }

    /// A token that stands for its own bytes.
    pub fn new_default(buffer: &str) -> (token: Token)
        ensures
            token@ == (TokenView { bytes: buffer.spec_bytes(), kind: TokenType::Default }),
    {
        Token { buffer: buffer.as_bytes_vec(), kind: TokenType::Default }
    }

    /// A token that stands for the value of the variable that `buffer` names.
    pub fn new_var_getter(buffer: &str) -> (token: Token)
        ensures
            token@ == (TokenView { bytes: buffer.spec_bytes(), kind: TokenType::VarGetter }),
    {
        Token { buffer: buffer.as_bytes_vec(), kind: TokenType::VarGetter }
    }

    /// Moves the token out and leaves the empty token behind.
    fn take(&mut self) -> (token: Token)
        ensures
            token@ == old(self)@,
            final(self)@ == TokenView::empty(),
    {
        let mut buffer: Vec<u8> = Vec::new();
        std::mem::swap(&mut self.buffer, &mut buffer);
        let kind = self.kind;
        self.kind = TokenType::Default;
        Token { buffer, kind }
    }

    /// Hands out the token under construction if it holds a byte, and then starts
    /// afresh; an empty token stays as it is.
    fn return_if_not_empty(&mut self) -> (output: Option<Token>)
        ensures
            token_option_view(output) == old(self)@.if_not_empty(),
            final(self)@ == if old(self)@.bytes.len() > 0 {
                TokenView::empty()
            } else {
                old(self)@
            },
    {
        if self.buffer.len() == 0 {
            None
        } else {
            Some(self.take())
        }
    }
}

} // verus!
