//! One argument: the tokens that make it up, and whether it is an assignment.

use vstd::prelude::*;

use crate::global_struct::environment::{assigned, Environment, Variables};
use crate::parser::token::{Token, TokenView};

verus! {

/// What an argument stands for.
#[derive(Clone, Copy, Debug, PartialEq, Eq, Structural)]
pub enum ArgType {
    /// A word of the command line.
    Default,
    /// An assignment `NAME=VALUE`.
    VarSetter,
}

/// An argument as a mathematical value.
pub struct ArgView {
    pub tokens: Seq<TokenView>,
    pub kind: ArgType,
}

impl ArgView {
    /// The argument that holds nothing.
    pub open spec fn empty() -> ArgView {
        ArgView { tokens: Seq::empty(), kind: ArgType::Default }
    }

    /// The bytes that the tokens stand for, one after the other.
    pub open spec fn raw(self, variables: Variables) -> Seq<u8> {
        tokens_expanded(self.tokens, variables)
    }

    /// The word that the argument gives to the command line: an assignment gives
    /// none.
    pub open spec fn word(self, variables: Variables) -> Seq<u8> {
        match self.kind {
            ArgType::Default => self.raw(variables),
            ArgType::VarSetter => Seq::empty(),
        }
    }

    /// The variables once the argument has been carried out: only an assignment
    /// changes them.
    pub open spec fn effect(self, variables: Variables) -> Variables {
        match self.kind {
            ArgType::Default => variables,
            ArgType::VarSetter => assigned(variables, self.raw(variables)),
        }
    }

    /// This argument with the token, if there is one, at its end.
    pub open spec fn with(self, token: Option<TokenView>) -> ArgView {
        match token {
            Some(token) => ArgView { tokens: self.tokens.push(token), kind: self.kind },
            None => self,
        }
    }
}

/// The models of the tokens of a sequence, in order.
pub open spec fn tokens_view(tokens: Seq<Token>) -> Seq<TokenView> {
    Seq::new(tokens.len(), |i: int| tokens[i]@)
}

/// The bytes that a sequence of tokens stands for, one token after the other.
pub open spec fn tokens_expanded(tokens: Seq<TokenView>, variables: Variables) -> Seq<u8>
    decreases tokens.len(),
{
    if tokens.len() == 0 {
        Seq::empty()
    } else {
        tokens_expanded(tokens.drop_last(), variables) + tokens.last().expanded(variables)
    }
}

/// The model of an argument that may be absent.
pub open spec fn arg_option_view(arg: Option<Arg>) -> Option<ArgView> {
    match arg {
        Some(arg) => Some(arg@),
        None => None,
    }
}

/// An argument of a statement.
#[derive(Debug, PartialEq, Eq)]
pub struct Arg {
    data: Vec<Token>,
    kind: ArgType,
}

impl View for Arg {
    type V = ArgView;

    closed spec fn view(&self) -> ArgView {
        ArgView { tokens: tokens_view(self.data@), kind: self.kind }
    }
}

impl Default for Arg {
    fn default() -> (arg: Self)
        ensures
            arg@ == ArgView::empty(),
    {
        let arg = Arg { data: Vec::new(), kind: ArgType::Default };
        assert(arg@.tokens =~= Seq::empty());
        arg
    }
}

impl Arg {
    /// Puts a token at the end of the argument.
    pub fn push(&mut self, token: Token)
        ensures
            final(self)@ == old(self)@.with(Some(token@)),
    {
        self.data.push(token);
        assert(self@.tokens =~= old(self)@.tokens.push(token@));
    }

    /// Tells whether the argument holds no token.
    pub fn is_empty(&self) -> (empty: bool)
        ensures
            empty == (self@.tokens.len() == 0),
    {
        self.data.len() == 0
    }

    /// Marks the argument as an assignment.
    pub fn set_setter(&mut self)
        ensures
            final(self)@ == (ArgView { tokens: old(self)@.tokens, kind: ArgType::VarSetter }),
    {
        self.kind = ArgType::VarSetter
    }

    /// Carries the argument out: every variable name gives way to its value, an
    /// assignment is made and gives no word, and any other argument gives its bytes.
    pub fn into_string_with_executing(self, environment: &mut Environment) -> (word: Vec<u8>)
        ensures
            word@ == self@.word(old(environment)@),
            final(environment)@ == self@.effect(old(environment)@),
    {
        let ghost tokens = self.data@;
        let ghost variables = environment@;
        let kind = self.kind;
        let mut raw: Vec<u8> = Vec::new();
        for token in it: self.data
            invariant
                it.seq() == tokens,
                environment@ == variables,
                raw@ == tokens_expanded(tokens_view(tokens.take(it.index() as int)), variables),
        {
            let mut token = token;
            token.to_default(&*environment);
            let mut bytes = token.downgrade();
            raw.append(&mut bytes);
            proof {
                let k = it.index() as int;
                assert(tokens_view(tokens.take(k + 1)).drop_last() =~= tokens_view(
                    tokens.take(k),
                ));
            }
        }
        assert(tokens.take(tokens.len() as int) =~= tokens);
        match kind {
            ArgType::VarSetter => {
                environment.assign(raw);
                Vec::new()
            },
            ArgType::Default => raw,
        }
    }

    /// An argument that stands for a word made of `tokens`.
    pub fn new_default(tokens: Vec<Token>) -> (arg: Arg)
        ensures
            arg@ == (ArgView { tokens: tokens_view(tokens@), kind: ArgType::Default }),
    {
        Arg { data: tokens, kind: ArgType::Default }
    }

    /// An argument that stands for an assignment made of `tokens`.
    pub fn new_var_setter(tokens: Vec<Token>) -> (arg: Arg)
        ensures
            arg@ == (ArgView { tokens: tokens_view(tokens@), kind: ArgType::VarSetter }),
    {
        Arg { data: tokens, kind: ArgType::VarSetter }
    }
}

} // verus!
