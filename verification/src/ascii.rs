//! The bytes that the shell's syntax gives a meaning to.

use vstd::prelude::*;

verus! {

pub const NUL: u8 = 0x00;

pub const NEWLINE: u8 = 0x0a;

pub const SPACE: u8 = 0x20;

pub const DOUBLE_QUOTE: u8 = 0x22;

pub const DOLLAR: u8 = 0x24;

pub const QUOTE: u8 = 0x27;

pub const PLUS: u8 = 0x2b;

pub const MINUS: u8 = 0x2d;

pub const DOT: u8 = 0x2e;

pub const SLASH: u8 = 0x2f;

pub const COLON: u8 = 0x3a;

pub const SEMICOLON: u8 = 0x3b;

pub const EQUALS: u8 = 0x3d;

pub const AT: u8 = 0x40;

pub const UNDERSCORE: u8 = 0x5f;

pub const LOWER_I: u8 = 0x69;

pub const LOWER_X: u8 = 0x78;

pub const PIPE: u8 = 0x7c;

/// Space, newline and NUL separate words.
pub open spec fn is_blank(byte: u8) -> bool {
    byte == SPACE || byte == NEWLINE || byte == NUL
}

/// An ASCII letter or digit.
pub open spec fn is_alphanumeric(byte: u8) -> bool {
    (0x61 <= byte <= 0x7a) || (0x41 <= byte <= 0x5a) || (0x30 <= byte <= 0x39)
}

/// The word that stands open at the end of `input`: the bytes after its last blank.
pub open spec fn open_word(input: Seq<u8>) -> Seq<u8>
    decreases input.len(),
{
    if input.len() == 0 || is_blank(input.last()) {
        Seq::empty()
    } else {
        open_word(input.drop_last()).push(input.last())
    }
}

/// The words of `input` that a blank has closed, in order.
pub open spec fn closed_words(input: Seq<u8>) -> Seq<Seq<u8>>
    decreases input.len(),
{
    if input.len() == 0 {
        Seq::empty()
    } else if is_blank(input.last()) && open_word(input.drop_last()).len() > 0 {
        closed_words(input.drop_last()).push(open_word(input.drop_last()))
    } else {
        closed_words(input.drop_last())
    }
}

/// The words of `input`: its longest runs of bytes that are not blank, in order.
pub open spec fn words(input: Seq<u8>) -> Seq<Seq<u8>> {
    if open_word(input).len() > 0 {
        closed_words(input).push(open_word(input))
    } else {
        closed_words(input)
    }
}

/// Tells whether `byte` separates words.
pub fn blank(byte: u8) -> (b: bool)
    ensures
        b == is_blank(byte),
{
    byte == SPACE || byte == NEWLINE || byte == NUL
}

/// Tells whether `byte` is an ASCII letter or digit.
pub fn alphanumeric(byte: u8) -> (b: bool)
    ensures
        b == is_alphanumeric(byte),
{
    (0x61 <= byte && byte <= 0x7a) || (0x41 <= byte && byte <= 0x5a) || (0x30 <= byte && byte
        <= 0x39)
}

} // verus!
