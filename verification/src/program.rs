//! A stage ready to run: its words in one buffer, each closed by a NUL, and the
//! bytes that it is to read.

use vstd::prelude::*;

use crate::ascii::{AT, NUL};
use crate::bytes::flattened;

verus! {

/// Whether a word begins at `index`: at the start of the buffer, and after every
/// NUL.
pub open spec fn is_arg_start(data: Seq<u8>, index: int) -> bool {
    0 <= index < data.len() && (index == 0 || data[index - 1] == NUL)
}

/// The places from `from` on at which a word begins, in rising order.
pub open spec fn arg_starts_from(data: Seq<u8>, from: int) -> Seq<int>
    decreases data.len() - from,
{
    if from < 0 || from >= data.len() {
        Seq::empty()
    } else if is_arg_start(data, from) {
        seq![from] + arg_starts_from(data, from + 1)
    } else {
        arg_starts_from(data, from + 1)
    }
}

/// The places at which the words of a buffer begin, in rising order.
pub open spec fn arg_starts(data: Seq<u8>) -> Seq<int> {
    arg_starts_from(data, 0)
}

/// A word as a buffer holds it: bytes that are no NUL, closed by a NUL.
pub open spec fn is_word(word: Seq<u8>) -> bool {
    &&& word.len() > 0
    &&& word.last() == NUL
    &&& forall|i: int| 0 <= i < word.len() - 1 ==> word[i] != NUL
}

/// Whether every byte string is a word closed by a NUL.
pub open spec fn all_words(words: Seq<Seq<u8>>) -> bool {
    forall|i: int| 0 <= i < words.len() ==> is_word(#[trigger] words[i])
}

/// The places at which words begin once they stand one after the other.
pub open spec fn word_offsets(words: Seq<Seq<u8>>) -> Seq<int>
    decreases words.len(),
{
    if words.len() == 0 {
        Seq::empty()
    } else {
        word_offsets(words.drop_last()).push(flattened(words.drop_last()).len() as int)
    }
}

/// Words that stand one after the other end in a NUL, if there are any.
pub proof fn lemma_flattened_words_end_in_nul(words: Seq<Seq<u8>>)
    requires
        all_words(words),
    ensures
        words.len() == 0 ==> flattened(words).len() == 0,
        words.len() > 0 ==> flattened(words).len() > 0 && flattened(words).last() == NUL,
{
}

/// The places before the end of `front` at which a word begins do not depend on
/// what follows.
proof fn lemma_starts_split(front: Seq<u8>, back: Seq<u8>, from: int)
    requires
        0 <= from <= front.len(),
    ensures
        arg_starts_from(front + back, from) == arg_starts_from(front, from) + arg_starts_from(
            front + back,
            front.len() as int,
        ),
    decreases front.len() - from,
{
    if from < front.len() {
        lemma_starts_split(front, back, from + 1);
    }
}

/// No word begins inside a word.
proof fn lemma_no_start_inside(front: Seq<u8>, word: Seq<u8>, from: int)
    requires
        is_word(word),
        front.len() < from <= front.len() + word.len(),
    ensures
        arg_starts_from(front + word, from) == Seq::<int>::empty(),
    decreases front.len() + word.len() - from,
{
    if from < front.len() + word.len() {
        lemma_no_start_inside(front, word, from + 1);
    }
}

/// Words that are put one after the other begin where they were put: a walk over
/// the buffer hands out one place for each word, the place at which the word
/// stands.
pub proof fn lemma_words_begin_where_they_were_put(words: Seq<Seq<u8>>)
    requires
        all_words(words),
    ensures
        arg_starts(flattened(words)) == word_offsets(words),
        arg_starts(flattened(words)).len() == words.len(),
    decreases words.len(),
{
    if words.len() > 0 {
        let rest = words.drop_last();
        let front = flattened(rest);
        assert(all_words(rest));
        lemma_words_begin_where_they_were_put(rest);
        lemma_flattened_words_end_in_nul(rest);
        lemma_starts_split(front, words.last(), 0);
        lemma_no_start_inside(front, words.last(), front.len() as int + 1);
    }
}

/// A stage ready to run.
#[derive(Debug, PartialEq, Eq)]
pub struct Program {
    stdin: Vec<u8>,
    data: Vec<u8>,
}

impl Default for Program {
    fn default() -> (program: Self)
        ensures
            program.data() == Seq::<u8>::empty(),
            program.stdin() == Seq::<u8>::empty(),
    {
        Program { stdin: Vec::new(), data: Vec::new() }
    }
}

impl Program {
    /// The words of the stage, each closed by a NUL.
    pub closed spec fn data(&self) -> Seq<u8> {
        self.data@
    }

    /// The bytes that the stage is to read.
    pub closed spec fn stdin(&self) -> Seq<u8> {
        self.stdin@
    }

    /// A stage with the given words and nothing to read.
    pub fn new(data: Vec<u8>) -> (program: Program)
        ensures
            program.data() == data@,
            program.stdin() == Seq::<u8>::empty(),
    {
        Program { stdin: Vec::new(), data }
    }

    /// Puts more words at the end of the stage.
    pub fn add_args(&mut self, args: Vec<u8>)
        ensures
            final(self).data() == old(self).data() + args@,
            final(self).stdin() == old(self).stdin(),
    {
        let mut args = args;
        self.data.append(&mut args);
    }

    /// Tells whether the stage is a builtin: whether its first byte is the mark
    /// that no path of a file begins with.
    pub fn is_default(&self) -> (builtin: bool)
        ensures
            builtin == (self.data().len() > 0 && self.data()[0] == AT),
    {
        self.data.len() > 0 && self.data[0] == AT
    }

    /// The words of the stage.
    pub fn get_data(self) -> (data: Vec<u8>)
        ensures
            data@ == self.data(),
    {
        self.data
    }

    /// Gives the stage the bytes that it is to read.
    pub fn set_stdin_data(&mut self, stdin: Vec<u8>)
        ensures
            final(self).stdin() == stdin@,
            final(self).data() == old(self).data(),
    {
        self.stdin = stdin;
    }

    /// Hands out the bytes that the stage is to read, and leaves none.
    pub fn flush_stdin_data(&mut self) -> (stdin: Vec<u8>)
        ensures
            stdin@ == old(self).stdin(),
            final(self).stdin() == Seq::<u8>::empty(),
            final(self).data() == old(self).data(),
    {
        let mut stdin: Vec<u8> = Vec::new();
        std::mem::swap(&mut self.stdin, &mut stdin);
        stdin
    }

    /// A walk over the places at which the words of the stage begin.
    pub fn into_iter(&self) -> (iter: IterProgram<'_>)
        ensures
            iter.remaining() == arg_starts(self.data()),
            iter.data() == self.data(),
    {
        IterProgram::new(&self.data)
    }
}

/// A walk over the words of a stage: it hands out, one after the other, the places
/// at which they begin.
pub struct IterProgram<'a> {
    data: &'a Vec<u8>,
    last_byte: u8,
    index: usize,
}

impl<'a> IterProgram<'a> {
    #[verifier::type_invariant]
    spec fn well_formed(&self) -> bool {
        &&& self.index <= self.data.len()
        &&& if self.index == 0 {
            self.last_byte == NUL
        } else {
            self.last_byte == self.data[self.index - 1]
        }
    }

    /// The buffer that is walked over.
    pub closed spec fn data(&self) -> Seq<u8> {
        self.data@
    }

    /// The places that are still to be handed out, in order.
    pub closed spec fn remaining(&self) -> Seq<int> {
        arg_starts_from(self.data@, self.index as int)
    }

    fn new(data: &'a Vec<u8>) -> (iter: IterProgram<'a>)
        ensures
            iter.remaining() == arg_starts(data@),
            iter.data() == data@,
    {
        IterProgram { data, last_byte: 0, index: 0 }
    }

    /// Hands out the place at which the next word begins; nothing once every word
    /// has been handed out.
    pub fn next(&mut self) -> (start: Option<usize>)
        ensures
            final(self).data() == old(self).data(),
            old(self).remaining().len() == 0 ==> start is None && final(self).remaining()
                == old(self).remaining(),
            old(self).remaining().len() > 0 ==> start == Some(old(self).remaining()[0] as usize)
                && final(self).remaining() == old(self).remaining().drop_first(),
            start matches Some(index) ==> index < old(self).data().len(),
    {
        proof {
            use_type_invariant(&*self);
        }
        let data = self.data;
        let mut last_byte = self.last_byte;
        let mut index = self.index;
        while last_byte != NUL && index < data.len()
            invariant
                index <= data.len(),
                if index == 0 {
                    last_byte == NUL
                } else {
                    last_byte == data[index - 1]
                },
                arg_starts_from(data@, index as int) == old(self).remaining(),
            decreases data.len() - index,
        {
            last_byte = data[index];
            index += 1;
        }
        if index < data.len() {
            let start = index;
            last_byte = data[index];
            index += 1;
            *self = IterProgram { data, last_byte, index };
            Some(start)
        } else {
            *self = IterProgram { data, last_byte, index };
            None
        }
    }
}

} // verus!
