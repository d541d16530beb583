//! The builtin commands: they run inside the shell, and are named by pseudo-paths
//! that begin with a mark that no path of a file begins with.

use vstd::prelude::*;
use vstd::string::{is_ascii_spec_bytes, StringSliceAdditionalSpecFns};

use crate::ascii::{AT, NUL};
use crate::bytes::{equal, extend, flattened, from_text, strings_view};
use crate::global_struct::default_utils::exit::Exit;
use crate::global_struct::default_utils::ive::{ive_modes, ive_outcome, Ive};
use crate::global_struct::default_utils::mode::{mode_modes, mode_outcome, Mode};
use crate::global_struct::default_utils::nop::Nop;
use crate::global_struct::environment::Environment;
use crate::global_struct::settings::{Mode as Modes, Settings};
use crate::program::{all_words, is_word, lemma_flattened_words_end_in_nul, Program};
use crate::program_output::ProgramOutput;

pub mod exit;
pub mod ive;
pub mod mode;
pub mod nop;

verus! {

/// What a builtin asks of the shell once it has run.
#[derive(Debug, PartialEq, Eq)]
pub enum Outcome {
    /// The stage is over, with this output.
    Finished(ProgramOutput),
    /// The process is to end, with this status.
    Exit(i32),
}

/// What a builtin asks of the shell, as a mathematical value.
pub enum OutcomeView {
    /// The stage is over, with this exit code and these bytes written.
    Finished { code: int, stdout: Seq<u8>, stderr: Seq<u8> },
    /// The process is to end, with this status.
    Exit { code: int },
}

impl OutcomeView {
    /// A stage that succeeded and wrote nothing.
    pub open spec fn success() -> OutcomeView {
        OutcomeView::Finished { code: 0, stdout: Seq::empty(), stderr: Seq::empty() }
    }

    /// A stage that failed inside the shell, with a message.
    pub open spec fn failure(message: Seq<u8>) -> OutcomeView {
        OutcomeView::Finished { code: -1, stdout: Seq::empty(), stderr: message }
    }
}

impl View for Outcome {
    type V = OutcomeView;

    open spec fn view(&self) -> OutcomeView {
        match self {
            Outcome::Finished(output) => OutcomeView::Finished {
                code: output.code as int,
                stdout: output.stdout@,
                stderr: output.stderr@,
            },
            Outcome::Exit(code) => OutcomeView::Exit { code: *code as int },
        }
    }
}

/// The word that stands open at the end of the buffer of a builtin stage: the bytes
/// after its last NUL, without the marks.
pub open spec fn input_open(data: Seq<u8>) -> Seq<u8>
    decreases data.len(),
{
    if data.len() == 0 || data.last() == NUL {
        Seq::empty()
    } else if data.last() == AT {
        input_open(data.drop_last())
    } else {
        input_open(data.drop_last()).push(data.last())
    }
}

/// The words of the buffer of a builtin stage: what stands before each NUL, without
/// the marks. What stands after the last NUL is no word.
pub open spec fn input_words(data: Seq<u8>) -> Seq<Seq<u8>>
    decreases data.len(),
{
    if data.len() == 0 {
        Seq::empty()
    } else if data.last() == NUL {
        input_words(data.drop_last()).push(input_open(data.drop_last()))
    } else {
        input_words(data.drop_last())
    }
}

/// What the shell says of a pseudo-path that names no builtin.
pub open spec fn unknown_message() -> Seq<u8> {
    "Not default method".spec_bytes()
}

/// Bytes without a NUL that follow a buffer add no word to it.
proof fn lemma_input_words_unclosed(front: Seq<u8>, body: Seq<u8>)
    requires
        forall|i: int| 0 <= i < body.len() ==> body[i] != NUL,
    ensures
        input_words(front + body) == input_words(front),
    decreases body.len(),
{
    if body.len() > 0 {
        let shorter = body.drop_last();
        assert forall|i: int| 0 <= i < shorter.len() implies shorter[i] != NUL by {}
        lemma_input_words_unclosed(front, shorter);
        assert((front + body).drop_last() =~= front + shorter);
    }
}

/// The word that stands open behind whole words is made of the bytes behind them.
proof fn lemma_input_open_behind_words(front: Seq<u8>, body: Seq<u8>)
    requires
        front.len() == 0 || front.last() == NUL,
        forall|i: int| 0 <= i < body.len() ==> body[i] != NUL,
    ensures
        input_open(front + body) == input_open(body),
    decreases body.len(),
{
    if body.len() > 0 {
        let shorter = body.drop_last();
        assert forall|i: int| 0 <= i < shorter.len() implies shorter[i] != NUL by {}
        lemma_input_open_behind_words(front, shorter);
        assert((front + body).drop_last() =~= front + shorter);
    }
}

/// The words of a builtin stage are the words that were put in its buffer, each
/// without the NUL that closes it and without the marks.
pub proof fn lemma_input_words_of_flattened(words: Seq<Seq<u8>>)
    requires
        all_words(words),
    ensures
        input_words(flattened(words)) == Seq::new(
            words.len(),
            |i: int| input_open(words[i].drop_last()),
        ),
    decreases words.len(),
{
    if words.len() > 0 {
        let rest = words.drop_last();
        let word = words.last();
        let body = word.drop_last();
        let front = flattened(rest);
        assert(all_words(rest));
        assert forall|i: int| 0 <= i < body.len() implies body[i] != NUL by {}
        lemma_input_words_of_flattened(rest);
        lemma_flattened_words_end_in_nul(rest);
        lemma_input_words_unclosed(front, body);
        lemma_input_open_behind_words(front, body);
        assert((front + word).drop_last() =~= front + body);
    }
}

/// The words of the buffer of a builtin stage.
pub fn parse_input(args: Vec<u8>) -> (result: Vec<Vec<u8>>)
    ensures
        strings_view(result@) == input_words(args@),
{
    let mut result: Vec<Vec<u8>> = Vec::new();
    let mut buffer: Vec<u8> = Vec::new();
    let mut index: usize = 0;
    while index < args.len()
        invariant
            index <= args.len(),
            strings_view(result@) == input_words(args@.take(index as int)),
            buffer@ == input_open(args@.take(index as int)),
        decreases args.len() - index,
    {
        let byte = args[index];
        proof {
            let k = index as int;
            assert(args@.take(k + 1).drop_last() =~= args@.take(k));
        }
        if byte == NUL {
            let mut word: Vec<u8> = Vec::new();
            std::mem::swap(&mut word, &mut buffer);
            result.push(word);
        } else if byte != AT {
            buffer.push(byte);
        }
        index += 1;
    }
    assert(args@.take(index as int) =~= args@);
    result
}

/// The builtin commands of a session.
pub struct DefaultUtils {
    exit: Exit,
    ive: Ive,
    mode: Mode,
    nop: Nop,
}

/// The builtins.
#[derive(Clone, Copy, Debug, PartialEq, Eq, Structural)]
pub enum Builtin {
    Exit,
    Ive,
    Mode,
    Nop,
}

impl Builtin {
    /// The name by which the builtin is called.
    pub open spec fn name(self) -> Seq<u8> {
        match self {
            Builtin::Exit => "exit".spec_bytes(),
            Builtin::Ive => "ive".spec_bytes(),
            Builtin::Mode => "mode".spec_bytes(),
            Builtin::Nop => "nop".spec_bytes(),
        }
    }

    /// The pseudo-path that stands for the builtin.
    pub open spec fn path(self) -> Seq<u8> {
        match self {
            Builtin::Exit => "@exit".spec_bytes(),
            Builtin::Ive => "@ive".spec_bytes(),
            Builtin::Mode => "@mode".spec_bytes(),
            Builtin::Nop => "@nop".spec_bytes(),
        }
    }
}

/// What a builtin asks of the shell when it is called with `args`, its own name
/// first.
pub open spec fn builtin_outcome(builtin: Builtin, args: Seq<Seq<u8>>) -> OutcomeView {
    match builtin {
        Builtin::Exit => OutcomeView::Exit { code: 0 },
        Builtin::Ive => ive_outcome(args),
        Builtin::Mode => mode_outcome(args),
        Builtin::Nop => OutcomeView::success(),
    }
}

/// The modes after a builtin was called with `args`, its own name first.
pub open spec fn builtin_modes(builtin: Builtin, args: Seq<Seq<u8>>, modes: Modes) -> Modes {
    match builtin {
        Builtin::Exit => modes,
        Builtin::Ive => ive_modes(args, modes),
        Builtin::Mode => mode_modes(args, modes),
        Builtin::Nop => modes,
    }
}

/// The builtin that the buffer of a stage calls: the one that its first word
/// names, if it has a word and the word names one.
pub open spec fn stage_builtin(data: Seq<u8>) -> Option<Builtin> {
    if input_words(data).len() == 0 {
        None
    } else {
        builtin_named(input_words(data)[0])
    }
}

/// What a builtin stage asks of the shell.
pub open spec fn stage_outcome(data: Seq<u8>) -> OutcomeView {
    match stage_builtin(data) {
        Some(builtin) => builtin_outcome(builtin, input_words(data)),
        None => OutcomeView::failure(unknown_message()),
    }
}

/// The modes after a builtin stage.
pub open spec fn stage_modes(data: Seq<u8>, modes: Modes) -> Modes {
    match stage_builtin(data) {
        Some(builtin) => builtin_modes(builtin, input_words(data), modes),
        None => modes,
    }
}

/// The pseudo-path of a builtin is its name behind the mark of the builtins, and
/// the names of the builtins differ.
pub proof fn lemma_paths_are_marked_names(builtin: Builtin)
    ensures
        builtin.path() == seq![AT] + builtin.name(),
        builtin_named(builtin.name()) == Some(builtin),
{
    reveal_strlit("exit");
    reveal_strlit("ive");
    reveal_strlit("mode");
    reveal_strlit("nop");
    reveal_strlit("@exit");
    reveal_strlit("@ive");
    reveal_strlit("@mode");
    reveal_strlit("@nop");
    is_ascii_spec_bytes("exit");
    is_ascii_spec_bytes("ive");
    is_ascii_spec_bytes("mode");
    is_ascii_spec_bytes("nop");
    is_ascii_spec_bytes("@exit");
    is_ascii_spec_bytes("@ive");
    is_ascii_spec_bytes("@mode");
    is_ascii_spec_bytes("@nop");
    assert("exit".spec_bytes()[0] != "mode".spec_bytes()[0]);
    assert("ive".spec_bytes()[0] != "nop".spec_bytes()[0]);
}

/// Bytes that are neither a NUL nor a mark stand for themselves, behind a mark too.
proof fn lemma_input_open_plain(bytes: Seq<u8>)
    requires
        forall|i: int| 0 <= i < bytes.len() ==> bytes[i] != NUL && bytes[i] != AT,
    ensures
        input_open(bytes) == bytes,
        input_open(seq![AT] + bytes) == bytes,
    decreases bytes.len(),
{
    if bytes.len() == 0 {
        assert(input_open(bytes) =~= bytes);
        assert((seq![AT] + bytes).drop_last() =~= Seq::<u8>::empty());
    } else {
        let shorter = bytes.drop_last();
        assert forall|i: int| 0 <= i < shorter.len() implies shorter[i] != NUL && shorter[i]
            != AT by {}
        lemma_input_open_plain(shorter);
        assert((seq![AT] + bytes).drop_last() =~= seq![AT] + shorter);
    }
}

/// The name of a builtin holds neither a NUL nor a mark.
proof fn lemma_names_are_plain(builtin: Builtin)
    ensures
        forall|i: int|
            0 <= i < builtin.name().len() ==> builtin.name()[i] != NUL && builtin.name()[i] != AT,
{
    reveal_strlit("exit");
    reveal_strlit("ive");
    reveal_strlit("mode");
    reveal_strlit("nop");
    is_ascii_spec_bytes("exit");
    is_ascii_spec_bytes("ive");
    is_ascii_spec_bytes("mode");
    is_ascii_spec_bytes("nop");
}

/// A stage whose command calls a builtin runs that builtin once it is resolved:
/// with the pseudo-path in the place of the command, its buffer begins with the
/// mark of the builtins, its first word names the builtin, and its other words are
/// those of the stage, each without the NUL that closes it and without marks.
pub proof fn lemma_resolved_builtin_runs(words: Seq<Seq<u8>>, builtin: Builtin)
    requires
        all_words(words),
        words.len() > 0,
        builtin_named(words[0].drop_last()) == Some(builtin),
    ensures
        ({
            let data = flattened(words.update(0, builtin.path().push(NUL)));
            &&& data.len() > 0
            &&& data[0] == AT
            &&& stage_builtin(data) == Some(builtin)
            &&& input_words(data) == Seq::new(
                words.len(),
                |i: int|
                    if i == 0 {
                        builtin.name()
                    } else {
                        input_open(words[i].drop_last())
                    },
            )
        }),
{
    let path = builtin.path().push(NUL);
    let resolved = words.update(0, path);
    lemma_paths_are_marked_names(builtin);
    lemma_names_are_plain(builtin);
    lemma_input_open_plain(builtin.name());
    assert(path.drop_last() =~= seq![AT] + builtin.name());
    assert(is_word(path));
    assert(all_words(resolved));
    lemma_input_words_of_flattened(resolved);
    lemma_flattened_begins_with_first(resolved);
}

/// Byte strings that stand one after the other begin with the first of them.
proof fn lemma_flattened_begins_with_first(strings: Seq<Seq<u8>>)
    requires
        strings.len() > 0,
        strings[0].len() > 0,
    ensures
        flattened(strings).len() > 0,
        flattened(strings)[0] == strings[0][0],
    decreases strings.len(),
{
    if strings.len() == 1 {
        assert(flattened(strings.drop_last()).len() == 0);
    } else {
        assert(strings.drop_last()[0] == strings[0]);
        lemma_flattened_begins_with_first(strings.drop_last());
    }
}

/// The builtin that a name calls, if any.
pub open spec fn builtin_named(name: Seq<u8>) -> Option<Builtin> {
    if name == Builtin::Exit.name() {
        Some(Builtin::Exit)
    } else if name == Builtin::Ive.name() {
        Some(Builtin::Ive)
    } else if name == Builtin::Mode.name() {
        Some(Builtin::Mode)
    } else if name == Builtin::Nop.name() {
        Some(Builtin::Nop)
    } else {
        None
    }
}

impl Default for DefaultUtils {
    fn default() -> Self {
        DefaultUtils {
            exit: Exit::default(),
            ive: Ive::default(),
            mode: Mode::default(),
            nop: Nop::default(),
        }
    }
}

impl DefaultUtils {
    #[verifier::type_invariant]
    spec fn well_formed(&self) -> bool {
        &&& self.exit.name@ == Builtin::Exit.name()
        &&& self.exit.path@ == Builtin::Exit.path()
        &&& self.ive.name@ == Builtin::Ive.name()
        &&& self.ive.path@ == Builtin::Ive.path()
        &&& self.mode.name@ == Builtin::Mode.name()
        &&& self.mode.path@ == Builtin::Mode.path()
        &&& self.nop.name@ == Builtin::Nop.name()
        &&& self.nop.path@ == Builtin::Nop.path()
    }

    /// The builtin that a name calls, if any.
    pub fn find(&self, name: &Vec<u8>) -> (builtin: Option<Builtin>)
        ensures
            builtin == builtin_named(name@),
    {
        proof {
            use_type_invariant(self);
        }
        if equal(name, &self.exit.name) {
            Some(Builtin::Exit)
        } else if equal(name, &self.ive.name) {
            Some(Builtin::Ive)
        } else if equal(name, &self.mode.name) {
            Some(Builtin::Mode)
        } else if equal(name, &self.nop.name) {
            Some(Builtin::Nop)
        } else {
            None
        }
    }

    /// Puts the pseudo-path of a builtin in the place of its name.
    ///
    /// `name` is a word closed by one more byte. If the word without that byte
    /// calls a builtin, the pseudo-path of the builtin, closed by a NUL, takes its
    /// place. Every other name stays as it is.
    pub fn name_into_path(&self, name: &mut Vec<u8>) -> (known: bool)
        ensures
            known == (old(name)@.len() > 0 && builtin_named(old(name)@.drop_last()) is Some),
            known ==> final(name)@ == builtin_named(old(name)@.drop_last())->Some_0.path().push(
                NUL,
            ),
            !known ==> final(name)@ == old(name)@,
    {
        proof {
            use_type_invariant(self);
        }
        if name.len() == 0 {
            return false;
        }
        let mut word: Vec<u8> = Vec::new();
        extend(&mut word, name, 0, name.len() - 1);
        match self.find(&word) {
            Some(Builtin::Exit) => {
                self.exit.name_into_path(name);
                true
            },
            Some(Builtin::Ive) => {
                self.ive.name_into_path(name);
                true
            },
            Some(Builtin::Mode) => {
                self.mode.name_into_path(name);
                true
            },
            Some(Builtin::Nop) => {
                self.nop.name_into_path(name);
                true
            },
            None => false,
        }
    }

    /// Runs a builtin stage.
    ///
    /// The words of the stage are those of its buffer, without the marks. The first
    /// calls the builtin, which is given all of them. A stage without words, or
    /// whose first word calls no builtin, fails with code -1 and changes nothing.
    pub fn execute(
        &self,
        program: Program,
        settings: &mut Settings,
        environment: &mut Environment,
    ) -> (outcome: Outcome)
        ensures
            outcome@ == stage_outcome(program.data()),
            final(settings).mode == stage_modes(program.data(), old(settings).mode),
            final(settings).invitation_input_symbol == old(settings).invitation_input_symbol,
            final(environment)@ == old(environment)@,
    {
        proof {
            use_type_invariant(self);
        }
        let input = parse_input(program.get_data());
        if input.len() == 0 {
            return Outcome::Finished(
                ProgramOutput::new(-1, Vec::new(), from_text("Not default method")),
            );
        }
        match self.find(&input[0]) {
            Some(Builtin::Exit) => self.exit.execute(input, settings, environment),
            Some(Builtin::Ive) => self.ive.execute(input, settings, environment),
            Some(Builtin::Mode) => self.mode.execute(input, settings, environment),
            Some(Builtin::Nop) => self.nop.execute(input, settings, environment),
            None => Outcome::Finished(
                ProgramOutput::new(-1, Vec::new(), from_text("Not default method")),
            ),
        }
    }
}

} // verus!
