//! The builtin that switches the modes of the session.

use vstd::prelude::*;
use vstd::string::StringSliceAdditionalSpecFns;

use crate::ascii::{DOUBLE_QUOTE, LOWER_I, LOWER_X, MINUS, NUL, PLUS, QUOTE};
use crate::bytes::{copy, from_text, join, joined, strings_view};
use crate::global_struct::default_utils::{Outcome, OutcomeView};
use crate::global_struct::environment::Environment;
use crate::global_struct::settings::{Mode as Modes, Settings};
use crate::program_output::ProgramOutput;

verus! {

/// The bytes that the argument of `mode` is made of: the signs `+` and `-`, and the
/// letters `i` and `x`.
pub open spec fn is_flag(byte: u8) -> bool {
    byte == MINUS || byte == PLUS || byte == LOWER_I || byte == LOWER_X
}

/// Whether every byte is a sign or a letter of a mode.
pub open spec fn all_flags(flags: Seq<u8>) -> bool {
    forall|i: int| 0 <= i < flags.len() ==> is_flag(#[trigger] flags[i])
}

/// The first byte that is neither a sign nor a letter of a mode.
pub open spec fn first_wrong_flag(flags: Seq<u8>) -> u8
    decreases flags.len(),
{
    if flags.len() == 0 {
        0
    } else if !is_flag(flags.first()) {
        flags.first()
    } else {
        first_wrong_flag(flags.drop_first())
    }
}

/// The sign in force after `flags`: the last sign among them, `+` if there is none.
pub open spec fn sign_after(flags: Seq<u8>) -> bool
    decreases flags.len(),
{
    if flags.len() == 0 {
        true
    } else if flags.last() == PLUS {
        true
    } else if flags.last() == MINUS {
        false
    } else {
        sign_after(flags.drop_last())
    }
}

/// The interactive mode after `flags`: what the sign in force said at the last `i`;
/// as before if there is none.
pub open spec fn interactive_after(flags: Seq<u8>, before: bool) -> bool
    decreases flags.len(),
{
    if flags.len() == 0 {
        before
    } else if flags.last() == LOWER_I {
        sign_after(flags.drop_last())
    } else {
        interactive_after(flags.drop_last(), before)
    }
}

/// The xargs mode after `flags`: what the sign in force said at the last `x`; as
/// before if there is none.
pub open spec fn xargs_after(flags: Seq<u8>, before: bool) -> bool
    decreases flags.len(),
{
    if flags.len() == 0 {
        before
    } else if flags.last() == LOWER_X {
        sign_after(flags.drop_last())
    } else {
        xargs_after(flags.drop_last(), before)
    }
}

/// What `mode` says of a call without exactly one argument.
pub open spec fn mode_arity_message(args: Seq<Seq<u8>>) -> Seq<u8> {
    "Incorrect number of arguments: ".spec_bytes() + seq![DOUBLE_QUOTE] + joined(args)
        + seq![DOUBLE_QUOTE]
}

/// What `mode` says of a byte that is neither a sign nor a letter of a mode.
pub open spec fn mode_flag_message(byte: u8) -> Seq<u8> {
    "Wrong argument: ".spec_bytes() + seq![QUOTE, byte, QUOTE]
}

/// What `mode` asks of the shell: it succeeds with exactly one argument made of
/// signs and letters of modes, and fails with a message otherwise.
pub open spec fn mode_outcome(args: Seq<Seq<u8>>) -> OutcomeView {
    if args.len() != 2 {
        OutcomeView::failure(mode_arity_message(args))
    } else if !all_flags(args[1]) {
        OutcomeView::failure(mode_flag_message(first_wrong_flag(args[1])))
    } else {
        OutcomeView::success()
    }
}

/// The modes after `mode`: a call that fails changes nothing.
pub open spec fn mode_modes(args: Seq<Seq<u8>>, modes: Modes) -> Modes {
    if args.len() != 2 || !all_flags(args[1]) {
        modes
    } else {
        Modes {
            interactive: interactive_after(args[1], modes.interactive),
            xargs: xargs_after(args[1], modes.xargs),
        }
    }
}

/// `mode [+-][ix]*`: the modes of the session.
pub struct Mode {
    pub name: Vec<u8>,
    pub path: Vec<u8>,
}

impl Mode {
    /// Switches modes.
    ///
    /// `args` holds the name of the builtin and its arguments. A call without
    /// exactly one argument, or with a byte that is neither a sign nor a letter of a
    /// mode, fails with code -1 and a message, and changes nothing. Otherwise the
    /// argument is read from left to right: a sign is in force until the next, and
    /// a letter sets its mode to what the sign in force says.
    pub fn execute(
        &self,
        args: Vec<Vec<u8>>,
        settings: &mut Settings,
        environment: &mut Environment,
    ) -> (outcome: Outcome)
        ensures
            outcome@ == mode_outcome(strings_view(args@)),
            final(settings).mode == mode_modes(strings_view(args@), old(settings).mode),
            final(settings).invitation_input_symbol == old(settings).invitation_input_symbol,
            final(environment)@ == old(environment)@,
    {
        if args.len() != 2 {
            let mut message = from_text("Incorrect number of arguments: ");
            message.push(DOUBLE_QUOTE);
            let mut line = join(&args);
            message.append(&mut line);
            message.push(DOUBLE_QUOTE);
            assert(message@ =~= mode_arity_message(strings_view(args@)));
            return Outcome::Finished(ProgramOutput::new(-1, Vec::new(), message));
        }
        let flags = &args[1];
        let mut index: usize = 0;
        while index < flags.len()
            invariant
                index <= flags.len(),
                args.len() == 2,
                flags@ == args[1]@,
                *settings == *old(settings),
                environment@ == old(environment)@,
                all_flags(flags@.take(index as int)),
            decreases flags.len() - index,
        {
            let byte = flags[index];
            if !(byte == MINUS || byte == PLUS || byte == LOWER_I || byte == LOWER_X) {
                let mut message = from_text("Wrong argument: ");
                message.push(QUOTE);
                message.push(byte);
                message.push(QUOTE);
                proof {
                    lemma_first_wrong_flag(flags@, index as int);
                    assert(message@ =~= mode_flag_message(byte));
                }
                return Outcome::Finished(ProgramOutput::new(-1, Vec::new(), message));
            }
            proof {
                let k = index as int;
            }
            index += 1;
        }
        assert(flags@.take(index as int) =~= flags@);
        let mut sign = true;
        let mut index: usize = 0;
        while index < flags.len()
            invariant
                index <= flags.len(),
                args.len() == 2,
                flags@ == args[1]@,
                all_flags(flags@),
                environment@ == old(environment)@,
                sign == sign_after(flags@.take(index as int)),
                settings.invitation_input_symbol == old(settings).invitation_input_symbol,
                settings.mode.interactive == interactive_after(
                    flags@.take(index as int),
                    old(settings).mode.interactive,
                ),
                settings.mode.xargs == xargs_after(
                    flags@.take(index as int),
                    old(settings).mode.xargs,
                ),
            decreases flags.len() - index,
        {
            let byte = flags[index];
            proof {
                let k = index as int;
                assert(flags@.take(k + 1).drop_last() =~= flags@.take(k));
            }
            if byte == MINUS {
                sign = false;
            } else if byte == PLUS {
                sign = true;
            } else if byte == LOWER_I {
                settings.set_interactive_mode(sign);
            } else if byte == LOWER_X {
                settings.set_xargs_mode(sign);
            }
            index += 1;
        }
        Outcome::Finished(ProgramOutput::new(0, Vec::new(), Vec::new()))
    }

    /// Puts the pseudo-path of the builtin, closed by a NUL, in the place of a name.
    pub fn name_into_path(&self, name: &mut Vec<u8>)
        ensures
            final(name)@ == self.path@.push(NUL),
    {
        let mut path = copy(&self.path);
        path.push(NUL);
        *name = path;
    }
}

impl Default for Mode {
    fn default() -> (mode: Self)
        ensures
            mode.name@ == "mode".spec_bytes(),
            mode.path@ == "@mode".spec_bytes(),
    {
        Mode { name: from_text("mode"), path: from_text("@mode") }
    }
}

/// A call of `mode` that fails does not succeed in part: with a wrong number of
/// arguments, or with a byte that is neither a sign nor a letter of a mode, the exit
/// code is not zero and the modes stay as they are.
pub proof fn lemma_failed_mode_changes_nothing(args: Seq<Seq<u8>>, modes: Modes)
    requires
        args.len() != 2 || !all_flags(args[1]),
    ensures
        mode_outcome(args) matches OutcomeView::Finished { code, .. } && code != 0,
        mode_modes(args, modes) == modes,
{
}

/// The byte at `index` is the first wrong one if every byte before it is a sign or
/// a letter of a mode and it is neither.
proof fn lemma_first_wrong_flag(flags: Seq<u8>, index: int)
    requires
        0 <= index < flags.len(),
        all_flags(flags.take(index)),
        !is_flag(flags[index]),
    ensures
        !all_flags(flags),
        first_wrong_flag(flags) == flags[index],
    decreases index,
{
    if index > 0 {
        let rest = flags.drop_first();
        assert(is_flag(flags.take(index)[0]));
        assert forall|i: int| 0 <= i < index - 1 implies is_flag(
            #[trigger] rest.take(index - 1)[i],
        ) by {
            assert(rest.take(index - 1)[i] == flags.take(index)[i + 1]);
        }
        lemma_first_wrong_flag(rest, index - 1);
    }
}

} // verus!
