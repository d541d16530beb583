//! The decisions of the executor: what is shown, what is kept for the next stage,
//! and which stages run inside the shell.

use vstd::prelude::*;
use vstd::string::StringSliceAdditionalSpecFns;

use crate::ascii::{AT, NEWLINE};
use crate::bytes::{copy, from_text};
use crate::global_struct::default_utils::{stage_modes, stage_outcome, Outcome};
use crate::global_struct::GS;
use crate::pipeline::{stage_start, Delimeter};
use crate::program::Program;

verus! {

/// What the executor keeps from one stage to the next.
pub struct ExecutorView {
    /// What the last stage wrote to its output, if it succeeded.
    pub output: Seq<u8>,
    /// 0 if the last stage succeeded, -1 if it failed.
    pub status: int,
}

impl ExecutorView {
    /// The executor before the first stage of a line.
    pub open spec fn initial() -> ExecutorView {
        ExecutorView { output: Seq::empty(), status: 0 }
    }

    /// The executor after a stage that failed, or that could not be built or run.
    pub open spec fn failed() -> ExecutorView {
        ExecutorView { output: Seq::empty(), status: -1 }
    }

    /// The executor after a stage that ran: its output is kept if it succeeded.
    pub open spec fn after(code: int, stdout: Seq<u8>) -> ExecutorView {
        if code == 0 {
            ExecutorView { output: stdout, status: 0 }
        } else {
            ExecutorView::failed()
        }
    }

    /// What is shown when a statement ends: what its last stage wrote, if the stage
    /// succeeded and wrote anything.
    pub open spec fn shown(self) -> Option<Seq<u8>> {
        if self.status == 0 && self.output.len() > 0 {
            Some(self.output)
        } else {
            None
        }
    }

    /// What is shown before a stage runs: the first stage of a statement ends the
    /// statement before it; a stage behind a `|` shows nothing.
    pub open spec fn shown_before(self, delimeter: Delimeter) -> Option<Seq<u8>> {
        match delimeter {
            Delimeter::Start => self.shown(),
            Delimeter::Pipe => None,
        }
    }
}

/// What is reported of a stage that ran: of a stage that succeeded, what it wrote
/// to its error output, if anything; of a stage that failed, the same behind
/// `Error: `. A newline closes the report.
pub open spec fn reported(code: int, stderr: Seq<u8>) -> Option<Seq<u8>> {
    if code == 0 {
        if stderr.len() > 0 {
            Some(stderr.push(NEWLINE))
        } else {
            None
        }
    } else {
        Some("Error: ".spec_bytes() + stderr.push(NEWLINE))
    }
}

/// The model of bytes that may be absent.
pub open spec fn bytes_option_view(bytes: Option<Vec<u8>>) -> Option<Seq<u8>> {
    match bytes {
        Some(bytes) => Some(bytes@),
        None => None,
    }
}

/// Where a stage runs.
#[derive(Debug, PartialEq, Eq)]
pub enum Dispatch {
    /// Inside the shell: it has run, and this is what it asks.
    Builtin(Outcome),
    /// As a child process: it is still to be run.
    External(Program),
}

/// The executor of the stages of a line.
#[derive(Debug, PartialEq, Eq)]
pub struct Executor {
    last_output: Vec<u8>,
    last_status: i32,
}

impl View for Executor {
    type V = ExecutorView;

    closed spec fn view(&self) -> ExecutorView {
        ExecutorView { output: self.last_output@, status: self.last_status as int }
    }
}

impl Default for Executor {
    fn default() -> (executor: Self)
        ensures
            executor@ == ExecutorView::initial(),
    {
        Executor { last_output: Vec::new(), last_status: 0 }
    }
}

impl Executor {
    /// What the last stage wrote to its output, if it succeeded.
    pub fn last_output(&self) -> (output: &Vec<u8>)
        ensures
            output@ == self@.output,
    {
        &self.last_output
    }

    /// 0 if the last stage succeeded.
    pub fn last_status(&self) -> (status: i32)
        ensures
            status == self@.status,
    {
        self.last_status
    }

    /// What is to be shown before a stage runs.
    pub fn before_stage(&self, delimeter: Delimeter) -> (shown: Option<Vec<u8>>)
        ensures
            bytes_option_view(shown) == self@.shown_before(delimeter),
    {
        match delimeter {
            Delimeter::Start => {
                if self.last_status == 0 && self.last_output.len() > 0 {
                    Some(copy(&self.last_output))
                } else {
                    None
                }
            },
            Delimeter::Pipe => None,
        }
    }

    /// Runs a stage if it is a builtin, and hands it back if it is not.
    ///
    /// A stage whose buffer begins with the mark of the builtins runs inside the
    /// shell, on the settings and the variables of the session.
    pub fn program_output(&mut self, gs: &mut GS, program: Program) -> (dispatch: Dispatch)
        ensures
            final(self)@ == old(self)@,
            final(gs).default_utils == old(gs).default_utils,
            final(gs).environment@ == old(gs).environment@,
            final(gs).settings.invitation_input_symbol == old(gs).settings.invitation_input_symbol,
            if program.data().len() > 0 && program.data()[0] == AT {
                &&& dispatch matches Dispatch::Builtin(outcome)
                &&& outcome@ == stage_outcome(program.data())
                &&& final(gs).settings.mode == stage_modes(program.data(), old(gs).settings.mode)
            } else {
                &&& dispatch matches Dispatch::External(same)
                &&& same == program
                &&& final(gs).settings.mode == old(gs).settings.mode
            },
    {
        if program.is_default() {
            Dispatch::Builtin(
                gs.default_utils.execute(program, &mut gs.settings, &mut gs.environment),
            )
        } else {
            Dispatch::External(program)
        }
    }

    /// Takes note of a stage that ran, and says what is to be reported of it.
    ///
    /// What a stage that succeeded wrote to its output is kept for the next stage.
    /// After a stage that failed nothing is kept.
    pub fn after_stage(&mut self, code: i32, stdout: Vec<u8>, stderr: Vec<u8>) -> (report: Option<
        Vec<u8>,
    >)
        ensures
            final(self)@ == ExecutorView::after(code as int, stdout@),
            bytes_option_view(report) == reported(code as int, stderr@),
    {
        let mut stderr = stderr;
        if code == 0 {
            self.last_status = 0;
            self.last_output = stdout;
            if stderr.len() > 0 {
                stderr.push(NEWLINE);
                Some(stderr)
            } else {
                None
            }
        } else {
            self.last_status = -1;
            self.last_output = Vec::new();
            let mut report = from_text("Error: ");
            stderr.push(NEWLINE);
            report.append(&mut stderr);
            Some(report)
        }
    }

    /// Takes note of a stage that could not be built or run: nothing is kept.
    pub fn after_error(&mut self)
        ensures
            final(self)@ == ExecutorView::failed(),
    {
        self.last_status = -1;
        self.last_output = Vec::new();
    }

    /// Ends the line: says what is to be shown of its last statement, and starts
    /// afresh.
    pub fn at_end(&mut self) -> (shown: Option<Vec<u8>>)
        ensures
            bytes_option_view(shown) == old(self)@.shown(),
            final(self)@ == ExecutorView::initial(),
    {
        let mut output: Vec<u8> = Vec::new();
        std::mem::swap(&mut self.last_output, &mut output);
        let status = self.last_status;
        self.last_status = 0;
        if status == 0 && output.len() > 0 {
            Some(output)
        } else {
            None
        }
    }
}

/// A stage that failed cuts its statement short: the stage that is handed out next,
/// if any, is the first of the next statement; and nothing of what was kept is
/// shown, neither before that stage nor at the end of the line.
pub proof fn lemma_failure_cuts_statement_short(
    lines: Seq<Seq<u8>>,
    line: int,
    offset: int,
    code: int,
    stdout: Seq<u8>,
    delimeter: Delimeter,
)
    requires
        0 <= line < lines.len(),
        code != 0,
    ensures
        stage_start(lines, line, offset, ExecutorView::after(code, stdout).status) == (
            line + 1,
            0int,
        ),
        stage_start(lines, line, offset, ExecutorView::failed().status) == (line + 1, 0int),
        ExecutorView::after(code, stdout) == ExecutorView::failed(),
        ExecutorView::failed().shown_before(delimeter) is None,
        ExecutorView::failed().shown() is None,
{
}

} // verus!
