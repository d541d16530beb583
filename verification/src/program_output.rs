//! What one stage of a pipeline leaves behind.

use vstd::prelude::*;

verus! {

/// The exit code of a stage and what it wrote.
#[derive(Debug, PartialEq, Eq)]
pub struct ProgramOutput {
    pub code: i32,
    pub stdout: Vec<u8>,
    pub stderr: Vec<u8>,
}

impl ProgramOutput {
    /// Whether this is the output with the given exit code and bytes.
    pub open spec fn is(self, code: int, stdout: Seq<u8>, stderr: Seq<u8>) -> bool {
        self.code == code && self.stdout@ == stdout && self.stderr@ == stderr
    }

    pub fn new(code: i32, stdout: Vec<u8>, stderr: Vec<u8>) -> (output: ProgramOutput)
        ensures
            output.code == code,
            output.stdout == stdout,
            output.stderr == stderr,
    {
        ProgramOutput { code, stdout, stderr }
    }
}

} // verus!
