//! The plumbing of a child process: which descriptors are moved and closed, in which
//! order, and what the status of a child that was waited for says.

use vstd::prelude::*;

verus! {

/// Whether a wait status is that of a child that exited.
pub open spec fn exited(status: i32) -> bool {
    (status & 0x7f) == 0
}

/// The exit code that a wait status holds.
pub open spec fn exit_code(status: i32) -> i32 {
    (status >> 8) & 0xff
}

/// Whether a wait status is that of a child that a signal ended.
pub open spec fn signaled(status: i32) -> bool {
    ((status & 0x7f) + 1) as i8 >= 2
}

/// The signal that a wait status holds.
pub open spec fn signal(status: i32) -> i32 {
    status & 0x7f
}

/// `libc::WIFEXITED`: true if the low seven bits of the status are zero.
#[verifier::external_body]
fn wifexited(status: i32) -> (result: bool)
    ensures
        result == exited(status),
{
    libc::WIFEXITED(status)
}

/// `libc::WEXITSTATUS`: the second byte of the status.
#[verifier::external_body]
fn wexitstatus(status: i32) -> (result: i32)
    ensures
        result == exit_code(status),
{
    libc::WEXITSTATUS(status)
}

/// `libc::WIFSIGNALED`: true if the low seven bits of the status, plus one and cut
/// to a signed byte, are at least two.
#[verifier::external_body]
fn wifsignaled(status: i32) -> (result: bool)
    ensures
        result == signaled(status),
{
    libc::WIFSIGNALED(status)
}

/// `libc::WTERMSIG`: the low seven bits of the status.
#[verifier::external_body]
fn wtermsig(status: i32) -> (result: i32)
    ensures
        result == signal(status),
{
    libc::WTERMSIG(status)
}

/// Why a child left no exit code.
#[derive(Clone, Copy, Debug, PartialEq, Eq, Structural)]
pub enum WaitError {
    /// The wait itself failed: it gave back this in place of the child's id.
    Wait(i32),
    /// A signal ended the child.
    Signal(i32),
    /// The child neither exited nor was ended by a signal.
    Stopped,
}

/// Reads what a wait for the child `pid` gave back: `waited` is what the wait
/// returned, `status` the status it filled in.
///
/// A child that exited leaves its exit code. A child that a signal ended leaves
/// the signal, as an error of its own.
pub fn wait_status(pid: i32, waited: i32, status: i32) -> (result: Result<i32, WaitError>)
    ensures
        result == if waited != pid {
            Err::<i32, WaitError>(WaitError::Wait(waited))
        } else if exited(status) {
            Ok::<i32, WaitError>(exit_code(status))
        } else if signaled(status) {
            Err::<i32, WaitError>(WaitError::Signal(signal(status)))
        } else {
            Err::<i32, WaitError>(WaitError::Stopped)
        },
{
    if waited != pid {
        Err(WaitError::Wait(waited))
    } else if wifexited(status) {
        Ok(wexitstatus(status))
    } else if wifsignaled(status) {
        Err(WaitError::Signal(wtermsig(status)))
    } else {
        Err(WaitError::Stopped)
    }
}

/// The descriptor on which a process reads its input.
pub const STDIN_FILENO: i32 = 0;

/// The descriptor on which a process writes its output.
pub const STDOUT_FILENO: i32 = 1;

/// The descriptor on which a process writes its errors.
pub const STDERR_FILENO: i32 = 2;

/// The descriptors of the three pipes between the shell and a child.
#[derive(Clone, Copy, Debug, PartialEq, Eq, Structural)]
pub struct Pipes {
    pub stdin_read: i32,
    pub stdin_write: i32,
    pub stdout_read: i32,
    pub stdout_write: i32,
    pub stderr_read: i32,
    pub stderr_write: i32,
}

/// One step of the plumbing.
#[derive(Clone, Copy, Debug, PartialEq, Eq, Structural)]
pub enum Step {
    /// Make `to` a copy of `from`.
    Dup2 { from: i32, to: i32 },
    /// Close a descriptor.
    Close(i32),
    /// Write what the child is to read into a descriptor.
    WriteInput(i32),
    /// Wait for the child.
    Wait,
    /// Read what the child wrote to its output up to the end, and close the
    /// descriptor.
    ReadOutput(i32),
    /// Read what the child wrote to its errors up to the end, and close the
    /// descriptor.
    ReadErrors(i32),
    /// Replace the process by the command.
    Exec,
}

impl Step {
    /// The descriptor that the step gives back to the system, if any.
    pub open spec fn released(self) -> Option<i32> {
        match self {
            Step::Close(fd) => Some(fd),
            Step::ReadOutput(fd) => Some(fd),
            Step::ReadErrors(fd) => Some(fd),
            _ => None,
        }
    }
}

/// The redirection of one standard descriptor in the child: nothing in interactive
/// mode, where the child keeps the terminal.
pub open spec fn redirection(interactive: bool, from: i32, to: i32) -> Seq<Step> {
    if interactive {
        Seq::empty()
    } else {
        seq![Step::Dup2 { from, to }]
    }
}

/// What the child does between the fork and the command: unless the mode is
/// interactive its three standard descriptors become ends of the pipes; every
/// descriptor of the pipes is closed; then the command takes the place of the
/// process.
pub open spec fn child_plan(pipes: Pipes, interactive: bool) -> Seq<Step> {
    redirection(interactive, pipes.stdin_read, STDIN_FILENO) + seq![
        Step::Close(pipes.stdin_read),
        Step::Close(pipes.stdin_write),
    ] + redirection(interactive, pipes.stdout_write, STDOUT_FILENO) + seq![
        Step::Close(pipes.stdout_read),
        Step::Close(pipes.stdout_write),
    ] + redirection(interactive, pipes.stderr_write, STDERR_FILENO) + seq![
        Step::Close(pipes.stderr_read),
        Step::Close(pipes.stderr_write),
        Step::Exec,
    ]
}

/// What the shell does after the fork: the ends of the child are closed; what the
/// child is to read is written and its pipe closed; the child is waited for; and
/// what the child wrote is read up to the end, unless the mode is interactive,
/// where nothing was captured and the pipes are only closed.
pub open spec fn parent_plan(pipes: Pipes, interactive: bool) -> Seq<Step> {
    seq![
        Step::Close(pipes.stdout_write),
        Step::Close(pipes.stderr_write),
        Step::Close(pipes.stdin_read),
        Step::WriteInput(pipes.stdin_write),
        Step::Close(pipes.stdin_write),
        Step::Wait,
    ] + if interactive {
        seq![Step::Close(pipes.stdout_read), Step::Close(pipes.stderr_read)]
    } else {
        seq![Step::ReadOutput(pipes.stdout_read), Step::ReadErrors(pipes.stderr_read)]
    }
}

/// The descriptors that the steps give back to the system, in order.
pub open spec fn released(steps: Seq<Step>) -> Seq<i32>
    decreases steps.len(),
{
    if steps.len() == 0 {
        Seq::empty()
    } else {
        match steps.last().released() {
            Some(fd) => released(steps.drop_last()).push(fd),
            None => released(steps.drop_last()),
        }
    }
}

/// The steps of the child, in order.
pub fn child_steps(pipes: &Pipes, interactive: bool) -> (steps: Vec<Step>)
    ensures
        steps@ == child_plan(*pipes, interactive),
{
    let mut steps: Vec<Step> = Vec::new();
    if !interactive {
        steps.push(Step::Dup2 { from: pipes.stdin_read, to: STDIN_FILENO });
    }
    steps.push(Step::Close(pipes.stdin_read));
    steps.push(Step::Close(pipes.stdin_write));
    if !interactive {
        steps.push(Step::Dup2 { from: pipes.stdout_write, to: STDOUT_FILENO });
    }
    steps.push(Step::Close(pipes.stdout_read));
    steps.push(Step::Close(pipes.stdout_write));
    if !interactive {
        steps.push(Step::Dup2 { from: pipes.stderr_write, to: STDERR_FILENO });
    }
    steps.push(Step::Close(pipes.stderr_read));
    steps.push(Step::Close(pipes.stderr_write));
    steps.push(Step::Exec);
    steps
}

/// The steps of the shell, in order.
pub fn parent_steps(pipes: &Pipes, interactive: bool) -> (steps: Vec<Step>)
    ensures
        steps@ == parent_plan(*pipes, interactive),
{
    let mut steps: Vec<Step> = Vec::new();
    steps.push(Step::Close(pipes.stdout_write));
    steps.push(Step::Close(pipes.stderr_write));
    steps.push(Step::Close(pipes.stdin_read));
    steps.push(Step::WriteInput(pipes.stdin_write));
    steps.push(Step::Close(pipes.stdin_write));
    steps.push(Step::Wait);
    if interactive {
        steps.push(Step::Close(pipes.stdout_read));
        steps.push(Step::Close(pipes.stderr_read));
    } else {
        steps.push(Step::ReadOutput(pipes.stdout_read));
        steps.push(Step::ReadErrors(pipes.stderr_read));
    }
    steps
}

/// The descriptors that are still to be closed after the step at `failed` went
/// wrong: those that the steps behind it would have given back.
pub fn cleanup(steps: &Vec<Step>, failed: usize) -> (fds: Vec<i32>)
    ensures
        fds@ == if failed < steps.len() {
            released(steps@.skip(failed + 1))
        } else {
            Seq::empty()
        },
{
    let mut fds: Vec<i32> = Vec::new();
    if failed >= steps.len() {
        return fds;
    }
    let ghost rest = steps@.skip(failed + 1);
    let mut index: usize = failed + 1;
    while index < steps.len()
        invariant
            failed < index <= steps.len(),
            rest == steps@.skip(failed + 1),
            fds@ == released(rest.take(index - failed - 1)),
        decreases steps.len() - index,
    {
        proof {
            let k = index - failed - 1;
            assert(rest.take(k + 1).drop_last() =~= rest.take(k));
        }
        match steps[index] {
            Step::Close(fd) => fds.push(fd),
            Step::ReadOutput(fd) => fds.push(fd),
            Step::ReadErrors(fd) => fds.push(fd),
            _ => {},
        }
        index += 1;
    }
    assert(rest.take(rest.len() as int) =~= rest);
    fds
}

/// What two runs of steps give back is what the first gives back and then what the
/// second gives back.
pub proof fn lemma_released_concat(first: Seq<Step>, second: Seq<Step>)
    ensures
        released(first + second) == released(first) + released(second),
    decreases second.len(),
{
    if second.len() == 0 {
        assert(released(first) + released(second) =~= released(first));
    } else {
        assert((first + second).drop_last() =~= first + second.drop_last());
        lemma_released_concat(first, second.drop_last());
    }
}

/// What steps and one more give back.
pub proof fn lemma_released_push(steps: Seq<Step>, step: Step)
    ensures
        released(steps.push(step)) == match step.released() {
            Some(fd) => released(steps).push(fd),
            None => released(steps),
        },
{
    assert(steps.push(step).drop_last() =~= steps);
}

/// The child gives every descriptor of the pipes back, each once, before the
/// command takes its place; and the shell gives every descriptor back, each once.
pub proof fn lemma_plans_release_every_descriptor(pipes: Pipes, interactive: bool)
    ensures
        released(child_plan(pipes, interactive)) == seq![
            pipes.stdin_read,
            pipes.stdin_write,
            pipes.stdout_read,
            pipes.stdout_write,
            pipes.stderr_read,
            pipes.stderr_write,
        ],
        child_plan(pipes, interactive).last() == Step::Exec,
        released(parent_plan(pipes, interactive)) == seq![
            pipes.stdout_write,
            pipes.stderr_write,
            pipes.stdin_read,
            pipes.stdin_write,
            pipes.stdout_read,
            pipes.stderr_read,
        ],
{
    lemma_child_releases(pipes, interactive);
    lemma_parent_releases(pipes, interactive);
}

proof fn lemma_child_releases(pipes: Pipes, interactive: bool)
    ensures
        released(child_plan(pipes, interactive)) == seq![
            pipes.stdin_read,
            pipes.stdin_write,
            pipes.stdout_read,
            pipes.stdout_write,
            pipes.stderr_read,
            pipes.stderr_write,
        ],
        child_plan(pipes, interactive).last() == Step::Exec,
{
    let s0 = redirection(interactive, pipes.stdin_read, STDIN_FILENO);
    if !interactive {
        lemma_released_push(Seq::empty(), Step::Dup2 { from: pipes.stdin_read, to: STDIN_FILENO });
    }
    let s1 = s0.push(Step::Close(pipes.stdin_read));
    lemma_released_push(s0, Step::Close(pipes.stdin_read));
    let s2 = s1.push(Step::Close(pipes.stdin_write));
    lemma_released_push(s1, Step::Close(pipes.stdin_write));
    let s3 = s2 + redirection(interactive, pipes.stdout_write, STDOUT_FILENO);
    if interactive {
        assert(s3 =~= s2);
    } else {
        lemma_released_push(s2, Step::Dup2 { from: pipes.stdout_write, to: STDOUT_FILENO });
        assert(s3 =~= s2.push(Step::Dup2 { from: pipes.stdout_write, to: STDOUT_FILENO }));
    }
    let s4 = s3.push(Step::Close(pipes.stdout_read));
    lemma_released_push(s3, Step::Close(pipes.stdout_read));
    let s5 = s4.push(Step::Close(pipes.stdout_write));
    lemma_released_push(s4, Step::Close(pipes.stdout_write));
    let s6 = s5 + redirection(interactive, pipes.stderr_write, STDERR_FILENO);
    if interactive {
        assert(s6 =~= s5);
    } else {
        lemma_released_push(s5, Step::Dup2 { from: pipes.stderr_write, to: STDERR_FILENO });
        assert(s6 =~= s5.push(Step::Dup2 { from: pipes.stderr_write, to: STDERR_FILENO }));
    }
    let s7 = s6.push(Step::Close(pipes.stderr_read));
    lemma_released_push(s6, Step::Close(pipes.stderr_read));
    let s8 = s7.push(Step::Close(pipes.stderr_write));
    lemma_released_push(s7, Step::Close(pipes.stderr_write));
    let s9 = s8.push(Step::Exec);
    lemma_released_push(s8, Step::Exec);
    assert(child_plan(pipes, interactive) =~= s9);
}

proof fn lemma_parent_releases(pipes: Pipes, interactive: bool)
    ensures
        released(parent_plan(pipes, interactive)) == seq![
            pipes.stdout_write,
            pipes.stderr_write,
            pipes.stdin_read,
            pipes.stdin_write,
            pipes.stdout_read,
            pipes.stderr_read,
        ],
{
    let s0 = Seq::<Step>::empty();
    let s1 = s0.push(Step::Close(pipes.stdout_write));
    lemma_released_push(s0, Step::Close(pipes.stdout_write));
    let s2 = s1.push(Step::Close(pipes.stderr_write));
    lemma_released_push(s1, Step::Close(pipes.stderr_write));
    let s3 = s2.push(Step::Close(pipes.stdin_read));
    lemma_released_push(s2, Step::Close(pipes.stdin_read));
    let s4 = s3.push(Step::WriteInput(pipes.stdin_write));
    lemma_released_push(s3, Step::WriteInput(pipes.stdin_write));
    let s5 = s4.push(Step::Close(pipes.stdin_write));
    lemma_released_push(s4, Step::Close(pipes.stdin_write));
    let s6 = s5.push(Step::Wait);
    lemma_released_push(s5, Step::Wait);
    let last_but_one = if interactive {
        Step::Close(pipes.stdout_read)
    } else {
        Step::ReadOutput(pipes.stdout_read)
    };
    let last = if interactive {
        Step::Close(pipes.stderr_read)
    } else {
        Step::ReadErrors(pipes.stderr_read)
    };
    let s7 = s6.push(last_but_one);
    lemma_released_push(s6, last_but_one);
    let s8 = s7.push(last);
    lemma_released_push(s7, last);
    assert(parent_plan(pipes, interactive) =~= s8);
}

/// Whatever step goes wrong, the steps up to it and the cleanup together give back
/// what the whole plan gives back.
pub proof fn lemma_cleanup_releases_the_rest(steps: Seq<Step>, failed: int)
    requires
        0 <= failed < steps.len(),
    ensures
        released(steps.take(failed + 1)) + released(steps.skip(failed + 1)) == released(steps),
{
    assert(steps.take(failed + 1) + steps.skip(failed + 1) =~= steps);
    lemma_released_concat(steps.take(failed + 1), steps.skip(failed + 1));
}

/// An exit code is a byte, and a signal is less than 128.
pub proof fn lemma_status_ranges(status: i32)
    ensures
        0 <= exit_code(status) <= 255,
        0 <= signal(status) <= 127,
        signaled(status) <==> 1 <= signal(status) <= 126,
        exited(status) ==> !signaled(status),
{
    assert(0 <= (status >> 8) & 0xff <= 255) by (bit_vector);
    assert(0 <= status & 0x7f <= 127) by (bit_vector);
    let low = status & 0x7f;
    assert((((low as int) + 1) as i8 >= 2) <==> (1 <= low <= 126)) by (bit_vector)
        requires
            0 <= low <= 127,
    ;
}

} // verus!
