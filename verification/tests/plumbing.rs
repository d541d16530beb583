use pseudobash::global_struct::environment::{Environment, NoSuchFile};
use pseudobash::parser::ParseError;
use pseudobash::pb_core::{child_steps, cleanup, parent_steps, Pipes, Step};

fn bytes(text: &str) -> Vec<u8> {
    text.as_bytes().to_vec()
}

fn pipes() -> Pipes {
    Pipes {
        stdin_read: 3,
        stdin_write: 4,
        stdout_read: 5,
        stdout_write: 6,
        stderr_read: 7,
        stderr_write: 8,
    }
}

#[test]
fn child_moves_its_descriptors_and_closes_every_pipe() {
    assert_eq!(
        child_steps(&pipes(), false),
        vec![
            Step::Dup2 { from: 3, to: 0 },
            Step::Close(3),
            Step::Close(4),
            Step::Dup2 { from: 6, to: 1 },
            Step::Close(5),
            Step::Close(6),
            Step::Dup2 { from: 8, to: 2 },
            Step::Close(7),
            Step::Close(8),
            Step::Exec,
        ]
    );
}

#[test]
fn interactive_child_keeps_the_terminal() {
    assert_eq!(
        child_steps(&pipes(), true),
        vec![
            Step::Close(3),
            Step::Close(4),
            Step::Close(5),
            Step::Close(6),
            Step::Close(7),
            Step::Close(8),
            Step::Exec,
        ]
    );
}

#[test]
fn shell_feeds_the_child_waits_and_reads() {
    assert_eq!(
        parent_steps(&pipes(), false),
        vec![
            Step::Close(6),
            Step::Close(8),
            Step::Close(3),
            Step::WriteInput(4),
            Step::Close(4),
            Step::Wait,
            Step::ReadOutput(5),
            Step::ReadErrors(7),
        ]
    );
    assert_eq!(
        parent_steps(&pipes(), true),
        vec![
            Step::Close(6),
            Step::Close(8),
            Step::Close(3),
            Step::WriteInput(4),
            Step::Close(4),
            Step::Wait,
            Step::Close(5),
            Step::Close(7),
        ]
    );
}

#[test]
fn cleanup_closes_what_the_steps_behind_a_failure_would_have() {
    let steps = parent_steps(&pipes(), false);
    assert_eq!(cleanup(&steps, 0), vec![8, 3, 4, 5, 7]);
    assert_eq!(cleanup(&steps, 3), vec![4, 5, 7]);
    assert_eq!(cleanup(&steps, 5), vec![5, 7]);
    assert_eq!(cleanup(&steps, 6), vec![7]);
    assert_eq!(cleanup(&steps, 7), Vec::<i32>::new());
    assert_eq!(cleanup(&steps, 8), Vec::<i32>::new());
    assert_eq!(cleanup(&steps, usize::MAX), Vec::<i32>::new());
}

#[test]
fn errors_say_what_went_wrong() {
    assert_eq!(
        ParseError::UnexpectedSymbol(b'|').message(),
        bytes("Unexpected symbol: '|'")
    );
    assert_eq!(ParseError::UnterminatedQuote.message(), bytes("Syntax error"));
    assert_eq!(
        NoSuchFile { name: bytes("ls\0") }.message(),
        bytes("No such file or directory: \"ls\"")
    );
    assert_eq!(
        NoSuchFile { name: vec![] }.message(),
        bytes("No such file or directory: \"\"")
    );
}

#[test]
fn lines_of_a_file_of_variables_are_assignments() {
    let mut environment = Environment::new();
    environment.set_var(bytes("B"), bytes("old"));
    environment.assign_all(vec![bytes("A=1"), bytes("B=2=3"), bytes("A=4")]);
    assert_eq!(
        environment.get_env(),
        vec![bytes("B=2=3"), bytes("A=4")]
    );
    environment.assign_all(vec![]);
    assert_eq!(
        environment.get_env(),
        vec![bytes("B=2=3"), bytes("A=4")]
    );
}
