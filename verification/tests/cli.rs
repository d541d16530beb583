use pseudobash::executor::{Dispatch, Executor};
use pseudobash::global_struct::default_utils::Outcome;
use pseudobash::global_struct::environment::NoSuchFile;
use pseudobash::global_struct::GS;
use pseudobash::pipeline::Pipeline;
use pseudobash::program_output::ProgramOutput;

/// Runs the stages of a line that the shell itself can run, and collects what they
/// leave. A stage that is no builtin is looked for where `found` says a file stands.
fn run(gs: &mut GS, input: &str, found: bool) -> Vec<Result<ProgramOutput, NoSuchFile>> {
    let mut executor = Executor::default();
    let mut pipeline = Pipeline::new(input.as_bytes().to_vec());
    let mut outputs = Vec::new();
    while let Some((_, stage)) = pipeline
        .next(executor.last_output(), executor.last_status(), gs)
        .unwrap()
    {
        let probes = vec![found; gs.environment.search_candidates(stage.command()).len()];
        match stage.resolve(gs, &probes) {
            Ok(program) => match executor.program_output(gs, program) {
                Dispatch::Builtin(Outcome::Finished(output)) => outputs.push(Ok(output)),
                Dispatch::Builtin(Outcome::Exit(_)) => panic!("the line asked for the end"),
                Dispatch::External(program) => {
                    // What `echo` would write: its arguments, a space between each two.
                    let data = program.get_data();
                    let mut words: Vec<&[u8]> = data.split(|byte| *byte == 0).collect();
                    words.pop();
                    let mut stdout = words[1..].join(&b' ');
                    stdout.push(b'\n');
                    outputs.push(Ok(ProgramOutput::new(0, stdout, vec![])));
                }
            },
            Err(error) => outputs.push(Err(error)),
        }
    }
    outputs
}

fn value_of(gs: &GS, name: &str) -> Vec<u8> {
    let mut var = name.as_bytes().to_vec();
    gs.environment.get_var(&mut var);
    var
}

fn session() -> GS {
    let mut gs = GS::default();
    gs.environment
        .set_var("PWD".as_bytes().to_vec(), "/home/user".as_bytes().to_vec());
    gs
}

#[test]
fn check_var_setter() {
    let mut gs = session();

    let output = run(&mut gs, "  qwe=1278\n", false);
    assert_eq!(value_of(&gs, "qwe"), "1278".as_bytes().to_vec());
    assert_eq!(output, vec![Ok(ProgramOutput::new(0, vec![], vec![]))]);

    let output = run(&mut gs, "  qwe==10\n", false);
    assert_eq!(value_of(&gs, "qwe"), "=10".as_bytes().to_vec());
    assert_eq!(output, vec![Ok(ProgramOutput::new(0, vec![], vec![]))]);

    let output = run(&mut gs, "  qwe=qwe\n", false);
    assert_eq!(value_of(&gs, "qwe"), "qwe".as_bytes().to_vec());
    assert_eq!(output, vec![Ok(ProgramOutput::new(0, vec![], vec![]))]);

    let output = run(&mut gs, "  qwe=\n", false);
    assert_eq!(value_of(&gs, "qwe"), "".as_bytes().to_vec());
    assert_eq!(output, vec![Ok(ProgramOutput::new(0, vec![], vec![]))]);

    let output = run(&mut gs, "  qwe='10$10'\n", false);
    assert_eq!(value_of(&gs, "qwe"), "10$10".as_bytes().to_vec());
    assert_eq!(output, vec![Ok(ProgramOutput::new(0, vec![], vec![]))]);

    let output = run(&mut gs, "x=$PWD\n", false);
    let x = value_of(&gs, "x");
    let var = value_of(&gs, "PWD");
    assert_eq!(var, x);
    assert_eq!(output, vec![Ok(ProgramOutput::new(0, vec![], vec![]))]);

    let output = run(&mut gs, "x=$PWD:9\n", false);
    let x = value_of(&gs, "x");
    let mut var = value_of(&gs, "PWD");
    var.push(b':');
    var.push(b'9');
    assert_eq!(var, x);
    assert_eq!(output, vec![Ok(ProgramOutput::new(0, vec![], vec![]))]);
}

#[test]
fn check_var_getter() {
    let mut gs = session();

    let output = run(&mut gs, " echo $PWD\n", true);
    let mut var = value_of(&gs, "PWD");
    var.push(b'\n');
    assert_eq!(output, vec![Ok(ProgramOutput::new(0, var, vec![]))]);

    let output = run(&mut gs, " echo $PWD $PWD\n", true);
    let mut var = value_of(&gs, "PWD");
    var.push(b' ');
    var.append(&mut var.clone());
    var.last_mut().map(|byte| *byte = b'\n');
    assert_eq!(output, vec![Ok(ProgramOutput::new(0, var, vec![]))]);

    let output = run(&mut gs, " echo $PWD$PWD\n", true);
    let mut var = value_of(&gs, "PWD");
    var.append(&mut var.clone());
    var.push(b'\n');
    assert_eq!(output, vec![Ok(ProgramOutput::new(0, var, vec![]))]);

    let output = run(&mut gs, " echo $PWDPWD\n", true);
    assert_eq!(
        output,
        vec![Ok(ProgramOutput::new(0, "\n".as_bytes().to_vec(), vec![]))]
    );
}

#[test]
fn check_error() {
    let mut gs = session();

    let output = run(&mut gs, "  '1'\n", false);
    assert_eq!(output.len(), 1);
    assert!(output.iter().all(|res| res.is_err()));
}
