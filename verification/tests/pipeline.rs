use pseudobash::global_struct::GS;
use pseudobash::parser::ParseError;
use pseudobash::bytes::flatten;
use pseudobash::pipeline::{Delimeter, Pipeline, Stage};

fn bytes(text: &str) -> Vec<u8> {
    text.as_bytes().to_vec()
}

fn words(texts: &[&str]) -> Vec<Vec<u8>> {
    texts.iter().map(|text| bytes(text)).collect()
}

fn value_of(gs: &GS, name: &str) -> Vec<u8> {
    let mut var = bytes(name);
    gs.environment.get_var(&mut var);
    var
}

/// The stages of a line when every stage succeeds and writes `output`.
fn stages(gs: &mut GS, input: &str, output: &str) -> Vec<(Delimeter, Vec<Vec<u8>>, Vec<u8>)> {
    let mut pipeline = Pipeline::new(bytes(input));
    let mut result = Vec::new();
    while let Some((delimeter, stage)) = pipeline.next(&bytes(output), 0, gs).unwrap() {
        result.push((delimeter, stage.tokens().clone(), stage.stdin().clone()));
    }
    result
}

#[test]
fn line_is_cut_into_statements_at_semicolons_and_newlines() {
    let mut gs = GS::default();
    assert_eq!(
        stages(&mut gs, "echo 1; echo 2\necho 3\n", ""),
        vec![
            (Delimeter::Start, words(&["echo\0", "1\0"]), vec![]),
            (Delimeter::Start, words(&["echo\0", "2\0"]), vec![]),
            (Delimeter::Start, words(&["echo\0", "3\0"]), vec![]),
        ]
    );
}

#[test]
fn what_stands_after_the_last_separator_is_no_statement() {
    let mut gs = GS::default();
    assert_eq!(stages(&mut gs, "echo 1", ""), vec![]);
    assert_eq!(stages(&mut gs, "", ""), vec![]);
    assert_eq!(
        stages(&mut gs, "echo 1\necho 2", ""),
        vec![(Delimeter::Start, words(&["echo\0", "1\0"]), vec![])]
    );
}

#[test]
fn statement_is_cut_into_stages_at_pipes() {
    let mut gs = GS::default();
    assert_eq!(
        stages(&mut gs, "cat a | wc | cat\n", "out"),
        vec![
            (Delimeter::Start, words(&["cat\0", "a\0"]), vec![]),
            (Delimeter::Pipe, words(&["wc\0"]), bytes("out")),
            (Delimeter::Pipe, words(&["cat\0"]), bytes("out")),
        ]
    );
}

#[test]
fn stage_without_words_is_the_builtin_that_does_nothing() {
    let mut gs = GS::default();
    assert_eq!(
        stages(&mut gs, "\n", ""),
        vec![(Delimeter::Start, words(&["nop\0"]), vec![])]
    );
    assert_eq!(
        stages(&mut gs, "x=1\n", ""),
        vec![(Delimeter::Start, words(&["nop\0"]), vec![])]
    );
    assert_eq!(value_of(&gs, "x"), bytes("1"));
    assert_eq!(
        stages(&mut gs, "a |\n", ""),
        vec![
            (Delimeter::Start, words(&["a\0"]), vec![]),
            (Delimeter::Pipe, words(&["nop\0"]), vec![]),
        ]
    );
    assert_eq!(
        stages(&mut gs, ";;\n", ""),
        vec![
            (Delimeter::Start, words(&["nop\0"]), vec![]),
            (Delimeter::Start, words(&["nop\0"]), vec![]),
            (Delimeter::Start, words(&["nop\0"]), vec![]),
        ]
    );
}

#[test]
fn later_stage_sees_the_variables_that_an_earlier_stage_set() {
    let mut gs = GS::default();
    assert_eq!(
        stages(&mut gs, "x=1 echo $x; x=2\necho $x$x | echo \"$x\"\n", ""),
        vec![
            (Delimeter::Start, words(&["echo\0", "1\0"]), vec![]),
            (Delimeter::Start, words(&["nop\0"]), vec![]),
            (Delimeter::Start, words(&["echo\0", "22\0"]), vec![]),
            (Delimeter::Pipe, words(&["echo\0", "2\0"]), vec![]),
        ]
    );
}

#[test]
fn xargs_mode_turns_the_output_into_further_words() {
    let mut gs = GS::default();
    gs.settings.set_xargs_mode(true);
    assert_eq!(
        stages(&mut gs, "ls | rm -f\n", "a b\nc\n"),
        vec![
            (Delimeter::Start, words(&["ls\0"]), vec![]),
            (
                Delimeter::Pipe,
                words(&["rm\0", "-f\0", "a\0", "b\0", "c\0"]),
                vec![]
            ),
        ]
    );
    gs.settings.set_xargs_mode(false);
    assert_eq!(
        stages(&mut gs, "ls | rm -f\n", "a b\nc\n"),
        vec![
            (Delimeter::Start, words(&["ls\0"]), vec![]),
            (Delimeter::Pipe, words(&["rm\0", "-f\0"]), bytes("a b\nc\n")),
        ]
    );
}

#[test]
fn xargs_mode_refuses_output_outside_the_alphabet() {
    let mut gs = GS::default();
    gs.settings.set_xargs_mode(true);
    let mut pipeline = Pipeline::new(bytes("ls | rm\n"));
    assert!(pipeline.next(&vec![], 0, &mut gs).unwrap().is_some());
    assert_eq!(
        pipeline.next(&bytes("a*b"), 0, &mut gs),
        Err(ParseError::UnexpectedSymbol(b'*'))
    );
    assert_eq!(pipeline.next(&vec![], -1, &mut gs), Ok(None));
}

#[test]
fn pipe_inside_quotes_ends_no_stage() {
    let mut gs = GS::default();
    let mut pipeline = Pipeline::new(bytes("echo 'a | b' | wc\n"));
    // The stage runs up to the pipe outside the quotes; its own pipe is a byte that
    // the parser does not take.
    assert_eq!(
        pipeline.next(&vec![], 0, &mut gs),
        Err(ParseError::UnexpectedSymbol(b'|'))
    );
    // After the failure the rest of the statement is skipped.
    assert_eq!(pipeline.next(&vec![], -1, &mut gs), Ok(None));
}

#[test]
fn failing_stage_cuts_its_statement_short() {
    let mut gs = GS::default();
    let mut pipeline = Pipeline::new(bytes("false | echo hi; echo next\n"));
    let (delimeter, stage) = pipeline.next(&vec![], 0, &mut gs).unwrap().unwrap();
    assert_eq!(delimeter, Delimeter::Start);
    assert_eq!(stage.tokens(), &words(&["false\0"]));
    // The stage failed: the piped stage is not handed out.
    let (delimeter, stage) = pipeline.next(&vec![], 1, &mut gs).unwrap().unwrap();
    assert_eq!(delimeter, Delimeter::Start);
    assert_eq!(stage.tokens(), &words(&["echo\0", "next\0"]));
    assert_eq!(pipeline.next(&vec![], 0, &mut gs), Ok(None));
    assert_eq!(pipeline.next(&vec![], 0, &mut gs), Ok(None));
}

#[test]
fn syntax_error_leaves_the_next_statement_alone() {
    let mut gs = GS::default();
    let mut pipeline = Pipeline::new(bytes("'1\necho ok\n"));
    assert_eq!(
        pipeline.next(&vec![], 0, &mut gs),
        Err(ParseError::UnterminatedQuote)
    );
    let (delimeter, stage) = pipeline.next(&vec![], -1, &mut gs).unwrap().unwrap();
    assert_eq!(delimeter, Delimeter::Start);
    assert_eq!(stage.tokens(), &words(&["echo\0", "ok\0"]));
}

#[test]
fn separator_inside_quotes_still_cuts_the_line() {
    let mut gs = GS::default();
    let mut pipeline = Pipeline::new(bytes("echo 'a;b'\n"));
    assert_eq!(
        pipeline.next(&vec![], 0, &mut gs),
        Err(ParseError::UnterminatedQuote)
    );
    assert_eq!(
        pipeline.next(&vec![], 0, &mut gs),
        Err(ParseError::UnterminatedQuote)
    );
    assert_eq!(pipeline.next(&vec![], 0, &mut gs), Ok(None));
}

#[test]
fn stage_is_resolved_to_a_program() {
    let mut gs = GS::default();
    gs.environment
        .set_var(bytes("PSEUDOBASH_PATH"), bytes("/bin:/usr/bin"));

    let stage = Stage::new(bytes("input"), words(&["wc\0", "-l\0"]));
    assert_eq!(stage.command(), &bytes("wc\0"));
    let mut program = stage.resolve(&gs, &vec![false, false, true]).unwrap();
    assert!(!program.is_default());
    assert_eq!(program.flush_stdin_data(), bytes("input"));
    assert_eq!(program.get_data(), bytes("/usr/bin/wc\0-l\0"));

    let stage = Stage::new(vec![], words(&["mode\0", "+i\0"]));
    let program = stage.resolve(&gs, &vec![]).unwrap();
    assert!(program.is_default());
    assert_eq!(program.get_data(), bytes("@mode\0+i\0"));

    let stage = Stage::new(vec![], vec![]);
    let program = stage.resolve(&gs, &vec![]).unwrap();
    assert_eq!(program.get_data(), bytes("@nop\0"));

    let stage = Stage::new(vec![], words(&["wc\0"]));
    assert_eq!(
        stage.resolve(&gs, &vec![false, false, false]).unwrap_err().name,
        bytes("wc\0")
    );
}

#[test]
fn words_are_put_in_one_buffer() {
    assert_eq!(flatten(&words(&["a\0", "", "bc\0"])), bytes("a\0bc\0"));
    assert_eq!(flatten(&vec![]), Vec::<u8>::new());
}
