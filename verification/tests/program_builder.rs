use pseudobash::parser::arg_builder::arg::Arg;
use pseudobash::parser::context::Context;
use pseudobash::parser::program_builder::program::Program;
use pseudobash::parser::program_builder::ProgramBuilder;
use pseudobash::parser::token::Token;

fn programs_of(
    program_builder: &mut ProgramBuilder,
    context: &mut Context,
    input: &str,
) -> Vec<Program> {
    let mut result: Vec<Program> = input
        .as_bytes()
        .into_iter()
        .filter_map(|byte| program_builder.apply(*byte, context).unwrap())
        .collect();
    program_builder
        .finish(context)
        .unwrap()
        .map(|arg| result.push(arg));
    result
}

fn word(text: &str) -> Arg {
    Arg::new_default(vec![Token::new_default(text)])
}

#[test]
fn program_builder_check_program_builder_apply() {
    let mut program_builder = ProgramBuilder::default();
    let mut context = Context::default();

    let result = programs_of(&mut program_builder, &mut context, "echo 100");

    assert_eq!(result, vec![Program::new(vec![word("echo"), word("100")]),]);
    assert_eq!(program_builder, ProgramBuilder::default());
    assert_eq!(context, Context::default());

    let result = programs_of(&mut program_builder, &mut context, "x=100 echo 100");

    assert_eq!(
        result,
        vec![Program::new(vec![
            Arg::new_var_setter(vec![Token::new_default("x=100")]),
            word("echo"),
            word("100")
        ]),]
    );
    assert_eq!(program_builder, ProgramBuilder::default());
    assert_eq!(context, Context::default());

    let result = programs_of(&mut program_builder, &mut context, "echo 100 200");

    assert_eq!(
        result,
        vec![Program::new(vec![word("echo"), word("100"), word("200")]),]
    );
    assert_eq!(program_builder, ProgramBuilder::default());
    assert_eq!(context, Context::default());

    let result = programs_of(&mut program_builder, &mut context, "echo 100 200;");

    assert_eq!(
        result,
        vec![Program::new(vec![word("echo"), word("100"), word("200")]),]
    );
    assert_eq!(program_builder, ProgramBuilder::default());
    assert_eq!(context, Context::default());

    let result = programs_of(&mut program_builder, &mut context, "echo 100 200; echo 100");

    assert_eq!(
        result,
        vec![
            Program::new(vec![word("echo"), word("100"), word("200")]),
            Program::new(vec![word("echo"), word("100"),])
        ]
    );
    assert_eq!(program_builder, ProgramBuilder::default());
    assert_eq!(context, Context::default());

    let result = programs_of(&mut program_builder, &mut context, "echo '100 200; echo 100'");

    assert_eq!(
        result,
        vec![Program::new(vec![word("echo"), word("100 200; echo 100"),]),]
    );
    assert_eq!(program_builder, ProgramBuilder::default());
    assert_eq!(context, Context::default());

    let result = programs_of(
        &mut program_builder,
        &mut context,
        "echo 100 200; echo 100; echo 300",
    );

    assert_eq!(
        result,
        vec![
            Program::new(vec![word("echo"), word("100"), word("200"),]),
            Program::new(vec![word("echo"), word("100"),]),
            Program::new(vec![word("echo"), word("300"),])
        ]
    );
    assert_eq!(program_builder, ProgramBuilder::default());
    assert_eq!(context, Context::default());

    let result = programs_of(&mut program_builder, &mut context, "echo $x");

    assert_eq!(
        result,
        vec![Program::new(vec![
            word("echo"),
            Arg::new_default(vec![Token::new_var_getter("x")]),
        ]),]
    );
    assert_eq!(program_builder, ProgramBuilder::default());
    assert_eq!(context, Context::default());

    let result = programs_of(&mut program_builder, &mut context, "x=100 x=100");

    assert_eq!(
        result,
        vec![Program::new(vec![
            Arg::new_var_setter(vec![Token::new_default("x=100")]),
            Arg::new_var_setter(vec![Token::new_default("x=100")]),
        ]),]
    );
    assert_eq!(program_builder, ProgramBuilder::default());
    assert_eq!(context, Context::default());
}
