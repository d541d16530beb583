use pseudobash::parser::arg_builder::arg::Arg;
use pseudobash::parser::program_builder::program::Program;
use pseudobash::parser::token::Token;
use pseudobash::parser::Parser;

#[test]
fn parser_check_program_builder_apply() {
    let mut parser = Parser::default();

    let mut result: Vec<Program> = "echo 100"
        .as_bytes()
        .into_iter()
        .filter_map(|byte| parser.apply(*byte).unwrap())
        .collect();
    parser.finish().unwrap().map(|arg| result.push(arg));

    assert_eq!(
        result,
        vec![Program::new(vec![
            Arg::new_default(vec![Token::new_default("echo")]),
            Arg::new_default(vec![Token::new_default("100")])
        ]),]
    );
    assert_eq!(parser, Parser::default());

    let _result: Vec<Program> = "echo '100"
        .as_bytes()
        .into_iter()
        .filter_map(|byte| parser.apply(*byte).unwrap())
        .collect();
    assert!(parser.finish().is_err());
    assert_eq!(parser, Parser::default());
}
