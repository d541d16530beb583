use pseudobash::parser::arg_builder::arg::Arg;
use pseudobash::parser::arg_builder::ArgBuilder;
use pseudobash::parser::context::Context;
use pseudobash::parser::token::Token;

fn args_of(arg_builder: &mut ArgBuilder, context: &mut Context, input: &str) -> Vec<Arg> {
    let mut result: Vec<Arg> = input
        .as_bytes()
        .into_iter()
        .filter_map(|byte| arg_builder.apply(*byte, context).unwrap())
        .collect();
    arg_builder
        .finish(context)
        .unwrap()
        .map(|arg| result.push(arg));
    result
}

#[test]
fn check_arg_builder_apply() {
    let mut arg_builder = ArgBuilder::default();
    let mut context = Context::default();

    let result = args_of(&mut arg_builder, &mut context, "echo 100");

    assert_eq!(
        result,
        vec![
            Arg::new_default(vec![Token::new_default("echo")]),
            Arg::new_default(vec![Token::new_default("100")])
        ]
    );
    assert_eq!(arg_builder, ArgBuilder::default());
    assert_eq!(context, Context::default());

    let result = args_of(&mut arg_builder, &mut context, "x=100 echo 100");

    assert_eq!(
        result,
        vec![
            Arg::new_var_setter(vec![Token::new_default("x=100")]),
            Arg::new_default(vec![Token::new_default("echo")]),
            Arg::new_default(vec![Token::new_default("100")])
        ]
    );
    assert_eq!(arg_builder, ArgBuilder::default());
    assert_eq!(context, Context::default());

    let result = args_of(&mut arg_builder, &mut context, "\"x=100 $x\"");

    assert_eq!(
        result,
        vec![Arg::new_default(vec![
            Token::new_default("x=100 "),
            Token::new_var_getter("x")
        ]),]
    );
    assert_eq!(arg_builder, ArgBuilder::default());
    assert_eq!(context, Context::default());

    let result = args_of(&mut arg_builder, &mut context, "'x=100\"' $x");

    assert_eq!(
        result,
        vec![
            Arg::new_default(vec![Token::new_default("x=100\"")]),
            Arg::new_default(vec![Token::new_var_getter("x")])
        ]
    );
    assert_eq!(arg_builder, ArgBuilder::default());
    assert_eq!(context, Context::default());

    let _result: Vec<Arg> = "echo 'x=100\" $x"
        .as_bytes()
        .into_iter()
        .filter_map(|byte| arg_builder.apply(*byte, &mut context).unwrap())
        .collect();
    assert!(arg_builder.finish(&mut context).is_err());
}
