use pseudobash::global_struct::environment::Environment;
use pseudobash::parser::arg_builder::ArgBuilder;
use pseudobash::parser::context::Context;
use pseudobash::parser::program_builder::ProgramBuilder;
use pseudobash::parser::token::Token;
use pseudobash::parser::{ParseError, Parser};

fn bytes(text: &str) -> Vec<u8> {
    text.as_bytes().to_vec()
}

fn parse(text: &str, environment: &mut Environment) -> Result<Vec<Vec<u8>>, ParseError> {
    Parser::default().parse(text.as_bytes(), environment)
}

#[test]
fn plain_input_is_parsed_to_its_words() {
    let mut environment = Environment::new();
    for input in [
        "echo 100",
        "  echo   100 200  ",
        "a\nb\0c d",
        "/usr/bin/ls -l ./a_b.c +x 1:2",
        "",
        "   ",
        "\n",
    ] {
        let expected: Vec<Vec<u8>> = input
            .split(|symbol| symbol == ' ' || symbol == '\n' || symbol == '\0')
            .filter(|word| !word.is_empty())
            .map(|word| {
                let mut word = bytes(word);
                word.push(0);
                word
            })
            .collect();
        assert_eq!(parse(input, &mut environment), Ok(expected));
    }
    assert_eq!(environment.get_env(), Vec::<Vec<u8>>::new());
}

#[test]
fn assignment_sets_its_variable_and_gives_no_word() {
    let mut environment = Environment::new();
    for (input, value) in [
        ("qwe=1278", "1278"),
        ("qwe==10", "=10"),
        ("qwe=", ""),
        ("qwe='10$10'", "10$10"),
    ] {
        assert_eq!(parse(input, &mut environment), Ok(vec![]));
        let mut name = bytes("qwe");
        environment.get_var(&mut name);
        assert_eq!(name, bytes(value));
    }
}

#[test]
fn variable_gives_way_to_its_value() {
    let mut environment = Environment::new();
    environment.set_var(bytes("PWD"), bytes("/home/user"));
    assert_eq!(
        parse("echo $PWD", &mut environment),
        Ok(vec![bytes("echo\0"), bytes("/home/user\0")])
    );
    assert_eq!(
        parse("echo $PWD$PWD", &mut environment),
        Ok(vec![bytes("echo\0"), bytes("/home/user/home/user\0")])
    );
    assert_eq!(
        parse("echo $PWDPWD", &mut environment),
        Ok(vec![bytes("echo\0")])
    );
    assert_eq!(
        parse("echo \"$PWD\" '$PWD' $PWD:x", &mut environment),
        Ok(vec![
            bytes("echo\0"),
            bytes("/home/user\0"),
            bytes("$PWD\0"),
            bytes("/home/user:x\0")
        ])
    );
}

#[test]
fn blank_inside_quotes_is_data() {
    let mut environment = Environment::new();
    assert_eq!(
        parse("echo ' a  b ' \"\nc\"", &mut environment),
        Ok(vec![bytes("echo\0"), bytes(" a  b \0"), bytes("\nc\0")])
    );
}

#[test]
fn equals_behind_a_variable_name_marks_no_assignment() {
    let mut environment = Environment::new();
    environment.set_var(bytes("x"), bytes("y"));
    // The `=` belongs to the name, and a variable of that name is not set.
    assert_eq!(parse("$x=1", &mut environment), Ok(vec![]));
    environment.set_var(bytes("x=1"), bytes("v"));
    assert_eq!(parse("$x=1", &mut environment), Ok(vec![bytes("v\0")]));
    assert_eq!(parse("'a=1'", &mut environment), Ok(vec![bytes("a=1\0")]));
    assert_eq!(environment.get_env(), vec![bytes("x=y"), bytes("x=1=v")]);
}

#[test]
fn statements_of_one_input_are_carried_out_in_order() {
    let mut environment = Environment::new();
    assert_eq!(
        parse("x=1 echo $x; x=2; echo $x", &mut environment),
        Ok(vec![bytes("echo\0"), bytes("1\0"), bytes("echo\0"), bytes("2\0")])
    );
}

#[test]
fn syntax_error_carries_nothing_out() {
    let mut environment = Environment::new();
    assert_eq!(
        parse("x=1; echo |", &mut environment),
        Err(ParseError::UnexpectedSymbol(b'|'))
    );
    assert_eq!(
        parse("x=1 'open", &mut environment),
        Err(ParseError::UnterminatedQuote)
    );
    assert_eq!(
        parse("a * b ?", &mut environment),
        Err(ParseError::UnexpectedSymbol(b'*'))
    );
    assert_eq!(environment.get_env(), Vec::<Vec<u8>>::new());
}

#[test]
fn finish_again_returns_nothing_and_leaves_everything_empty() {
    let mut context = Context::default();

    let mut token = Token::default();
    for byte in "word".as_bytes() {
        token.apply(*byte, &mut context).unwrap();
    }
    assert_eq!(token.finish(&mut context), Some(Token::new_default("word")));
    assert_eq!(token.finish(&mut context), None);
    assert_eq!(token, Token::default());
    assert_eq!(context, Context::default());

    let mut arg_builder = ArgBuilder::default();
    for byte in "x=1".as_bytes() {
        arg_builder.apply(*byte, &mut context).unwrap();
    }
    assert!(arg_builder.finish(&mut context).unwrap().is_some());
    assert_eq!(arg_builder.finish(&mut context), Ok(None));
    assert_eq!(arg_builder, ArgBuilder::default());
    assert_eq!(context, Context::default());

    let mut program_builder = ProgramBuilder::default();
    for byte in "echo 'a b' $c".as_bytes() {
        program_builder.apply(*byte, &mut context).unwrap();
    }
    assert!(program_builder.finish(&mut context).unwrap().is_some());
    assert_eq!(program_builder.finish(&mut context), Ok(None));
    assert_eq!(program_builder, ProgramBuilder::default());
    assert_eq!(context, Context::default());

    let mut parser = Parser::default();
    for byte in "echo 1".as_bytes() {
        parser.apply(*byte).unwrap();
    }
    assert!(parser.finish().unwrap().is_some());
    assert_eq!(parser.finish(), Ok(None));
    assert_eq!(parser, Parser::default());
}

#[test]
fn failed_statement_leaves_the_next_one_alone() {
    let mut environment = Environment::new();
    let mut parser = Parser::default();
    assert_eq!(
        parser.parse("'1".as_bytes(), &mut environment),
        Err(ParseError::UnterminatedQuote)
    );
    assert_eq!(parser, Parser::default());
    assert_eq!(
        parser.parse("echo 1".as_bytes(), &mut environment),
        Ok(vec![bytes("echo\0"), bytes("1\0")])
    );

    assert_eq!(parser.apply(b'a'), Ok(None));
    assert_eq!(parser.apply(b'='), Ok(None));
    assert_eq!(parser.apply(b'%'), Err(ParseError::UnexpectedSymbol(b'%')));
    assert_eq!(parser, Parser::default());
    assert_eq!(
        parser.parse("b".as_bytes(), &mut environment),
        Ok(vec![bytes("b\0")])
    );
}

#[test]
fn token_gives_its_bytes_or_the_value_that_they_name() {
    let mut environment = Environment::new();
    environment.set_var(bytes("x"), bytes("value"));

    let mut token = Token::new_var_getter("x");
    token.to_default(&environment);
    assert_eq!(token, Token::new_default("value"));
    token.to_default(&environment);
    assert_eq!(token, Token::new_default("value"));
    assert_eq!(token.downgrade(), bytes("value"));

    let mut token = Token::new_var_getter("unset");
    token.to_default(&environment);
    assert_eq!(token, Token::default());
}

#[test]
fn dangling_dollar_and_colon_follow_the_token_rules() {
    let mut environment = Environment::new();
    environment.set_var(bytes("b"), bytes("B"));
    // A colon ends a variable name and begins a word of its own.
    assert_eq!(parse("$b:$b", &mut environment), Ok(vec![bytes("B:B\0")]));
    assert_eq!(parse("$:", &mut environment), Ok(vec![bytes(":\0")]));
    // A blank completes the argument that holds a token; the name that was begun
    // is dropped with it.
    assert_eq!(
        parse("a$ b", &mut environment),
        Ok(vec![bytes("a\0"), bytes("b\0")])
    );
}
