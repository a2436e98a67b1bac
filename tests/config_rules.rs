use log_function::{arg_text, generate_args_text, generate_log, parse_config, AttrArg, MacroError, Param};

fn s(t: &str) -> String {
    t.to_string()
}

#[test]
fn no_argument_logs_the_result() {
    assert_eq!(parse_config(&vec![]), Ok(false));
}

#[test]
fn ignore_return_directive_is_recognized() {
    assert_eq!(parse_config(&vec![AttrArg::Str(s("ignore-return"))]), Ok(true));
}

#[test]
fn unknown_string_literal_is_accepted_without_effect() {
    assert_eq!(parse_config(&vec![AttrArg::Str(s("ignore"))]), Ok(false));
    assert_eq!(parse_config(&vec![AttrArg::Str(s(""))]), Ok(false));
}

#[test]
fn two_arguments_are_refused_at_the_second() {
    let r = parse_config(&vec![AttrArg::Str(s("ignore-return")), AttrArg::Str(s("x"))]);
    assert_eq!(r, Err(MacroError::TooManyArguments { position: 1 }));
    let e = r.unwrap_err();
    assert_eq!(e.position(), 1);
    assert_eq!(e.message(), "Only one argument is allowed");
}

#[test]
fn non_literal_argument_is_refused() {
    let r = parse_config(&vec![AttrArg::Other]);
    assert_eq!(r, Err(MacroError::ExpectedStringLiteral { position: 0 }));
    let e = r.unwrap_err();
    assert_eq!(e.position(), 0);
    assert_eq!(e.message(), "expected string literal for logging message");
}

#[test]
fn named_parameters_are_captured_in_order_without_receiver() {
    let params = vec![Param::Receiver, Param::Ident(s("a")), Param::Ident(s("bee"))];
    assert_eq!(generate_args_text(&params), Ok(vec![s("a"), s("bee")]));
    assert_eq!(generate_args_text(&vec![]), Ok(vec![]));
}

#[test]
fn pattern_parameter_is_refused_at_its_position() {
    let params = vec![Param::Ident(s("a")), Param::Pattern, Param::Pattern];
    let r = generate_args_text(&params);
    assert_eq!(r, Err(MacroError::UnsupportedParameter { position: 1 }));
    assert_eq!(r.unwrap_err().message(), "only plain identifiers are supported as parameters");
}

#[test]
fn argument_text_joins_name_and_value() {
    assert_eq!(arg_text(&s("count"), &s("42")), "count: 42");
    assert_eq!(arg_text(&s("name"), &s("\"bob\"")), "name: \"bob\"");
}

#[test]
fn record_carries_name_arguments_and_result() {
    let args = vec![s("a: 1"), s("b: 2")];
    let r = generate_log(&s("add"), &args, &s("3"), false);
    assert_eq!(r.fn_name, "add");
    assert_eq!(r.fn_args, args);
    assert_eq!(r.fn_return, "3");
}

#[test]
fn ignored_result_is_replaced_by_sentinel() {
    let r = generate_log(&s("secret"), &vec![s("k: 7")], &s("Ok(\"token\")"), true);
    assert_eq!(r.fn_return, "\"ignored\"");
    assert_eq!(r.fn_args, vec![s("k: 7")]);
}
