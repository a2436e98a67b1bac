use log_function::{
    classify, fold_expr, log_function, AttrArg, Class, ExitKind, Expr, FunctionDescriptor,
    GenericParam, MacroError, NodeError, NodeResult, Param, Position, ServiceClient, Stmt,
    WalkState,
};

fn s(t: &str) -> String {
    t.to_string()
}

fn path(segs: &[&str]) -> Expr {
    Expr::Path(segs.iter().map(|x| x.to_string()).collect())
}

fn call(f: &[&str], args: Vec<Expr>) -> Expr {
    Expr::Call(Box::new(path(f)), args)
}

fn ret(v: Expr) -> Expr {
    Expr::Return(Some(Box::new(v)))
}

fn func(params: Vec<Param>, body: Vec<Stmt>) -> FunctionDescriptor {
    FunctionDescriptor { name: s("work"), generics: vec![], params, returns_unit: false, body }
}

fn unit_func(params: Vec<Param>, body: Vec<Stmt>) -> FunctionDescriptor {
    FunctionDescriptor { name: s("work"), generics: vec![], params, returns_unit: true, body }
}

#[test]
fn tail_expression_is_the_single_exit() {
    let body = vec![
        Stmt::Let(1, Some(Expr::Leaf(2))),
        Stmt::Expr(call(&["compute"], vec![path(&["x"])])),
    ];
    let f = log_function(&vec![], func(vec![Param::Ident(s("x"))], body)).unwrap();
    assert_eq!(f.name, "work");
    assert_eq!(f.arg_names, vec![s("x")]);
    assert!(!f.synthetic_exit);
    assert_eq!(f.body[0], Stmt::Let(1, Some(Expr::Leaf(2))));
    assert_eq!(
        f.body[1],
        Stmt::Expr(Expr::LoggedTail(Box::new(call(&["compute"], vec![path(&["x"])]))))
    );
}

#[test]
fn each_top_level_return_is_logged_with_its_value() {
    // if c { return 1; } return 2;
    let body = vec![
        Stmt::Expr(Expr::Compound(
            9,
            vec![path(&["c"]), Expr::Block(vec![Stmt::Semi(ret(Expr::Leaf(1)))])],
        )),
        Stmt::Semi(ret(Expr::Leaf(2))),
    ];
    let f = log_function(&vec![], func(vec![], body)).unwrap();
    assert!(!f.synthetic_exit);
    assert_eq!(
        f.body[0],
        Stmt::Expr(Expr::Compound(
            9,
            vec![
                path(&["c"]),
                Expr::Block(vec![Stmt::Semi(Expr::LoggedReturn(Some(Box::new(Expr::Leaf(1)))))]),
            ],
        ))
    );
    assert_eq!(f.body[1], Stmt::Semi(Expr::LoggedReturn(Some(Box::new(Expr::Leaf(2))))));
}

#[test]
fn bare_return_is_logged() {
    let body = vec![Stmt::Semi(Expr::Return(None))];
    let f = log_function(&vec![], unit_func(vec![], body)).unwrap();
    assert_eq!(f.body[0], Stmt::Semi(Expr::LoggedReturn(None)));
    assert!(!f.synthetic_exit);
}

#[test]
fn short_circuit_logs_on_failure_only() {
    let fallible = || call(&["read"], vec![]);
    let body = vec![
        Stmt::Let(3, Some(Expr::Try(Box::new(fallible())))),
        Stmt::Semi(Expr::Try(Box::new(fallible()))),
        Stmt::Expr(path(&["v"])),
    ];
    let f = log_function(&vec![], func(vec![], body)).unwrap();
    assert_eq!(f.body[0], Stmt::Let(3, Some(Expr::LoggedTry(Box::new(fallible())))));
    assert_eq!(f.body[1], Stmt::Semi(Expr::LoggedTry(Box::new(fallible()))));
    assert_eq!(f.body[2], Stmt::Expr(Expr::LoggedTail(Box::new(path(&["v"])))));
}

#[test]
fn short_circuit_at_the_tail_is_logged_both_ways() {
    let body = vec![Stmt::Expr(Expr::Try(Box::new(path(&["r"]))))];
    let f = log_function(&vec![], func(vec![], body)).unwrap();
    assert_eq!(
        f.body[0],
        Stmt::Expr(Expr::LoggedTail(Box::new(Expr::LoggedTry(Box::new(path(&["r"]))))))
    );
}

#[test]
fn nested_branch_values_are_not_logged() {
    // let v = if c { 1 } else { 2 }; v
    let branch = |n: u64| Expr::Block(vec![Stmt::Expr(Expr::Leaf(n))]);
    let cond = || Expr::Compound(9, vec![path(&["c"]), branch(1), branch(2)]);
    let body = vec![Stmt::Let(4, Some(cond())), Stmt::Expr(path(&["v"]))];
    let f = log_function(&vec![], func(vec![], body)).unwrap();
    assert_eq!(f.body[0], Stmt::Let(4, Some(cond())));
    assert_eq!(f.body[1], Stmt::Expr(Expr::LoggedTail(Box::new(path(&["v"])))));
}

#[test]
fn closure_return_stays_inside_and_snapshot_is_copied() {
    let inner = || Expr::Block(vec![Stmt::Semi(ret(Expr::Leaf(1))), Stmt::Expr(Expr::Leaf(2))]);
    let body = vec![
        Stmt::Let(5, Some(Expr::Closure(true, Box::new(inner())))),
        Stmt::Expr(path(&["args_len"])),
    ];
    let f = log_function(&vec![], func(vec![Param::Ident(s("n"))], body)).unwrap();
    assert_eq!(
        f.body[0],
        Stmt::Let(5, Some(Expr::CopyArgs(Box::new(Expr::Closure(true, Box::new(inner()))))))
    );
    assert_eq!(f.body[1], Stmt::Expr(Expr::LoggedTail(Box::new(path(&["args_len"])))));
}

#[test]
fn borrowing_closure_is_opaque_without_copy() {
    let inner = || ret(Expr::Leaf(1));
    let body = vec![Stmt::Semi(Expr::Closure(false, Box::new(inner())))];
    let f = log_function(&vec![], unit_func(vec![], body)).unwrap();
    assert_eq!(f.body[0], Stmt::Semi(Expr::Closure(false, Box::new(inner()))));
    assert!(f.synthetic_exit);
}

#[test]
fn async_move_block_is_opaque_and_copies_snapshot() {
    let inner = || vec![Stmt::Semi(ret(Expr::Leaf(1)))];
    let body = vec![Stmt::Semi(Expr::Async(true, inner()))];
    let f = log_function(&vec![], unit_func(vec![], body)).unwrap();
    assert_eq!(
        f.body[0],
        Stmt::Semi(Expr::CopyArgs(Box::new(Expr::Async(true, inner()))))
    );
    assert!(f.synthetic_exit);
}

#[test]
fn ignore_return_replaces_every_result() {
    let body = vec![Stmt::Expr(Expr::Leaf(1))];
    let attr = vec![AttrArg::Str(s("ignore-return"))];
    let f = log_function(&attr, func(vec![Param::Ident(s("k"))], body)).unwrap();
    assert!(f.ignore_return);
    let r = f.exit_record(&vec![s("k: 3")], &s("Ok(42)"));
    assert_eq!(r.fn_name, "work");
    assert_eq!(r.fn_args, vec![s("k: 3")]);
    assert_eq!(r.fn_return, "\"ignored\"");
    assert_eq!(f.synthetic_record(&vec![]).fn_return, "\"ignored\"");
}

#[test]
fn logged_result_is_kept_without_directive() {
    let f = log_function(&vec![], func(vec![], vec![Stmt::Expr(Expr::Leaf(1))])).unwrap();
    assert!(!f.ignore_return);
    assert_eq!(f.exit_record(&vec![], &s("Ok(42)")).fn_return, "Ok(42)");
}

#[test]
fn unit_function_gets_one_synthetic_exit() {
    let body = vec![Stmt::Semi(call(&["println"], vec![]))];
    let f = log_function(&vec![], unit_func(vec![], body)).unwrap();
    assert!(f.synthetic_exit);
    assert!(f.arg_names.is_empty());
    assert_eq!(f.body[0], Stmt::Semi(call(&["println"], vec![])));
    let r = f.synthetic_record(&vec![]);
    assert_eq!(r.fn_name, "work");
    assert!(r.fn_args.is_empty());
    assert_eq!(r.fn_return, "\"nothing\"");
}

#[test]
fn empty_body_gets_synthetic_exit() {
    let f = log_function(&vec![], unit_func(vec![], vec![])).unwrap();
    assert!(f.synthetic_exit);
    assert!(f.body.is_empty());
}

#[test]
fn configuration_errors_come_before_any_rewrite() {
    let body = || vec![Stmt::Expr(Expr::Leaf(1))];
    let two = vec![AttrArg::Str(s("a")), AttrArg::Str(s("b"))];
    assert_eq!(
        log_function(&two, func(vec![], body())).unwrap_err(),
        MacroError::TooManyArguments { position: 1 }
    );
    assert_eq!(
        log_function(&vec![AttrArg::Other], func(vec![Param::Pattern], body())).unwrap_err(),
        MacroError::ExpectedStringLiteral { position: 0 }
    );
}

#[test]
fn pattern_parameter_fails_the_expansion() {
    let r = log_function(&vec![], func(vec![Param::Receiver, Param::Pattern], vec![]));
    assert_eq!(r.unwrap_err(), MacroError::UnsupportedParameter { position: 1 });
}

#[test]
fn wrapped_body_logs_at_result_variable() {
    let inner = vec![
        Stmt::Let(6, Some(Expr::Block(vec![Stmt::Expr(Expr::Leaf(1))]))),
        Stmt::Expr(path(&["__ret"])),
    ];
    let body = vec![Stmt::Expr(call(&["Box", "pin"], vec![Expr::Async(true, inner)]))];
    let input = FunctionDescriptor {
        name: s("serve"),
        generics: vec![GenericParam::Lifetime(s("life0")), GenericParam::Lifetime(s("async_trait"))],
        params: vec![Param::Receiver],
        returns_unit: false,
        body,
    };
    let f = log_function(&vec![], input).unwrap();
    assert!(!f.synthetic_exit);
    let expected_inner = vec![
        Stmt::Let(6, Some(Expr::Block(vec![Stmt::Expr(Expr::Leaf(1))]))),
        Stmt::Expr(Expr::LoggedTail(Box::new(path(&["__ret"])))),
    ];
    assert_eq!(
        f.body[0],
        Stmt::Expr(call(
            &["Box", "pin"],
            vec![Expr::CopyArgs(Box::new(Expr::Async(true, expected_inner)))]
        ))
    );
}

#[test]
fn result_variable_is_plain_outside_wrapped_mode() {
    let body = vec![Stmt::Expr(path(&["__ret"]))];
    let f = log_function(&vec![], func(vec![], body)).unwrap();
    assert_eq!(f.body[0], Stmt::Expr(Expr::LoggedTail(Box::new(path(&["__ret"])))));
}

#[test]
fn box_pin_tail_is_logged_outside_wrapped_mode() {
    let body = vec![Stmt::Expr(call(&["Box", "pin"], vec![Expr::Leaf(1)]))];
    let f = log_function(&vec![], func(vec![], body)).unwrap();
    assert_eq!(
        f.body[0],
        Stmt::Expr(Expr::LoggedTail(Box::new(call(&["Box", "pin"], vec![Expr::Leaf(1)]))))
    );
}

#[test]
fn classifier_decision_table() {
    let top = WalkState::new(false, false);
    let nested = top.enter_block();
    let opaque = top.enter_opaque();
    let wrapped = WalkState::new(true, false);
    assert_eq!(classify(&ret(Expr::Leaf(1)), Position::Operand, &top), Class::FunctionExit(ExitKind::Return));
    assert_eq!(classify(&ret(Expr::Leaf(1)), Position::Operand, &opaque), Class::Recurse);
    assert_eq!(
        classify(&Expr::Try(Box::new(Expr::Leaf(1))), Position::Operand, &top),
        Class::FunctionExit(ExitKind::Propagate)
    );
    assert_eq!(classify(&Expr::Try(Box::new(Expr::Leaf(1))), Position::Operand, &opaque), Class::Recurse);
    assert_eq!(classify(&Expr::Leaf(1), Position::Tail, &WalkState::new(false, true)), Class::Recurse);
    assert_eq!(classify(&Expr::Leaf(1), Position::Tail, &top), Class::FunctionExit(ExitKind::Tail));
    assert_eq!(classify(&Expr::Leaf(1), Position::Tail, &nested), Class::NestedValue);
    assert_eq!(classify(&Expr::Leaf(1), Position::Operand, &top), Class::Recurse);
    assert_eq!(
        classify(&Expr::Closure(true, Box::new(Expr::Leaf(1))), Position::Operand, &top),
        Class::OpaqueScopeEnter
    );
    assert_eq!(classify(&Expr::Async(false, vec![]), Position::Operand, &top), Class::OpaqueScopeEnter);
    assert_eq!(
        classify(&path(&["__ret"]), Position::Tail, &wrapped.enter_block()),
        Class::FunctionExit(ExitKind::ResultVar)
    );
    assert_eq!(classify(&call(&["Box", "pin"], vec![]), Position::Tail, &wrapped), Class::Recurse);
    assert_eq!(classify(&call(&["std", "boxed", "Box", "pin"], vec![]), Position::Tail, &wrapped), Class::FunctionExit(ExitKind::Tail));
}

#[test]
fn walk_instruments_only_function_exits() {
    let r = fold_expr(Expr::Closure(true, Box::new(ret(Expr::Leaf(1)))), WalkState::new(false, false));
    assert_eq!(r, Expr::CopyArgs(Box::new(Expr::Closure(true, Box::new(ret(Expr::Leaf(1)))))));
    let r = fold_expr(ret(Expr::Leaf(1)), WalkState::new(false, false));
    assert_eq!(r, Expr::LoggedReturn(Some(Box::new(Expr::Leaf(1)))));
}

#[test]
fn short_circuit_inside_closure_is_not_logged() {
    let inner = || Expr::Block(vec![Stmt::Expr(Expr::Try(Box::new(call(&["parse"], vec![]))))]);
    let body = vec![Stmt::Let(7, Some(Expr::Closure(true, Box::new(inner())))), Stmt::Expr(Expr::Leaf(0))];
    let f = log_function(&vec![], func(vec![], body)).unwrap();
    assert_eq!(
        f.body[0],
        Stmt::Let(7, Some(Expr::CopyArgs(Box::new(Expr::Closure(true, Box::new(inner()))))))
    );
}

#[test]
fn short_circuit_inside_async_block_is_not_logged() {
    let inner = || vec![Stmt::Semi(Expr::Try(Box::new(path(&["r"]))))];
    let body = vec![Stmt::Expr(Expr::Async(false, inner()))];
    let f = log_function(&vec![], func(vec![], body)).unwrap();
    assert_eq!(f.body[0], Stmt::Expr(Expr::LoggedTail(Box::new(Expr::Async(false, inner())))));
}

#[test]
fn nested_return_keeps_the_fall_through_exit() {
    // fn work(c: bool) { if c { return; } step(); }
    let branch = || Expr::Compound(9, vec![path(&["c"]), Expr::Block(vec![Stmt::Semi(Expr::Return(None))])]);
    let body = vec![Stmt::Expr(branch()), Stmt::Semi(call(&["step"], vec![]))];
    let f = log_function(&vec![], unit_func(vec![Param::Ident(s("c"))], body)).unwrap();
    assert!(f.synthetic_exit);
    assert_eq!(
        f.body[0],
        Stmt::Expr(Expr::Compound(
            9,
            vec![path(&["c"]), Expr::Block(vec![Stmt::Semi(Expr::LoggedReturn(None))])]
        ))
    );
    assert_eq!(f.body[1], Stmt::Semi(call(&["step"], vec![])));
}

#[test]
fn unit_function_ending_in_branch_gets_nothing_record() {
    // fn work() { if c() { a(); } }
    let branch = || {
        Expr::Compound(9, vec![call(&["c"], vec![]), Expr::Block(vec![Stmt::Semi(call(&["a"], vec![]))])])
    };
    let f = log_function(&vec![], unit_func(vec![], vec![Stmt::Expr(branch())])).unwrap();
    assert!(f.synthetic_exit);
    assert_eq!(f.body[0], Stmt::Expr(branch()));
    assert_eq!(f.synthetic_record(&vec![]).fn_return, "\"nothing\"");
}

#[test]
fn unit_function_ending_in_return_needs_no_synthetic_exit() {
    let body = vec![Stmt::Semi(call(&["a"], vec![])), Stmt::Expr(Expr::Return(None))];
    let f = log_function(&vec![], unit_func(vec![], body)).unwrap();
    assert!(!f.synthetic_exit);
    assert_eq!(f.body[1], Stmt::Expr(Expr::LoggedReturn(None)));
}

#[test]
fn value_function_never_gets_synthetic_exit() {
    // fn work() -> i32 { if c { return 1; } panic!(); }
    let branch = Expr::Compound(9, vec![path(&["c"]), Expr::Block(vec![Stmt::Semi(ret(Expr::Leaf(1)))])]);
    let f = log_function(&vec![], func(vec![], vec![Stmt::Expr(branch), Stmt::Semi(Expr::Leaf(2))])).unwrap();
    assert!(!f.synthetic_exit);
}

#[test]
fn depth_saturates_instead_of_wrapping() {
    let st = WalkState { block_depth: u32::MAX, opaque_depth: u32::MAX, wrapped_trait: false, returns_unit: false };
    assert_eq!(st.enter_block().block_depth, u32::MAX);
    assert_eq!(st.enter_opaque().opaque_depth, u32::MAX);
}

struct Fixed(u32);

impl ServiceClient<u32> for Fixed {
    fn prepare_service_client(&self) -> NodeResult<u32> {
        if self.0 == 0 {
            Err(NodeError { message: s("no endpoint") })
        } else {
            Ok(self.0)
        }
    }
}

#[test]
fn service_client_is_implementable() {
    assert_eq!(Fixed(3).prepare_service_client(), Ok(3));
    assert_eq!(Fixed(0).prepare_service_client().unwrap_err().message, "no endpoint");
}
