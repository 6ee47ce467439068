use component_host::calculator::{parse_operator, Op};
use component_host::codec::{ConversionErrorKind, Token, TypeDescriptor, TypeKind, Value};
use component_host::exports::{
    encode_params, find_function, find_unsupported, prepare_call, select_interface, zero_results, ExportedFunction,
    ExportedInterface, InvokeError, Slot,
};
use component_host::session::{action_for, advance, parse_command_line, Action, Outcome, Phase};

fn toks(xs: &[&str]) -> Vec<Token> {
    xs.iter().map(|s| Token::plain(s.to_string())).collect()
}

fn add_fn() -> ExportedFunction {
    ExportedFunction { name: "add".to_string(), params: vec![TypeDescriptor::U32, TypeDescriptor::U32], results: vec![TypeDescriptor::U32] }
}

fn iface(name: &str, functions: Vec<ExportedFunction>) -> ExportedInterface {
    ExportedInterface { name: name.to_string(), functions }
}

#[test]
fn add_prepares_two_u32_arguments() {
    let ex = vec![iface("tut:adder/add@0.1.0", vec![add_fn()])];
    let p = prepare_call(&ex, &None, &"add".to_string(), &toks(&["2", "3"])).unwrap();
    assert_eq!((p.interface, p.function), (0, 0));
    assert_eq!(p.params, vec![Value::U32(2), Value::U32(3)]);
    assert_eq!(p.results, vec![Value::U32(0)]);
}

#[test]
fn add_with_bad_second_argument_is_refused() {
    let ex = vec![iface("tut:adder/add@0.1.0", vec![add_fn()])];
    match prepare_call(&ex, &None, &"add".to_string(), &toks(&["2", "abc"])) {
        Err(InvokeError::Conversion(e)) => {
            assert_eq!(e.kind, ConversionErrorKind::ParseFailure);
            assert_eq!(e.slot, Slot::Param);
            assert_eq!(e.index, 1);
            assert_eq!(e.expected, TypeKind::U32);
            assert_eq!(e.token, "abc");
        }
        other => panic!("unexpected {:?}", other),
    }
}

#[test]
fn list_result_is_unsupported() {
    let f = ExportedFunction {
        name: "names".to_string(),
        params: vec![],
        results: vec![TypeDescriptor::List(Box::new(TypeDescriptor::String))],
    };
    let ex = vec![iface("a:b/c", vec![f])];
    match prepare_call(&ex, &None, &"names".to_string(), &toks(&[])) {
        Err(InvokeError::Conversion(e)) => {
            assert_eq!(e.kind, ConversionErrorKind::UnsupportedType);
            assert_eq!(e.slot, Slot::Result);
            assert_eq!(e.index, 0);
            assert_eq!(e.expected, TypeKind::List);
        }
        other => panic!("unexpected {:?}", other),
    }
}

#[test]
fn unsupported_parameter_wins_over_bad_tokens() {
    let f = ExportedFunction {
        name: "f".to_string(),
        params: vec![TypeDescriptor::U8, TypeDescriptor::Other("record".to_string())],
        results: vec![],
    };
    let ex = vec![iface("a:b/c", vec![f])];
    match prepare_call(&ex, &None, &"f".to_string(), &toks(&["oops"])) {
        Err(InvokeError::Conversion(e)) => {
            assert_eq!((e.kind, e.slot, e.index), (ConversionErrorKind::UnsupportedType, Slot::Param, 1));
        }
        other => panic!("unexpected {:?}", other),
    }
    assert_eq!(find_unsupported(&vec![TypeDescriptor::U8, TypeDescriptor::String]), None);
}

#[test]
fn too_few_or_too_many_tokens() {
    let ex = vec![iface("a:b/c", vec![add_fn()])];
    match prepare_call(&ex, &None, &"add".to_string(), &toks(&["2"])) {
        Err(InvokeError::ArgumentCount { expected, given }) => assert_eq!((expected, given), (2, 1)),
        other => panic!("unexpected {:?}", other),
    }
    match prepare_call(&ex, &None, &"add".to_string(), &toks(&["2", "3", "4"])) {
        Err(InvokeError::ArgumentCount { expected, given }) => assert_eq!((expected, given), (2, 3)),
        other => panic!("unexpected {:?}", other),
    }
    assert!(matches!(encode_params(&vec![TypeDescriptor::String], &toks(&[])), Err(InvokeError::ArgumentCount { .. })));
}

#[test]
fn first_declared_interface_is_the_default() {
    let ex = vec![iface("z:first/b", vec![]), iface("a:second/a", vec![add_fn()])];
    assert_eq!(select_interface(&ex, &None).unwrap(), 0);
    assert_eq!(select_interface(&ex, &Some("a:second/a".to_string())).unwrap(), 1);
    assert!(matches!(select_interface(&ex, &Some("q:x/y".to_string())), Err(InvokeError::InterfaceNotFound(n)) if n == "q:x/y"));
    assert!(matches!(select_interface(&vec![], &None), Err(InvokeError::NoExports)));
    // the default interface does not hold `add`, though the second one does
    assert!(matches!(prepare_call(&ex, &None, &"add".to_string(), &toks(&["1", "2"])), Err(InvokeError::FunctionNotFound(n)) if n == "add"));
    let p = prepare_call(&ex, &Some("a:second/a".to_string()), &"add".to_string(), &toks(&["1", "2"])).unwrap();
    assert_eq!((p.interface, p.function), (1, 0));
}

#[test]
fn functions_are_found_by_name() {
    let i = iface("a:b/c", vec![add_fn(), ExportedFunction { name: "mul".to_string(), params: vec![], results: vec![] }]);
    assert_eq!(find_function(&i, &"mul".to_string()).unwrap(), 1);
    assert!(matches!(find_function(&i, &"div".to_string()), Err(InvokeError::FunctionNotFound(_))));
}

#[test]
fn result_slots_are_zeroed() {
    let rs = vec![TypeDescriptor::String, TypeDescriptor::Bool, TypeDescriptor::S64];
    assert_eq!(zero_results(&rs).unwrap(), vec![Value::String(String::new()), Value::Bool(false), Value::S64(0)]);
    let e = zero_results(&vec![TypeDescriptor::U8, TypeDescriptor::Other("option".to_string())]).unwrap_err();
    assert_eq!((e.kind, e.slot, e.index, e.expected), (ConversionErrorKind::UnsupportedType, Slot::Result, 1, TypeKind::Other));
}

#[test]
fn lifecycle_runs_in_order() {
    let mut p = Phase::Configured;
    let mut actions = vec![];
    while action_for(p) != Action::Stop {
        actions.push(action_for(p));
        p = advance(p, Outcome::Done);
    }
    assert_eq!(actions, vec![Action::Load, Action::Instantiate, Action::Prepare, Action::Call, Action::Cleanup]);
    assert_eq!(p, Phase::Completed);
}

#[test]
fn a_fault_ends_the_run() {
    let p = advance(Phase::Instantiated, Outcome::Fault);
    assert_eq!(p, Phase::Failed);
    assert_eq!(action_for(p), Action::Stop);
    assert_eq!(advance(Phase::Called, Outcome::Fault), Phase::Failed);
    assert_eq!(advance(Phase::Failed, Outcome::Done), Phase::Failed);
    assert_eq!(advance(Phase::Completed, Outcome::Fault), Phase::Completed);
}

#[test]
fn command_line_parts() {
    let argv: Vec<String> = ["host", "web.wasm", "make-get-request", "http://x"].iter().map(|s| s.to_string()).collect();
    let c = parse_command_line(&argv).unwrap();
    assert_eq!(c.artifact, "web.wasm");
    assert_eq!(c.function, "make-get-request");
    assert_eq!(c.args, vec!["http://x".to_string()]);
    assert!(parse_command_line(&argv[..2].to_vec()).is_none());
}

#[test]
fn operators_by_name() {
    assert_eq!(parse_operator("add").unwrap(), Op::Add);
    assert_eq!(parse_operator("mult").unwrap(), Op::Mult);
    assert_eq!(parse_operator("Add").unwrap_err().name, "Add");
    assert_eq!(Op::Add.symbol(), '+');
    assert_eq!(Op::Mult.symbol(), '*');
}
