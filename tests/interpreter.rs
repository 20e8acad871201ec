use php_fragment::{
    fragment_source, ElseIf, Expression, InfixOp, PhpError, PhpFragment, PhpVariable, Statement,
};

fn var(name: &str) -> Expression {
    Expression::Variable { name: name.to_string() }
}

fn ident(name: &str) -> Expression {
    Expression::Identifier { name: name.to_string() }
}

fn text(value: &str) -> Expression {
    Expression::ConstantString { value: value.to_string() }
}

fn prop(target: &str, property: &str) -> Expression {
    Expression::PropertyFetch { target: Box::new(var(target)), property: Box::new(ident(property)) }
}

fn call(name: &str, args: Vec<Expression>) -> Expression {
    Expression::Call { target: Box::new(ident(name)), args }
}

fn index(array: &str, i: i64) -> Expression {
    Expression::ArrayIndex { array: Box::new(var(array)), index: Some(Box::new(Expression::Int { i })) }
}

fn assign(target: &str, value: Expression) -> Statement {
    Statement::Expression {
        expr: Expression::Infix { lhs: Box::new(var(target)), op: InfixOp::Assign, rhs: Box::new(value) },
    }
}

fn when(condition: Expression, body: Vec<Statement>) -> Statement {
    Statement::If { condition, body, else_ifs: Vec::new(), otherwise: None }
}

fn string(value: &str) -> PhpVariable {
    PhpVariable::String { value: value.to_string() }
}

fn object(entries: &[(&str, &str)]) -> PhpVariable {
    PhpVariable::Object {
        elements: entries.iter().map(|(k, v)| (k.to_string(), Box::new(string(v)))).collect(),
    }
}

fn strings(v: &PhpVariable) -> Vec<String> {
    match v {
        PhpVariable::NumberedArray { elements } => elements.iter().map(|e| e.to_string()).collect(),
        other => panic!("not an array: {:?}", other),
    }
}

fn years_fragment() -> Vec<Statement> {
    vec![when(
        call("preg_match", vec![text("/\\((\\d{4})-(\\d{4})\\)/"), prop("o", "ext_desc"), var("m")]),
        vec![assign("x", index("m", 1))],
    )]
}

fn run(ast: Vec<Statement>, seed: Vec<(&str, PhpVariable)>) -> (PhpFragment, Result<(), PhpError>) {
    let mut pf = PhpFragment::new(Vec::new());
    for (name, value) in seed {
        pf.vars.set(name.to_string(), value);
    }
    let r = pf.run(&ast);
    (pf, r)
}

fn lookup<'a>(pf: &'a PhpFragment, name: &str) -> Option<&'a PhpVariable> {
    pf.vars.get(&name.to_string())
}

#[test]
fn test_new_from_code_fragment_id() {
    let (pf, r) = run(years_fragment(), vec![("o", object(&[("ext_desc", "(1921-2345)")]))]);
    assert!(r.is_ok());
    assert_eq!(strings(lookup(&pf, "m").unwrap()), vec!["(1921-2345)", "1921", "2345"]);
    assert_eq!(lookup(&pf, "x").unwrap().to_string(), "1921");
}

#[test]
fn no_match_leaves_output_unbound() {
    let (pf, r) = run(years_fragment(), vec![("o", object(&[("ext_desc", "no numbers here")]))]);
    assert!(r.is_ok());
    assert!(lookup(&pf, "m").is_none());
    assert!(lookup(&pf, "x").is_none());
}

#[test]
fn no_match_keeps_prior_binding() {
    let (pf, r) = run(
        years_fragment(),
        vec![("o", object(&[("ext_desc", "nothing")])), ("m", PhpVariable::Integer { value: 7 })],
    );
    assert!(r.is_ok());
    assert_eq!(lookup(&pf, "m").unwrap().to_i64(), 7);
}

#[test]
fn missing_fragment_is_reported() {
    let r = fragment_source(2, &Vec::new());
    assert!(matches!(r, Err(PhpError::NoSuchCodeFragment(2))));
}

#[test]
fn stored_fragment_gets_open_tag() {
    let r = fragment_source(2, &vec!["$a = 1;".to_string(), "ignored".to_string()]);
    assert_eq!(r.unwrap(), "<?php\n$a = 1;");
}

#[test]
fn two_argument_match_answers_and_binds_nothing() {
    let ast = vec![
        when(call("preg_match", vec![text("/b+/"), text("abbbc")]), vec![assign("hit", Expression::Int { i: 1 })]),
        when(call("preg_match", vec![text("/z/"), text("abc")]), vec![assign("miss", Expression::Int { i: 1 })]),
    ];
    let (pf, r) = run(ast, vec![]);
    assert!(r.is_ok());
    assert_eq!(lookup(&pf, "hit").unwrap().to_i64(), 1);
    assert!(lookup(&pf, "miss").is_none());
}

#[test]
fn second_match_overwrites_captures() {
    let ast = vec![
        when(call("preg_match", vec![text("/(a)(b)/"), text("xaby"), var("m")]), vec![]),
        when(call("preg_match", vec![text("/(\\d+)/"), text("n 42"), var("m")]), vec![]),
    ];
    let (pf, r) = run(ast, vec![("m", string("before"))]);
    assert!(r.is_ok());
    assert_eq!(strings(lookup(&pf, "m").unwrap()), vec!["42", "42"]);
}

#[test]
fn unmatched_group_is_empty_string() {
    let ast = vec![when(call("preg_match", vec![text("/(a)(x)?(b)/"), text("ab"), var("m")]), vec![])];
    let (pf, r) = run(ast, vec![]);
    assert!(r.is_ok());
    assert_eq!(strings(lookup(&pf, "m").unwrap()), vec!["ab", "a", "", "b"]);
}

#[test]
fn integer_literal_is_matched_as_decimal_text() {
    let ast = vec![when(
        call("preg_match", vec![text("/^-42$/"), Expression::Int { i: -42 }]),
        vec![assign("hit", Expression::Bool { value: true })],
    )];
    let (pf, r) = run(ast, vec![]);
    assert!(r.is_ok());
    assert_eq!(lookup(&pf, "hit").unwrap().to_string(), "true");
}

#[test]
fn array_index_in_and_out_of_range() {
    let arr = PhpVariable::NumberedArray { elements: vec![Box::new(string("a")), Box::new(string("b"))] };
    let ast = vec![assign("x", index("m", 1)), assign("y", index("m", 2)), assign("z", index("m", -1))];
    let (pf, r) = run(ast, vec![("m", arr)]);
    assert!(r.is_ok());
    assert_eq!(lookup(&pf, "x").unwrap().to_string(), "b");
    assert!(matches!(lookup(&pf, "y"), Some(PhpVariable::Null)));
    assert!(matches!(lookup(&pf, "z"), Some(PhpVariable::Null)));
}

#[test]
fn array_index_on_non_array_is_type_error() {
    let (_, r) = run(vec![assign("x", index("m", 0))], vec![("m", PhpVariable::Integer { value: 3 })]);
    assert!(matches!(r, Err(PhpError::WrongVariableType(_))));
}

#[test]
fn array_index_without_index_fails() {
    let e = Expression::ArrayIndex { array: Box::new(var("m")), index: None };
    let (_, r) = run(vec![assign("x", e)], vec![]);
    assert!(matches!(r, Err(PhpError::NoArrayIndex)));
}

#[test]
fn property_fetch_errors() {
    let guard = || vec![when(call("preg_match", vec![text("/a/"), prop("o", "ext_desc")]), vec![])];
    let (_, r) = run(guard(), vec![]);
    assert!(matches!(r, Err(PhpError::NoSuchVariable(ref n)) if n == "o"));
    let (_, r) = run(guard(), vec![("o", string("plain"))]);
    assert!(matches!(r, Err(PhpError::WrongVariableType(ref n)) if n == "o"));
    let (_, r) = run(guard(), vec![("o", object(&[("other", "a")]))]);
    assert!(matches!(r, Err(PhpError::NoSuchProperty(ref n)) if n == "ext_desc"));
}

#[test]
fn bad_patterns_are_regex_errors() {
    let (_, r) = run(vec![when(call("preg_match", vec![text("/(/"), text("x")]), vec![])], vec![]);
    assert!(matches!(r, Err(PhpError::RegexError(ref p)) if p == "("));
    let (_, r) = run(vec![when(call("preg_match", vec![text("/"), text("x")]), vec![])], vec![]);
    assert!(matches!(r, Err(PhpError::RegexError(ref p)) if p == "/"));
}

#[test]
fn missing_argument_is_reported() {
    let (_, r) = run(vec![when(call("preg_match", vec![text("/a/")]), vec![])], vec![]);
    assert!(matches!(r, Err(PhpError::NoSuchArg)));
}

#[test]
fn unsupported_forms_are_rejected() {
    let (_, r) = run(vec![when(call("strlen", vec![text("a")]), vec![])], vec![]);
    assert!(matches!(r, Err(PhpError::NotImplemented)));
    let (_, r) = run(vec![when(Expression::Bool { value: true }, vec![])], vec![]);
    assert!(matches!(r, Err(PhpError::NotImplemented)));
    let (_, r) = run(vec![Statement::Unsupported], vec![]);
    assert!(matches!(r, Err(PhpError::NotImplemented)));
    let (_, r) = run(vec![Statement::Expression { expr: text("a") }], vec![]);
    assert!(matches!(r, Err(PhpError::NotImplemented)));
}

#[test]
fn failure_stops_the_block() {
    let ast = vec![assign("a", Expression::Int { i: 1 }), Statement::Unsupported, assign("b", Expression::Int { i: 2 })];
    let (pf, r) = run(ast, vec![]);
    assert!(matches!(r, Err(PhpError::NotImplemented)));
    assert_eq!(lookup(&pf, "a").unwrap().to_i64(), 1);
    assert!(lookup(&pf, "b").is_none());
}

#[test]
fn else_if_chain_and_else() {
    let chain = |subject: &str| {
        vec![Statement::If {
            condition: call("preg_match", vec![text("/^a/"), text(subject)]),
            body: vec![assign("r", text("first"))],
            else_ifs: vec![ElseIf {
                condition: call("preg_match", vec![text("/^b/"), text(subject)]),
                body: vec![assign("r", text("second"))],
            }],
            otherwise: Some(vec![assign("r", text("other"))]),
        }]
    };
    for (subject, expected) in [("apple", "first"), ("banana", "second"), ("cherry", "other")] {
        let (pf, r) = run(chain(subject), vec![]);
        assert!(r.is_ok());
        assert_eq!(lookup(&pf, "r").unwrap().to_string(), expected);
    }
}

#[test]
fn value_coercions() {
    assert_eq!(string("abc").to_string(), "abc");
    assert_eq!(PhpVariable::Bool { value: false }.to_string(), "false");
    assert_eq!(PhpVariable::Integer { value: 5 }.to_string(), "Integer { value: 5 }");
    assert_eq!(PhpVariable::Integer { value: -9 }.to_i64(), -9);
    assert_eq!(string("12").to_i64(), 0);
    assert_eq!(PhpVariable::Null.to_i64(), 0);
}

#[test]
fn duplicate_copies_nested_values() {
    let v = PhpVariable::NumberedArray { elements: vec![Box::new(object(&[("k", "v")])), Box::new(string("s"))] };
    let d = v.duplicate();
    assert_eq!(format!("{:?}", d), format!("{:?}", v));
}

#[test]
fn execute_runs_own_statements_and_keeps_them() {
    let mut pf = PhpFragment::new(years_fragment());
    pf.vars.set("o".to_string(), object(&[("ext_desc", "x (2000-2001) y")]));
    assert!(pf.execute().is_ok());
    assert_eq!(pf.ast.len(), 1);
    assert_eq!(strings(lookup(&pf, "m").unwrap()), vec!["(2000-2001)", "2000", "2001"]);
}

#[test]
fn env_set_overwrites() {
    let mut env = php_fragment::Env::new();
    env.set("a".to_string(), string("one"));
    env.set("b".to_string(), string("two"));
    env.set("a".to_string(), string("three"));
    assert_eq!(env.get(&"a".to_string()).unwrap().to_string(), "three");
    assert_eq!(env.get(&"b".to_string()).unwrap().to_string(), "two");
    assert!(env.get(&"c".to_string()).is_none());
}

#[test]
fn env_remove_drops_only_that_name() {
    let mut env = php_fragment::Env::new();
    env.set("a".to_string(), string("one"));
    env.set("b".to_string(), string("two"));
    env.remove(&"a".to_string());
    assert!(env.get(&"a".to_string()).is_none());
    assert_eq!(env.get(&"b".to_string()).unwrap().to_string(), "two");
    env.remove(&"missing".to_string());
    assert_eq!(env.get(&"b".to_string()).unwrap().to_string(), "two");
}
