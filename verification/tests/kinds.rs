use core_calculus::{get_kinds, Expr, ExprKind, ParseError, Value};

#[test]
fn kinds_for_number_type() {
    assert_eq!(get_kinds(&Value::F64), vec![ExprKind::Var, ExprKind::F64Lit]);
}

#[test]
fn kinds_for_lowest_universe() {
    assert_eq!(get_kinds(&Value::U(0)), vec![ExprKind::Var]);
}

#[test]
fn kinds_for_higher_universe() {
    assert_eq!(get_kinds(&Value::U(1)), vec![ExprKind::Var, ExprKind::U]);
    assert_eq!(
        get_kinds(&Value::U(u64::MAX)),
        vec![ExprKind::Var, ExprKind::U]
    );
}

#[test]
fn kinds_for_unit_type() {
    assert_eq!(get_kinds(&Value::Trivial), vec![ExprKind::Var, ExprKind::Sole]);
}

#[test]
fn kinds_for_command_types() {
    let unit_command = Value::Command(Box::new(Value::Trivial));
    assert_eq!(get_kinds(&unit_command), vec![ExprKind::Var, ExprKind::Let]);
    let other = Value::Command(Box::new(Value::F64));
    assert_eq!(get_kinds(&other), vec![ExprKind::Var]);
    let nested = Value::Command(Box::new(Value::Command(Box::new(Value::Trivial))));
    assert_eq!(get_kinds(&nested), vec![ExprKind::Var]);
}

#[test]
fn kinds_for_values_that_are_no_types() {
    assert_eq!(get_kinds(&Value::Sole), vec![ExprKind::Var]);
    assert_eq!(get_kinds(&Value::F64Lit(0)), vec![ExprKind::Var]);
    let l = Value::Let(
        "x".to_string(),
        Box::new(Value::F64),
        Box::new(Value::F64Lit(0)),
    );
    assert_eq!(get_kinds(&l), vec![ExprKind::Var]);
}

#[test]
fn kinds_are_the_same_on_every_call() {
    for t in [Value::F64, Value::Trivial, Value::U(0), Value::U(3)] {
        assert_eq!(get_kinds(&t), get_kinds(&t));
        assert_eq!(get_kinds(&t)[0], ExprKind::Var);
    }
}

#[test]
fn every_kind_is_read_back_from_its_name() {
    let all = ExprKind::all();
    assert_eq!(all.len(), 9);
    for k in all {
        assert_eq!(ExprKind::from_str(&k.to_string()), Ok(k));
    }
}

#[test]
fn names_are_the_variant_identifiers() {
    let names: Vec<String> = ExprKind::all().iter().map(|k| k.to_string()).collect();
    assert_eq!(
        names,
        vec!["Add", "Command", "F64", "F64Lit", "Let", "Trivial", "Sole", "U", "Var"]
    );
}

#[test]
fn every_name_is_printed_back() {
    for s in ["Add", "Command", "F64", "F64Lit", "Let", "Trivial", "Sole", "U", "Var"] {
        let k = ExprKind::from_str(s).unwrap();
        assert_eq!(k.to_string(), s);
    }
}

#[test]
fn other_texts_name_no_kind() {
    for s in ["", "add", "ADD", "Add ", " Add", "F64Lit1", "F", "Unit", "sole", "u"] {
        assert_eq!(
            ExprKind::from_str(s),
            Err(ParseError { input: s.to_string() })
        );
    }
}

#[test]
fn kind_of_an_expression_is_its_outermost_form() {
    let one = || Box::new(Expr::F64Lit(1));
    assert_eq!(Expr::Add(one(), one()).kind(), ExprKind::Add);
    assert_eq!(Expr::Command(one()).kind(), ExprKind::Command);
    assert_eq!(Expr::F64.kind(), ExprKind::F64);
    assert_eq!(Expr::F64Lit(1).kind(), ExprKind::F64Lit);
    assert_eq!(Expr::Let("x".to_string(), one(), one()).kind(), ExprKind::Let);
    assert_eq!(Expr::Trivial.kind(), ExprKind::Trivial);
    assert_eq!(Expr::Sole.kind(), ExprKind::Sole);
    assert_eq!(Expr::U(0).kind(), ExprKind::U);
    assert_eq!(Expr::Var("x".to_string()).kind(), ExprKind::Var);
}
