use core_calculus::{Bindings, Env, EvalError, Expr, Value};

fn add_bits(a: u64, b: u64) -> u64 {
    let sum = f64::from_bits(a) + f64::from_bits(b);
    if sum.is_nan() {
        f64::NAN.to_bits()
    } else {
        sum.to_bits()
    }
}

fn lit(x: f64) -> Expr {
    Expr::F64Lit(x.to_bits())
}

fn num(x: f64) -> Value {
    Value::F64Lit(x.to_bits())
}

fn add(a: Expr, b: Expr) -> Expr {
    Expr::Add(Box::new(a), Box::new(b))
}

fn var(x: &str) -> Expr {
    Expr::Var(x.to_string())
}

fn let_in(x: &str, a: Expr, b: Expr) -> Expr {
    Expr::Let(x.to_string(), Box::new(a), Box::new(b))
}

#[test]
fn sum_of_two_literals() {
    let env = Env::new(&add_bits);
    assert_eq!(add(lit(1.0), lit(2.0)).eval(&env), Ok(num(3.0)));
    assert_eq!(add(lit(1.5), lit(2.25)).eval(&env), Ok(num(3.75)));
    assert_eq!(add(lit(-4.0), lit(4.0)).eval(&env), Ok(num(0.0)));
}

#[test]
fn sums_are_added_as_the_tree_groups_them() {
    let env = Env::new(&add_bits);
    let left = add(add(lit(1e16), lit(1.0)), lit(1.0));
    let right = add(lit(1e16), add(lit(1.0), lit(1.0)));
    assert_eq!(left.eval(&env), Ok(num((1e16 + 1.0) + 1.0)));
    assert_eq!(right.eval(&env), Ok(num(1e16 + (1.0 + 1.0))));
    assert_ne!(left.eval(&env), right.eval(&env));
}

#[test]
fn sum_uses_the_adder_of_the_environment() {
    let pick = |a: u64, b: u64| a.wrapping_mul(10).wrapping_add(b);
    let env = Env::new(&pick);
    let e = add(
        add(Expr::F64Lit(1), Expr::F64Lit(2)),
        Expr::F64Lit(3),
    );
    assert_eq!(e.eval(&env), Ok(Value::F64Lit(123)));
    let e = add(
        Expr::F64Lit(1),
        add(Expr::F64Lit(2), Expr::F64Lit(3)),
    );
    assert_eq!(e.eval(&env), Ok(Value::F64Lit(33)));
}

#[test]
fn sum_of_something_that_is_no_number_is_a_type_mismatch() {
    let env = Env::new(&add_bits);
    assert_eq!(
        add(Expr::F64, lit(1.0)).eval(&env),
        Err(EvalError::TypeMismatch)
    );
    assert_eq!(
        add(lit(1.0), Expr::Sole).eval(&env),
        Err(EvalError::TypeMismatch)
    );
    assert_eq!(
        add(Expr::Trivial, Expr::U(0)).eval(&env),
        Err(EvalError::TypeMismatch)
    );
}

#[test]
fn left_operand_fails_first() {
    let env = Env::new(&add_bits);
    assert_eq!(
        add(var("a"), var("b")).eval(&env),
        Err(EvalError::UnboundVariable("a".to_string()))
    );
    assert_eq!(
        add(Expr::F64, var("b")).eval(&env),
        Err(EvalError::UnboundVariable("b".to_string()))
    );
    assert_eq!(
        add(add(Expr::F64, Expr::F64), var("b")).eval(&env),
        Err(EvalError::TypeMismatch)
    );
}

#[test]
fn atoms_evaluate_to_themselves() {
    let env = Env::new(&add_bits);
    assert_eq!(Expr::F64.eval(&env), Ok(Value::F64));
    assert_eq!(Expr::Trivial.eval(&env), Ok(Value::Trivial));
    assert_eq!(Expr::Sole.eval(&env), Ok(Value::Sole));
    assert_eq!(Expr::U(5).eval(&env), Ok(Value::U(5)));
    assert_eq!(lit(2.5).eval(&env), Ok(num(2.5)));
}

#[test]
fn command_wraps_the_value_of_its_payload() {
    let env = Env::new(&add_bits);
    let e = Expr::Command(Box::new(add(lit(1.0), lit(2.0))));
    assert_eq!(e.eval(&env), Ok(Value::Command(Box::new(num(3.0)))));
    let e = Expr::Command(Box::new(var("x")));
    assert_eq!(
        e.eval(&env),
        Err(EvalError::UnboundVariable("x".to_string()))
    );
}

#[test]
fn variable_is_looked_up_in_the_environment() {
    let mut bound = Bindings::new();
    bound.insert("x".to_string(), num(4.0));
    let env = Env::with_bindings(bound, &add_bits);
    assert_eq!(var("x").eval(&env), Ok(num(4.0)));
    assert_eq!(add(var("x"), lit(1.0)).eval(&env), Ok(num(5.0)));
    assert_eq!(
        var("y").eval(&env),
        Err(EvalError::UnboundVariable("y".to_string()))
    );
}

#[test]
fn let_binds_its_name_in_the_body() {
    let env = Env::new(&add_bits);
    let e = let_in("x", lit(2.0), add(var("x"), var("x")));
    assert_eq!(e.eval(&env), Ok(num(4.0)));
    assert_eq!(
        var("x").eval(&env),
        Err(EvalError::UnboundVariable("x".to_string()))
    );
}

#[test]
fn let_fails_where_its_first_expression_fails() {
    let env = Env::new(&add_bits);
    let e = let_in("x", var("missing"), lit(1.0));
    assert_eq!(
        e.eval(&env),
        Err(EvalError::UnboundVariable("missing".to_string()))
    );
    let e = let_in("x", add(Expr::F64, Expr::F64), lit(1.0));
    assert_eq!(e.eval(&env), Err(EvalError::TypeMismatch));
}

#[test]
fn inner_let_shadows_only_within_its_body() {
    let env = Env::new(&add_bits);
    let inner = let_in("x", lit(10.0), var("x"));
    let e = let_in("x", lit(1.0), add(inner, var("x")));
    assert_eq!(e.eval(&env), Ok(num(11.0)));
}

#[test]
fn let_shadows_the_environment_without_changing_it() {
    let mut bound = Bindings::new();
    bound.insert("x".to_string(), num(1.0));
    let env = Env::with_bindings(bound, &add_bits);
    let e = let_in("x", lit(5.0), var("x"));
    assert_eq!(e.eval(&env), Ok(num(5.0)));
    assert_eq!(var("x").eval(&env), Ok(num(1.0)));
    assert_eq!(env.get(&"x".to_string()), Some(&num(1.0)));
}

#[test]
fn extending_an_environment_leaves_it_as_it_was() {
    let env = Env::new(&add_bits);
    let wider = env.extended("x".to_string(), Value::Sole);
    assert_eq!(env.get(&"x".to_string()), None);
    assert_eq!(wider.get(&"x".to_string()), Some(&Value::Sole));
    let again = wider.extended("x".to_string(), Value::Trivial);
    assert_eq!(wider.get(&"x".to_string()), Some(&Value::Sole));
    assert_eq!(again.get(&"x".to_string()), Some(&Value::Trivial));
    assert_eq!(again.plus(2.0f64.to_bits(), 3.0f64.to_bits()), 5.0f64.to_bits());
}

#[test]
fn value_plus_adds_numbers_only() {
    let env = Env::new(&add_bits);
    assert_eq!(num(1.0).plus(&num(2.0), &env), Ok(num(3.0)));
    assert_eq!(num(1.0).plus(&Value::F64, &env), Err(EvalError::TypeMismatch));
    assert_eq!(Value::Sole.plus(&num(2.0), &env), Err(EvalError::TypeMismatch));
}

#[test]
fn value_of_a_quotation_is_the_value() {
    let env = Env::new(&add_bits);
    let values = [
        Value::F64,
        Value::Trivial,
        Value::Sole,
        Value::U(9),
        num(0.1),
        Value::Command(Box::new(Value::Command(Box::new(Value::U(2))))),
    ];
    for v in values {
        assert_eq!(v.quote().eval(&env), Ok(v.clone()));
    }
}

#[test]
fn bindings_find_the_latest_binding() {
    let mut b = Bindings::new();
    assert_eq!(b.get(&"x".to_string()), None);
    b.insert("x".to_string(), Value::F64);
    b.insert("y".to_string(), Value::Trivial);
    assert_eq!(b.get(&"x".to_string()), Some(&Value::F64));
    b.insert("x".to_string(), Value::U(1));
    assert_eq!(b.get(&"x".to_string()), Some(&Value::U(1)));
    assert_eq!(b.get(&"y".to_string()), Some(&Value::Trivial));
    assert_eq!(b.get(&"z".to_string()), None);
    let copy = b.clone();
    b.insert("z".to_string(), Value::Sole);
    assert_eq!(copy.get(&"z".to_string()), None);
    assert_eq!(copy.get(&"x".to_string()), Some(&Value::U(1)));
}

#[test]
fn sums_that_are_no_number_have_one_pattern() {
    let env = Env::new(&add_bits);
    let e = add(lit(f64::INFINITY), lit(f64::NEG_INFINITY));
    assert_eq!(e.eval(&env), Ok(Value::F64Lit(f64::NAN.to_bits())));
    let e = add(lit(f64::NAN), lit(1.0));
    assert_eq!(e.eval(&env), Ok(Value::F64Lit(f64::NAN.to_bits())));
    let e = add(lit(f64::MAX), lit(f64::MAX));
    assert_eq!(e.eval(&env), Ok(num(f64::INFINITY)));
}
