use core_calculus::{level_text, Expr, Numerals, Prec, TypeError, Value, MAX_LEVEL};

fn write_number(n: u64) -> String {
    format!("{}", f64::from_bits(n))
}

fn lit(x: f64) -> Expr {
    Expr::F64Lit(x.to_bits())
}

fn add(a: Expr, b: Expr) -> Expr {
    Expr::Add(Box::new(a), Box::new(b))
}

#[test]
fn left_nested_sum_prints_flat() {
    let numerals = Numerals::new(&write_number);
    let e = add(add(lit(1.0), lit(2.0)), lit(3.0));
    assert_eq!(e.fmt(&numerals), "1 + 2 + 3");
}

#[test]
fn operand_that_binds_as_tight_as_the_sum_stands_bare() {
    let numerals = Numerals::new(&write_number);
    let e = add(lit(1.0), add(lit(2.0), lit(3.0)));
    assert_eq!(e.fmt(&numerals), "1 + 2 + 3");
}

#[test]
fn atoms_print_by_name() {
    let numerals = Numerals::new(&write_number);
    assert_eq!(Expr::F64.fmt(&numerals), "F64");
    assert_eq!(Expr::Trivial.fmt(&numerals), "Trivial");
    assert_eq!(Expr::Sole.fmt(&numerals), "sole");
    assert_eq!(Expr::Var("speed".to_string()).fmt(&numerals), "speed");
    assert_eq!(lit(0.5).fmt(&numerals), "0.5");
    assert_eq!(lit(-2.0).fmt(&numerals), "-2");
}

#[test]
fn universe_prints_its_level_in_decimal() {
    let numerals = Numerals::new(&write_number);
    assert_eq!(Expr::U(0).fmt(&numerals), "U(0)");
    assert_eq!(Expr::U(7).fmt(&numerals), "U(7)");
    assert_eq!(Expr::U(10).fmt(&numerals), "U(10)");
    assert_eq!(Expr::U(1024).fmt(&numerals), "U(1024)");
    assert_eq!(Expr::U(MAX_LEVEL).fmt(&numerals), "U(18446744073709551615)");
}

#[test]
fn level_text_matches_the_standard_rendering() {
    for n in [0u64, 1, 9, 10, 11, 99, 100, 101, 12345, 1 << 32, u64::MAX - 1, u64::MAX] {
        assert_eq!(level_text(n), n.to_string());
    }
}

#[test]
fn command_and_let_print_their_parts() {
    let numerals = Numerals::new(&write_number);
    let c = Expr::Command(Box::new(add(lit(1.0), lit(2.0))));
    assert_eq!(c.fmt(&numerals), "Command(1 + 2)");
    let l = Expr::Let(
        "x".to_string(),
        Box::new(Expr::F64),
        Box::new(add(Expr::Var("x".to_string()), lit(1.5))),
    );
    assert_eq!(l.fmt(&numerals), "let(x, F64, x + 1.5)");
}

#[test]
fn parentheses_are_set_on_request() {
    let numerals = Numerals::new(&write_number);
    let e = add(lit(1.0), lit(2.0));
    assert_eq!(e.fmt_parens(&numerals, true), "(1 + 2)");
    assert_eq!(e.fmt_parens(&numerals, false), "1 + 2");
    assert_eq!(Expr::Sole.fmt_parens(&numerals, true), "(sole)");
}

#[test]
fn sum_binds_looser_than_every_other_form() {
    assert_eq!(add(lit(1.0), lit(2.0)).prec(), Prec::Add);
    for e in [
        Expr::F64,
        lit(1.0),
        Expr::Trivial,
        Expr::Sole,
        Expr::U(1),
        Expr::Var("x".to_string()),
        Expr::Command(Box::new(Expr::F64)),
        Expr::Let("x".to_string(), Box::new(Expr::F64), Box::new(lit(1.0))),
    ] {
        assert_eq!(e.prec(), Prec::Atom);
    }
    assert!(Prec::Add.looser_than(Prec::Atom));
    assert!(!Prec::Atom.looser_than(Prec::Add));
    assert!(!Prec::Add.looser_than(Prec::Add));
    assert!(!Prec::Atom.looser_than(Prec::Atom));
}

#[test]
fn numbers_are_written_by_the_given_writer() {
    let hex = |n: u64| format!("{n:#x}");
    let numerals = Numerals::new(&hex);
    assert_eq!(numerals.write(255), "0xff");
    let e = add(Expr::F64Lit(16), Expr::F64Lit(1));
    assert_eq!(e.fmt(&numerals), "0x10 + 0x1");
}

#[test]
fn mismatch_message_shows_both_types() {
    let numerals = Numerals::new(&write_number);
    let e = TypeError::Mismatch(Value::F64.quote(), Value::U(3).quote());
    assert_eq!(e.message(&numerals), "Type mismatch: F64 vs U(3)");
    let e = TypeError::Mismatch(
        Expr::Command(Box::new(Expr::Trivial)),
        Expr::Command(Box::new(lit(2.0))),
    );
    assert_eq!(
        e.message(&numerals),
        "Type mismatch: Command(Trivial) vs Command(2)"
    );
}

#[test]
fn other_messages_name_their_subject() {
    let numerals = Numerals::new(&write_number);
    assert_eq!(
        TypeError::UnboundVariable("x".to_string()).message(&numerals),
        "Not found: x"
    );
    assert_eq!(
        TypeError::CannotInfer(Expr::U(2)).message(&numerals),
        "Failed to infer a type for U(2)"
    );
}
