//! The bidirectional type checker.
//!
//! `check` validates an expression against an expected type where a rule for
//! the two shapes exists; otherwise it infers a type from the expression alone
//! and compares the quotations of the two types.

use crate::bindings::{Context, Env};
use crate::eval::{EvalError, SpecEvalError};
use crate::syntax::{Expr, Name, SpecExpr, MAX_LEVEL};
use crate::value::{SpecValue, Type, Value};
use vstd::prelude::*;

verus! {

/// Mathematical model of a [`TypeError`].
pub enum SpecTypeError {
    Mismatch(SpecExpr, SpecExpr),
    UnboundVariable(Seq<char>),
    CannotInfer(SpecExpr),
}

/// Why an expression does not have the expected type.
#[derive(Debug, PartialEq)]
pub enum TypeError {
    /// The actual type and the expected one, both quoted.
    Mismatch(Expr, Expr),
    /// Nothing binds this variable.
    UnboundVariable(Name),
    /// No rule gives this expression a type.
    CannotInfer(Expr),
}

impl View for TypeError {
    type V = SpecTypeError;

    open spec fn view(&self) -> SpecTypeError {
        match self {
            TypeError::Mismatch(actual, expected) => SpecTypeError::Mismatch(actual@, expected@),
            TypeError::UnboundVariable(x) => SpecTypeError::UnboundVariable(x@),
            TypeError::CannotInfer(e) => SpecTypeError::CannotInfer(e@),
        }
    }
}

/// The outcome of a check as plain values.
pub open spec fn check_outcome(r: Result<(), TypeError>) -> Result<(), SpecTypeError> {
    match r {
        Ok(()) => Ok(()),
        Err(e) => Err(e@),
    }
}

/// The outcome of an inference as plain values.
pub open spec fn infer_outcome(r: Result<Type, TypeError>) -> Result<SpecValue, SpecTypeError> {
    match r {
        Ok(t) => Ok(t@),
        Err(e) => Err(e@),
    }
}

/// The type of every `Let`, quoted.
pub open spec fn command_of_trivial() -> SpecExpr {
    SpecExpr::Command(Box::new(SpecExpr::Trivial))
}

/// How the checker reports that the annotation of a `Let` has no value: a
/// variable that the environment does not bind is reported as unbound. An
/// annotation that passed its own check holds no sum, so its evaluation never
/// fails in the other way; the checker then reports that the annotation has
/// no type.
pub open spec fn annotation_error(e: SpecEvalError, annotation: SpecExpr) -> SpecTypeError {
    match e {
        SpecEvalError::UnboundVariable(x) => SpecTypeError::UnboundVariable(x),
        SpecEvalError::TypeMismatch => SpecTypeError::CannotInfer(annotation),
    }
}

/// Compares an inferred type with the expected type `t`: they agree if they
/// quote to the same expression. A failed inference stays as it is.
pub open spec fn expect(inferred: Result<SpecValue, SpecTypeError>, t: SpecValue) -> Result<
    (),
    SpecTypeError,
> {
    match inferred {
        Err(e) => Err(e),
        Ok(actual) => if actual.quote() == t.quote() {
            Ok(())
        } else {
            Err(SpecTypeError::Mismatch(actual.quote(), t.quote()))
        },
    }
}

impl SpecExpr {
    /// Whether the expression has type `t`, and if not, why.
    pub open spec fn check(
        self,
        t: SpecValue,
        cx: Map<Seq<char>, SpecValue>,
        env: Map<Seq<char>, SpecValue>,
        sum: spec_fn(u64, u64) -> u64,
    ) -> Result<(), SpecTypeError>
        decreases self, 1int,
    {
        match (self, t) {
            (SpecExpr::Command(a), SpecValue::U(_)) => a.check(t, cx, env, sum),
            (SpecExpr::F64, SpecValue::U(_)) => Ok(()),
            (SpecExpr::F64Lit(_), SpecValue::F64) => Ok(()),
            (SpecExpr::Let(_, a, b), SpecValue::Command(p)) => if *p != SpecValue::Trivial {
                Err(SpecTypeError::Mismatch(command_of_trivial(), t.quote()))
            } else {
                match a.check(SpecValue::U(MAX_LEVEL), cx, env, sum) {
                    Err(e) => Err(e),
                    Ok(()) => match a.eval(env, sum) {
                        Err(e) => Err(annotation_error(e, *a)),
                        Ok(t1) => b.check(t1, cx, env, sum),
                    },
                }
            },
            (SpecExpr::Trivial, SpecValue::U(_)) => Ok(()),
            (SpecExpr::Sole, SpecValue::Trivial) => Ok(()),
            (SpecExpr::U(i), SpecValue::U(j)) => if i < j {
                Ok(())
            } else {
                expect(self.infer(cx, env, sum), t)
            },
            _ => expect(self.infer(cx, env, sum), t),
        }
    }

    /// The type of the expression, where a rule computes one from the
    /// expression alone.
    pub open spec fn infer(
        self,
        cx: Map<Seq<char>, SpecValue>,
        env: Map<Seq<char>, SpecValue>,
        sum: spec_fn(u64, u64) -> u64,
    ) -> Result<SpecValue, SpecTypeError>
        decreases self, 0int,
    {
        match self {
            SpecExpr::Add(a, b) => match a.check(SpecValue::F64, cx, env, sum) {
                Err(e) => Err(e),
                Ok(()) => match b.check(SpecValue::F64, cx, env, sum) {
                    Err(e) => Err(e),
                    Ok(()) => Ok(SpecValue::F64),
                },
            },
            SpecExpr::Var(x) => if cx.contains_key(x) {
                Ok(cx[x])
            } else {
                Err(SpecTypeError::UnboundVariable(x))
            },
            _ => Err(SpecTypeError::CannotInfer(self)),
        }
    }
}

/// Turns the failure to evaluate the annotation of a `Let` into a type error.
pub fn annotation_failure(e: EvalError, annotation: &Expr) -> (r: TypeError)
    ensures
        r@ == annotation_error(e@, annotation@),
{
    match e {
        EvalError::UnboundVariable(x) => TypeError::UnboundVariable(x),
        EvalError::TypeMismatch => TypeError::CannotInfer(annotation.clone()),
    }
}

/// Compares an inferred type with the expected type `t`: they agree if they
/// quote to the same expression. A failed inference is handed on.
pub fn expect_type(inferred: Result<Type, TypeError>, t: &Type) -> (r: Result<(), TypeError>)
    ensures
        check_outcome(r) == expect(infer_outcome(inferred), t@),
{
    match inferred {
        Err(e) => Err(e),
        Ok(actual) => {
            let found = actual.quote();
            let expected = t.quote();
            if found.same(&expected) {
                Ok(())
            } else {
                Err(TypeError::Mismatch(found, expected))
            }
        },
    }
}

impl Expr {
    /// Checks the expression against the expected type `t`.
    ///
    /// | expression | expected | outcome |
    /// |---|---|---|
    /// | `Command(e)` | `U(_)` | that of `e` against the same type |
    /// | `F64`, `Trivial` | `U(_)` | accepted |
    /// | `F64Lit(_)` | `F64` | accepted |
    /// | `Sole` | `Trivial` | accepted |
    /// | `U(i)` | `U(j)`, `i < j` | accepted |
    /// | `Let(_, e1, e2)` | `Command(Trivial)` | `e1` against `U(MAX_LEVEL)`, then `e2` against the value of `e1` |
    /// | `Let(_, _, _)` | `Command(t)`, `t` not `Trivial` | `Mismatch(Command(Trivial), Command(t))` |
    /// | anything else | | the inferred type must quote to the same expression as `t` |
    pub fn check<F: Fn(u64, u64) -> u64>(&self, t: &Type, cx: &Context, env: &Env<'_, F>) -> (r:
        Result<(), TypeError>)
        ensures
            check_outcome(r) == self@.check(t@, cx@, env@, env.sum()),
        decreases self, 1int,
    {
        proof {
            reveal_with_fuel(Value::model, 2);
        }
        match (self, t) {
            (Expr::Command(a), Value::U(_)) => (&**a).check(t, cx, env),
            (Expr::F64, Value::U(_)) => Ok(()),
            (Expr::F64Lit(_), Value::F64) => Ok(()),
            (Expr::Let(_, a, b), Value::Command(p)) => {
                match &**p {
                    Value::Trivial => {
                        let top = Value::U(MAX_LEVEL);
                        match (&**a).check(&top, cx, env) {
                            Err(e) => Err(e),
                            Ok(()) => match (&**a).eval(env) {
                                Err(e) => Err(annotation_failure(e, &**a)),
                                Ok(t1) => (&**b).check(&t1, cx, env),
                            },
                        }
                    },
                    _ => {
                        let actual = Expr::Command(Box::new(Expr::Trivial));
                        assert(actual@ == command_of_trivial()) by {
                            reveal_with_fuel(Expr::model, 2);
                        }
                        Err(TypeError::Mismatch(actual, t.quote()))
                    },
                }
            },
            (Expr::Trivial, Value::U(_)) => Ok(()),
            (Expr::Sole, Value::Trivial) => Ok(()),
            (Expr::U(i), Value::U(j)) => if *i < *j {
                Ok(())
            } else {
                expect_type(self.infer(cx, env), t)
            },
            _ => expect_type(self.infer(cx, env), t),
        }
    }

    /// Computes the type of a sum or of a variable. No other expression has a
    /// type that can be inferred.
    pub fn infer<F: Fn(u64, u64) -> u64>(&self, cx: &Context, env: &Env<'_, F>) -> (r: Result<
        Type,
        TypeError,
    >)
        ensures
            infer_outcome(r) == self@.infer(cx@, env@, env.sum()),
        decreases self, 0int,
    {
        match self {
            Expr::Add(a, b) => {
                let t = Value::F64;
                match (&**a).check(&t, cx, env) {
                    Err(e) => Err(e),
                    Ok(()) => match (&**b).check(&t, cx, env) {
                        Err(e) => Err(e),
                        Ok(()) => Ok(t),
                    },
                }
            },
            Expr::Var(x) => match cx.get(x) {
                Some(t) => Ok(t.clone()),
                None => Err(TypeError::UnboundVariable(x.clone())),
            },
            _ => Err(TypeError::CannotInfer(self.clone())),
        }
    }
}

} // verus!
