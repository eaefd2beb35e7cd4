//! The evaluator: reduces an expression to a value under an environment.

use crate::bindings::Env;
use crate::syntax::{Expr, Name, SpecExpr};
use crate::value::{SpecValue, Value};
use vstd::prelude::*;

verus! {

/// Mathematical model of an [`EvalError`].
pub enum SpecEvalError {
    TypeMismatch,
    UnboundVariable(Seq<char>),
}

/// Why an expression has no value.
#[derive(Debug, PartialEq)]
pub enum EvalError {
    /// An operand of a sum did not reduce to a number.
    TypeMismatch,
    /// The environment does not bind this variable.
    UnboundVariable(Name),
}

impl View for EvalError {
    type V = SpecEvalError;

    open spec fn view(&self) -> SpecEvalError {
        match self {
            EvalError::TypeMismatch => SpecEvalError::TypeMismatch,
            EvalError::UnboundVariable(x) => SpecEvalError::UnboundVariable(x@),
        }
    }
}

/// The outcome of an evaluation as plain values.
pub open spec fn eval_outcome(r: Result<Value, EvalError>) -> Result<SpecValue, SpecEvalError> {
    match r {
        Ok(v) => Ok(v@),
        Err(e) => Err(e@),
    }
}

/// The sum of two values: defined when both are numbers.
pub open spec fn sum_values(v: SpecValue, w: SpecValue, sum: spec_fn(u64, u64) -> u64) -> Result<
    SpecValue,
    SpecEvalError,
> {
    match (v, w) {
        (SpecValue::F64Lit(a), SpecValue::F64Lit(b)) => Ok(SpecValue::F64Lit(sum(a, b))),
        _ => Err(SpecEvalError::TypeMismatch),
    }
}

impl SpecExpr {
    /// The value of the expression under `env`, where `sum` adds two numbers.
    ///
    /// Operands are evaluated from left to right and the first failure is the
    /// failure of the whole. A `Let` evaluates its body with the name bound to
    /// the value of its first expression; the binding ends with the body.
    pub open spec fn eval(
        self,
        env: Map<Seq<char>, SpecValue>,
        sum: spec_fn(u64, u64) -> u64,
    ) -> Result<SpecValue, SpecEvalError>
        decreases self,
    {
        match self {
            SpecExpr::Add(a, b) => match a.eval(env, sum) {
                Err(e) => Err(e),
                Ok(v) => match b.eval(env, sum) {
                    Err(e) => Err(e),
                    Ok(w) => sum_values(v, w, sum),
                },
            },
            SpecExpr::Command(a) => match a.eval(env, sum) {
                Err(e) => Err(e),
                Ok(v) => Ok(SpecValue::Command(Box::new(v))),
            },
            SpecExpr::F64 => Ok(SpecValue::F64),
            SpecExpr::F64Lit(n) => Ok(SpecValue::F64Lit(n)),
            SpecExpr::Let(x, a, b) => match a.eval(env, sum) {
                Err(e) => Err(e),
                Ok(v) => b.eval(env.insert(x, v), sum),
            },
            SpecExpr::Trivial => Ok(SpecValue::Trivial),
            SpecExpr::Sole => Ok(SpecValue::Sole),
            SpecExpr::U(i) => Ok(SpecValue::U(i)),
            SpecExpr::Var(x) => if env.contains_key(x) {
                Ok(env[x])
            } else {
                Err(SpecEvalError::UnboundVariable(x))
            },
        }
    }
}

impl Value {
    /// Adds two values with the adder of `env`.
    pub fn plus<F: Fn(u64, u64) -> u64>(&self, other: &Value, env: &Env<'_, F>) -> (r: Result<
        Value,
        EvalError,
    >)
        ensures
            eval_outcome(r) == sum_values(self@, other@, env.sum()),
    {
        match (self, other) {
            (Value::F64Lit(a), Value::F64Lit(b)) => Ok(Value::F64Lit(env.plus(*a, *b))),
            _ => Err(EvalError::TypeMismatch),
        }
    }
}

impl Expr {
    /// Reduces the expression to a value under `env`.
    pub fn eval<F: Fn(u64, u64) -> u64>(&self, env: &Env<'_, F>) -> (r: Result<Value, EvalError>)
        ensures
            eval_outcome(r) == self@.eval(env@, env.sum()),
        decreases self,
    {
        match self {
            Expr::Add(a, b) => {
                let v = match (&**a).eval(env) {
                    Ok(v) => v,
                    Err(e) => return Err(e),
                };
                let w = match (&**b).eval(env) {
                    Ok(w) => w,
                    Err(e) => return Err(e),
                };
                v.plus(&w, env)
            },
            Expr::Command(a) => match (&**a).eval(env) {
                Ok(v) => Ok(Value::Command(Box::new(v))),
                Err(e) => Err(e),
            },
            Expr::F64 => Ok(Value::F64),
            Expr::F64Lit(n) => Ok(Value::F64Lit(*n)),
            Expr::Let(x, a, b) => match (&**a).eval(env) {
                Ok(v) => {
                    let inner = env.extended(x.clone(), v);
                    (&**b).eval(&inner)
                },
                Err(e) => Err(e),
            },
            Expr::Trivial => Ok(Value::Trivial),
            Expr::Sole => Ok(Value::Sole),
            Expr::U(i) => Ok(Value::U(*i)),
            Expr::Var(x) => match env.get(x) {
                Some(v) => Ok(v.clone()),
                None => Err(EvalError::UnboundVariable(x.clone())),
            },
        }
    }
}

} // verus!
