//! Values: what evaluation produces, and what classifies expressions.

use crate::syntax::{Expr, Level, Name, SpecExpr};
use vstd::prelude::*;
use vstd::std_specs::cmp::PartialEqSpecImpl;

verus! {

/// Mathematical model of a [`Value`].
pub enum SpecValue {
    Command(Box<SpecValue>),
    F64,
    F64Lit(u64),
    Let(Seq<char>, Box<SpecValue>, Box<SpecValue>),
    Trivial,
    Sole,
    U(Level),
}

/// A value: an expression that cannot be reduced any further. It has the
/// shape of an [`Expr`] without sums and variables.
#[derive(Debug)]
pub enum Value {
    Command(Box<Value>),
    F64,
    /// A number, by its bit pattern.
    F64Lit(u64),
    Let(Name, Box<Value>, Box<Value>),
    Trivial,
    Sole,
    U(Level),
}

/// Types and values share one representation.
pub type Type = Value;

impl SpecValue {
    /// The expression that denotes this value.
    pub open spec fn quote(self) -> SpecExpr
        decreases self,
    {
        match self {
            SpecValue::Command(v) => SpecExpr::Command(Box::new(v.quote())),
            SpecValue::F64 => SpecExpr::F64,
            SpecValue::F64Lit(n) => SpecExpr::F64Lit(n),
            SpecValue::Let(x, v, w) => SpecExpr::Let(x, Box::new(v.quote()), Box::new(w.quote())),
            SpecValue::Trivial => SpecExpr::Trivial,
            SpecValue::Sole => SpecExpr::Sole,
            SpecValue::U(i) => SpecExpr::U(i),
        }
    }
}

impl Value {
    /// The mathematical value this value stands for.
    pub open spec fn model(&self) -> SpecValue
        decreases self,
    {
        match self {
            Value::Command(v) => SpecValue::Command(Box::new((**v).model())),
            Value::F64 => SpecValue::F64,
            Value::F64Lit(n) => SpecValue::F64Lit(*n),
            Value::Let(x, v, w) => SpecValue::Let(
                x@,
                Box::new((**v).model()),
                Box::new((**w).model()),
            ),
            Value::Trivial => SpecValue::Trivial,
            Value::Sole => SpecValue::Sole,
            Value::U(i) => SpecValue::U(*i),
        }
    }
}

impl View for Value {
    type V = SpecValue;

    open spec fn view(&self) -> SpecValue {
        self.model()
    }
}

impl Clone for Value {
    fn clone(&self) -> (r: Self)
        ensures
            r@ == self@,
        decreases self,
    {
        match self {
            Value::Command(v) => Value::Command(Box::new((&**v).clone())),
            Value::F64 => Value::F64,
            Value::F64Lit(n) => Value::F64Lit(*n),
            Value::Let(x, v, w) => Value::Let(
                x.clone(),
                Box::new((&**v).clone()),
                Box::new((&**w).clone()),
            ),
            Value::Trivial => Value::Trivial,
            Value::Sole => Value::Sole,
            Value::U(i) => Value::U(*i),
        }
    }
}

impl Value {
    /// Turns the value back into syntax. Two values are equal exactly when
    /// their quotations are the same expression.
    pub fn quote(&self) -> (e: Expr)
        ensures
            e@ == self@.quote(),
        decreases self,
    {
        match self {
            Value::Command(v) => Expr::Command(Box::new((&**v).quote())),
            Value::F64 => Expr::F64,
            Value::F64Lit(n) => Expr::F64Lit(*n),
            Value::Let(x, v, w) => Expr::Let(
                x.clone(),
                Box::new((&**v).quote()),
                Box::new((&**w).quote()),
            ),
            Value::Trivial => Expr::Trivial,
            Value::Sole => Expr::Sole,
            Value::U(i) => Expr::U(*i),
        }
    }
}

impl PartialEq for Value {
    fn eq(&self, other: &Self) -> (r: bool) {
        self.quote().same(&other.quote())
    }
}

impl PartialEqSpecImpl for Value {
    open spec fn obeys_eq_spec() -> bool {
        true
    }

    open spec fn eq_spec(&self, other: &Self) -> bool {
        self@.quote() == other@.quote()
    }
}

} // verus!
