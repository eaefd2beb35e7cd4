//! Surface syntax of the calculus and its mathematical model.

use vstd::prelude::*;
use vstd::std_specs::cmp::PartialEqSpecImpl;

verus! {

/// An index into the universe hierarchy `U(0) : U(1) : U(2) ...`.
pub type Level = u64;

/// The largest universe that can be written down. Type annotations are
/// checked against `U(MAX_LEVEL)`.
pub const MAX_LEVEL: Level = 0xffff_ffff_ffff_ffff;

/// An identifier.
pub type Name = String;

/// Mathematical model of an [`Expr`]: the same tree, with names as character
/// sequences.
pub enum SpecExpr {
    Add(Box<SpecExpr>, Box<SpecExpr>),
    Command(Box<SpecExpr>),
    F64,
    F64Lit(u64),
    Let(Seq<char>, Box<SpecExpr>, Box<SpecExpr>),
    Trivial,
    Sole,
    U(Level),
    Var(Seq<char>),
}

/// An expression of the calculus.
///
/// A number literal is held by the bit pattern of its binary64 encoding; the
/// library never interprets the pattern, it only carries it around, hands it
/// to the environment's adder and to the number printer.
#[derive(Debug)]
pub enum Expr {
    /// Sum of two numbers.
    Add(Box<Expr>, Box<Expr>),
    /// The type of commands that return a value of the wrapped type.
    Command(Box<Expr>),
    /// The type of numbers.
    F64,
    /// A number literal, by its bit pattern.
    F64Lit(u64),
    /// Sequential binding of a name.
    Let(Name, Box<Expr>, Box<Expr>),
    /// The unit type.
    Trivial,
    /// The only value of `Trivial`.
    Sole,
    /// The type of types at a level.
    U(Level),
    /// A variable.
    Var(Name),
}

impl Expr {
    /// The tree this expression stands for.
    pub open spec fn model(&self) -> SpecExpr
        decreases self,
    {
        match self {
            Expr::Add(a, b) => SpecExpr::Add(Box::new((**a).model()), Box::new((**b).model())),
            Expr::Command(a) => SpecExpr::Command(Box::new((**a).model())),
            Expr::F64 => SpecExpr::F64,
            Expr::F64Lit(n) => SpecExpr::F64Lit(*n),
            Expr::Let(x, a, b) => SpecExpr::Let(
                x@,
                Box::new((**a).model()),
                Box::new((**b).model()),
            ),
            Expr::Trivial => SpecExpr::Trivial,
            Expr::Sole => SpecExpr::Sole,
            Expr::U(i) => SpecExpr::U(*i),
            Expr::Var(x) => SpecExpr::Var(x@),
        }
    }
}

impl View for Expr {
    type V = SpecExpr;

    open spec fn view(&self) -> SpecExpr {
        self.model()
    }
}

impl SpecExpr {
    /// The expression is a literal or a sum of such expressions.
    pub open spec fn literal_sum(self) -> bool
        decreases self,
    {
        match self {
            SpecExpr::F64Lit(_) => true,
            SpecExpr::Add(a, b) => a.literal_sum() && b.literal_sum(),
            _ => false,
        }
    }
}

impl Clone for Expr {
    fn clone(&self) -> (r: Self)
        ensures
            r@ == self@,
        decreases self,
    {
        match self {
            Expr::Add(a, b) => Expr::Add(Box::new((&**a).clone()), Box::new((&**b).clone())),
            Expr::Command(a) => Expr::Command(Box::new((&**a).clone())),
            Expr::F64 => Expr::F64,
            Expr::F64Lit(n) => Expr::F64Lit(*n),
            Expr::Let(x, a, b) => Expr::Let(
                x.clone(),
                Box::new((&**a).clone()),
                Box::new((&**b).clone()),
            ),
            Expr::Trivial => Expr::Trivial,
            Expr::Sole => Expr::Sole,
            Expr::U(i) => Expr::U(*i),
            Expr::Var(x) => Expr::Var(x.clone()),
        }
    }
}

impl Expr {
    /// Structural comparison: the two trees have the same shape, the same
    /// literals and levels, and names that agree character by character.
    pub fn same(&self, other: &Expr) -> (r: bool)
        ensures
            r == (self@ == other@),
        decreases self,
    {
        match (self, other) {
            (Expr::Add(a, b), Expr::Add(c, d)) => (&**a).same(&**c) && (&**b).same(&**d),
            (Expr::Command(a), Expr::Command(c)) => (&**a).same(&**c),
            (Expr::F64, Expr::F64) => true,
            (Expr::F64Lit(m), Expr::F64Lit(n)) => *m == *n,
            (Expr::Let(x, a, b), Expr::Let(y, c, d)) => {
                *x == *y && (&**a).same(&**c) && (&**b).same(&**d)
            },
            (Expr::Trivial, Expr::Trivial) => true,
            (Expr::Sole, Expr::Sole) => true,
            (Expr::U(i), Expr::U(j)) => *i == *j,
            (Expr::Var(x), Expr::Var(y)) => *x == *y,
            _ => false,
        }
    }
}

impl PartialEq for Expr {
    fn eq(&self, other: &Self) -> (r: bool) {
        self.same(other)
    }
}

impl PartialEqSpecImpl for Expr {
    open spec fn obeys_eq_spec() -> bool {
        true
    }

    open spec fn eq_spec(&self, other: &Self) -> bool {
        self@ == other@
    }
}

} // verus!
