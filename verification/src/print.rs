//! The printer: renders an expression as text, with parentheses where a
//! subexpression binds looser than the form around it.

use crate::check::{SpecTypeError, TypeError};
use crate::syntax::{Expr, Level, SpecExpr};
use vstd::prelude::*;
use vstd::string::*;

verus! {

/// How tightly a form binds. `Add` binds looser than everything else.
#[derive(Debug, Clone, Copy, PartialEq, Eq, Structural)]
pub enum Prec {
    Add,
    Atom,
}

impl Prec {
    /// The position in the order of binding strength; a smaller rank binds
    /// looser.
    pub open spec fn rank(self) -> nat {
        match self {
            Prec::Add => 0,
            Prec::Atom => 1,
        }
    }

    /// Whether `self` binds strictly looser than `other`.
    #[verifier::when_used_as_spec(spec_looser_than)]
    pub fn looser_than(self, other: Prec) -> (r: bool)
        ensures
            r == self.spec_looser_than(other),
    {
        match (self, other) {
            (Prec::Add, Prec::Atom) => true,
            _ => false,
        }
    }

    /// Whether `self` binds strictly looser than `other`.
    pub open spec fn spec_looser_than(self, other: Prec) -> bool {
        self.rank() < other.rank()
    }
}

/// The decimal digit for `d`, which is below ten.
pub open spec fn digit(d: nat) -> char {
    if d == 0 {
        '0'
    } else if d == 1 {
        '1'
    } else if d == 2 {
        '2'
    } else if d == 3 {
        '3'
    } else if d == 4 {
        '4'
    } else if d == 5 {
        '5'
    } else if d == 6 {
        '6'
    } else if d == 7 {
        '7'
    } else if d == 8 {
        '8'
    } else {
        '9'
    }
}

/// The decimal numeral of `n`, without leading zeros.
pub open spec fn decimal(n: nat) -> Seq<char>
    decreases n,
{
    if n < 10 {
        seq![digit(n)]
    } else {
        decimal(n / 10).push(digit(n % 10))
    }
}

/// `text`, in parentheses if `wrap` holds.
pub open spec fn parenthesized(text: Seq<char>, wrap: bool) -> Seq<char> {
    if wrap {
        "("@ + text + ")"@
    } else {
        text
    }
}

impl SpecExpr {
    /// How tightly the outermost form binds.
    pub open spec fn prec(self) -> Prec {
        match self {
            SpecExpr::Add(_, _) => Prec::Add,
            _ => Prec::Atom,
        }
    }

    /// The text of the expression, where `number` gives the text of a number
    /// literal. An operand stands in parentheses exactly if it binds strictly
    /// looser than the sum around it.
    pub open spec fn render(self, number: spec_fn(u64) -> Seq<char>) -> Seq<char>
        decreases self,
    {
        match self {
            SpecExpr::Add(a, b) => parenthesized(
                a.render(number),
                a.prec().spec_looser_than(self.prec()),
            ) + " + "@ + parenthesized(b.render(number), b.prec().spec_looser_than(self.prec())),
            SpecExpr::Command(a) => "Command("@ + a.render(number) + ")"@,
            SpecExpr::F64 => "F64"@,
            SpecExpr::F64Lit(n) => number(n),
            SpecExpr::Let(x, a, b) => "let("@ + x + ", "@ + a.render(number) + ", "@ + b.render(
                number,
            ) + ")"@,
            SpecExpr::Trivial => "Trivial"@,
            SpecExpr::Sole => "sole"@,
            SpecExpr::U(i) => "U("@ + decimal(i as nat) + ")"@,
            SpecExpr::Var(x) => x,
        }
    }
}

impl SpecTypeError {
    /// The message of the error, with its expressions rendered.
    pub open spec fn message(self, number: spec_fn(u64) -> Seq<char>) -> Seq<char> {
        match self {
            SpecTypeError::Mismatch(actual, expected) => "Type mismatch: "@ + actual.render(number)
                + " vs "@ + expected.render(number),
            SpecTypeError::UnboundVariable(x) => "Not found: "@ + x,
            SpecTypeError::CannotInfer(e) => "Failed to infer a type for "@ + e.render(number),
        }
    }
}

/// `f` gives a text for every bit pattern, and the text is determined by the
/// pattern.
pub open spec fn is_number_writer<F: Fn(u64) -> String>(f: &F) -> bool {
    &&& forall|n: u64| #[trigger] f.requires((n,))
    &&& forall|n: u64, s: String, t: String|
        #[trigger] f.ensures((n,), s) && #[trigger] f.ensures((n,), t) ==> s@ == t@
}

/// The text that a number writer gives for each pattern.
pub open spec fn text_of<F: Fn(u64) -> String>(f: &F) -> spec_fn(u64) -> Seq<char> {
    |n: u64| (choose|s: String| f.ensures((n,), s))@
}

/// How number literals are written: a function from the bit pattern of a
/// literal to its text.
pub struct Numerals<'a, F: Fn(u64) -> String> {
    pub(crate) writer: &'a F,
}

impl<'a, F: Fn(u64) -> String> Numerals<'a, F> {
    #[verifier::type_invariant]
    spec fn inv(&self) -> bool {
        is_number_writer(self.writer)
    }

    /// The function that writes a literal.
    pub closed spec fn writer(&self) -> &'a F {
        self.writer
    }

    /// The text of each literal.
    pub open spec fn text(&self) -> spec_fn(u64) -> Seq<char> {
        text_of(self.writer())
    }

    /// Number literals as `writer` writes them.
    pub fn new(writer: &'a F) -> (r: Self)
        requires
            is_number_writer(writer),
        ensures
            r.writer() == writer,
    {
        Numerals { writer }
    }

    /// Writes one literal.
    pub fn write(&self, n: u64) -> (s: String)
        ensures
            s@ == (self.text())(n),
            self.writer().ensures((n,), s),
    {
        proof {
            use_type_invariant(self);
        }
        (self.writer)(n)
    }
}

/// The one-character text of a decimal digit.
fn digit_text(d: u64) -> (s: &'static str)
    requires
        d < 10,
    ensures
        s@ == seq![digit(d as nat)],
{
    proof {
        reveal_strlit("0");
        reveal_strlit("1");
        reveal_strlit("2");
        reveal_strlit("3");
        reveal_strlit("4");
        reveal_strlit("5");
        reveal_strlit("6");
        reveal_strlit("7");
        reveal_strlit("8");
        reveal_strlit("9");
    }
    let s = if d == 0 {
        "0"
    } else if d == 1 {
        "1"
    } else if d == 2 {
        "2"
    } else if d == 3 {
        "3"
    } else if d == 4 {
        "4"
    } else if d == 5 {
        "5"
    } else if d == 6 {
        "6"
    } else if d == 7 {
        "7"
    } else if d == 8 {
        "8"
    } else {
        "9"
    };
    assert(s@ =~= seq![digit(d as nat)]);
    s
}

/// Writes a level in decimal.
pub fn level_text(n: Level) -> (s: String)
    ensures
        s@ == decimal(n as nat),
    decreases n,
{
    if n < 10 {
        String::from_str(digit_text(n))
    } else {
        let mut s = level_text(n / 10);
        s.append(digit_text(n % 10));
        assert(s@ =~= decimal(n as nat));
        s
    }
}

impl Expr {
    /// How tightly the outermost form binds.
    pub fn prec(&self) -> (p: Prec)
        ensures
            p == self@.prec(),
    {
        match self {
            Expr::Add(_, _) => Prec::Add,
            _ => Prec::Atom,
        }
    }

    /// The text of the expression, in parentheses if `cond` holds.
    pub fn fmt_parens<F: Fn(u64) -> String>(&self, numerals: &Numerals<'_, F>, cond: bool) -> (s:
        String)
        ensures
            s@ == parenthesized(self@.render(numerals.text()), cond),
        decreases self, 1int,
    {
        if cond {
            let mut s = String::from_str("(");
            let inner = self.fmt(numerals);
            s.append(inner.as_str());
            s.append(")");
            s
        } else {
            self.fmt(numerals)
        }
    }

    /// The text of the expression.
    pub fn fmt<F: Fn(u64) -> String>(&self, numerals: &Numerals<'_, F>) -> (s: String)
        ensures
            s@ == self@.render(numerals.text()),
        decreases self, 0int,
    {
        match self {
            Expr::Add(a, b) => {
                let mut s = (&**a).fmt_parens(numerals, (&**a).prec().looser_than(self.prec()));
                let right = (&**b).fmt_parens(numerals, (&**b).prec().looser_than(self.prec()));
                s.append(" + ");
                s.append(right.as_str());
                s
            },
            Expr::Command(a) => {
                let mut s = String::from_str("Command(");
                let inner = (&**a).fmt(numerals);
                s.append(inner.as_str());
                s.append(")");
                s
            },
            Expr::F64 => String::from_str("F64"),
            Expr::F64Lit(n) => numerals.write(*n),
            Expr::Let(x, a, b) => {
                let mut s = String::from_str("let(");
                let first = (&**a).fmt(numerals);
                let second = (&**b).fmt(numerals);
                s.append(x.as_str());
                s.append(", ");
                s.append(first.as_str());
                s.append(", ");
                s.append(second.as_str());
                s.append(")");
                s
            },
            Expr::Trivial => String::from_str("Trivial"),
            Expr::Sole => String::from_str("sole"),
            Expr::U(i) => {
                let mut s = String::from_str("U(");
                let level = level_text(*i);
                s.append(level.as_str());
                s.append(")");
                s
            },
            Expr::Var(x) => x.clone(),
        }
    }
}

impl TypeError {
    /// The message of the error. A mismatch shows both types as the printer
    /// renders them.
    pub fn message<F: Fn(u64) -> String>(&self, numerals: &Numerals<'_, F>) -> (s: String)
        ensures
            s@ == self@.message(numerals.text()),
    {
        match self {
            TypeError::Mismatch(actual, expected) => {
                let mut s = String::from_str("Type mismatch: ");
                let left = actual.fmt(numerals);
                let right = expected.fmt(numerals);
                s.append(left.as_str());
                s.append(" vs ");
                s.append(right.as_str());
                s
            },
            TypeError::UnboundVariable(x) => {
                let mut s = String::from_str("Not found: ");
                s.append(x.as_str());
                s
            },
            TypeError::CannotInfer(e) => {
                let mut s = String::from_str("Failed to infer a type for ");
                let inner = e.fmt(numerals);
                s.append(inner.as_str());
                s
            },
        }
    }
}

} // verus!
