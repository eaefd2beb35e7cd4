//! The tags of the expression forms, their names, and the forms that an
//! editor may offer at an expected type.

use crate::syntax::{Expr, SpecExpr};
use crate::value::{SpecValue, Type, Value};
use vstd::prelude::*;
use vstd::string::*;

verus! {

/// The tag of an expression form.
#[derive(Debug, Clone, Copy, Hash, PartialEq, Eq, Structural)]
pub enum ExprKind {
    Add,
    Command,
    F64,
    F64Lit,
    Let,
    Trivial,
    Sole,
    U,
    Var,
}

/// A text that names no expression form.
#[derive(Debug, PartialEq)]
pub struct ParseError {
    /// The text that was given.
    pub input: String,
}

impl ExprKind {
    /// The name of the tag: the identifier of its variant.
    pub open spec fn name(self) -> Seq<char> {
        match self {
            ExprKind::Add => "Add"@,
            ExprKind::Command => "Command"@,
            ExprKind::F64 => "F64"@,
            ExprKind::F64Lit => "F64Lit"@,
            ExprKind::Let => "Let"@,
            ExprKind::Trivial => "Trivial"@,
            ExprKind::Sole => "Sole"@,
            ExprKind::U => "U"@,
            ExprKind::Var => "Var"@,
        }
    }

    /// The tag that a text names, if it names one.
    pub open spec fn named(s: Seq<char>) -> Option<ExprKind> {
        if s == "Add"@ {
            Some(ExprKind::Add)
        } else if s == "Command"@ {
            Some(ExprKind::Command)
        } else if s == "F64"@ {
            Some(ExprKind::F64)
        } else if s == "F64Lit"@ {
            Some(ExprKind::F64Lit)
        } else if s == "Let"@ {
            Some(ExprKind::Let)
        } else if s == "Trivial"@ {
            Some(ExprKind::Trivial)
        } else if s == "Sole"@ {
            Some(ExprKind::Sole)
        } else if s == "U"@ {
            Some(ExprKind::U)
        } else if s == "Var"@ {
            Some(ExprKind::Var)
        } else {
            None
        }
    }

    /// Reads a tag from its name. Any other text is handed back in the error.
    pub fn from_str(s: &str) -> (r: Result<ExprKind, ParseError>)
        ensures
            match r {
                Ok(k) => ExprKind::named(s@) == Some(k),
                Err(e) => ExprKind::named(s@) is None && e.input@ == s@,
            },
    {
        let input = String::from_str(s);
        if input == String::from_str("Add") {
            Ok(ExprKind::Add)
        } else if input == String::from_str("Command") {
            Ok(ExprKind::Command)
        } else if input == String::from_str("F64") {
            Ok(ExprKind::F64)
        } else if input == String::from_str("F64Lit") {
            Ok(ExprKind::F64Lit)
        } else if input == String::from_str("Let") {
            Ok(ExprKind::Let)
        } else if input == String::from_str("Trivial") {
            Ok(ExprKind::Trivial)
        } else if input == String::from_str("Sole") {
            Ok(ExprKind::Sole)
        } else if input == String::from_str("U") {
            Ok(ExprKind::U)
        } else if input == String::from_str("Var") {
            Ok(ExprKind::Var)
        } else {
            Err(ParseError { input })
        }
    }

    /// The name of the tag.
    pub fn to_string(&self) -> (s: String)
        ensures
            s@ == self.name(),
    {
        match self {
            ExprKind::Add => String::from_str("Add"),
            ExprKind::Command => String::from_str("Command"),
            ExprKind::F64 => String::from_str("F64"),
            ExprKind::F64Lit => String::from_str("F64Lit"),
            ExprKind::Let => String::from_str("Let"),
            ExprKind::Trivial => String::from_str("Trivial"),
            ExprKind::Sole => String::from_str("Sole"),
            ExprKind::U => String::from_str("U"),
            ExprKind::Var => String::from_str("Var"),
        }
    }

    /// Every tag, in the order of declaration.
    pub fn all() -> (v: Vec<ExprKind>)
        ensures
            v@ == seq![
                ExprKind::Add,
                ExprKind::Command,
                ExprKind::F64,
                ExprKind::F64Lit,
                ExprKind::Let,
                ExprKind::Trivial,
                ExprKind::Sole,
                ExprKind::U,
                ExprKind::Var,
            ],
    {
        let mut v: Vec<ExprKind> = Vec::new();
        v.push(ExprKind::Add);
        v.push(ExprKind::Command);
        v.push(ExprKind::F64);
        v.push(ExprKind::F64Lit);
        v.push(ExprKind::Let);
        v.push(ExprKind::Trivial);
        v.push(ExprKind::Sole);
        v.push(ExprKind::U);
        v.push(ExprKind::Var);
        v
    }
}

impl SpecExpr {
    /// The tag of the expression's outermost form.
    pub open spec fn kind(self) -> ExprKind {
        match self {
            SpecExpr::Add(_, _) => ExprKind::Add,
            SpecExpr::Command(_) => ExprKind::Command,
            SpecExpr::F64 => ExprKind::F64,
            SpecExpr::F64Lit(_) => ExprKind::F64Lit,
            SpecExpr::Let(_, _, _) => ExprKind::Let,
            SpecExpr::Trivial => ExprKind::Trivial,
            SpecExpr::Sole => ExprKind::Sole,
            SpecExpr::U(_) => ExprKind::U,
            SpecExpr::Var(_) => ExprKind::Var,
        }
    }
}

impl Expr {
    /// The tag of the expression's outermost form.
    pub fn kind(&self) -> (k: ExprKind)
        ensures
            k == self@.kind(),
    {
        match self {
            Expr::Add(_, _) => ExprKind::Add,
            Expr::Command(_) => ExprKind::Command,
            Expr::F64 => ExprKind::F64,
            Expr::F64Lit(_) => ExprKind::F64Lit,
            Expr::Let(_, _, _) => ExprKind::Let,
            Expr::Trivial => ExprKind::Trivial,
            Expr::Sole => ExprKind::Sole,
            Expr::U(_) => ExprKind::U,
            Expr::Var(_) => ExprKind::Var,
        }
    }
}

/// The forms that may stand where a value of type `t` is expected, in the
/// order in which an editor offers them. A variable may stand anywhere; it
/// always comes first.
pub open spec fn kinds_for(t: SpecValue) -> Seq<ExprKind> {
    match t {
        SpecValue::Command(p) => if *p == SpecValue::Trivial {
            seq![ExprKind::Var, ExprKind::Let]
        } else {
            seq![ExprKind::Var]
        },
        SpecValue::F64 => seq![ExprKind::Var, ExprKind::F64Lit],
        SpecValue::Trivial => seq![ExprKind::Var, ExprKind::Sole],
        SpecValue::U(i) => if i > 0 {
            seq![ExprKind::Var, ExprKind::U]
        } else {
            seq![ExprKind::Var]
        },
        _ => seq![ExprKind::Var],
    }
}

/// Lists the forms that may stand where a value of type `t` is expected.
pub fn get_kinds(t: &Type) -> (kinds: Vec<ExprKind>)
    ensures
        kinds@ == kinds_for(t@),
{
    proof {
        reveal_with_fuel(Value::model, 2);
    }
    let mut kinds: Vec<ExprKind> = Vec::new();
    kinds.push(ExprKind::Var);
    match t {
        Value::Command(p) => match &**p {
            Value::Trivial => kinds.push(ExprKind::Let),
            _ => {},
        },
        Value::F64 => kinds.push(ExprKind::F64Lit),
        Value::Trivial => kinds.push(ExprKind::Sole),
        Value::U(i) => if *i > 0 {
            kinds.push(ExprKind::U)
        },
        _ => {},
    }
    kinds
}

} // verus!
