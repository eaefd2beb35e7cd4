//! A small dependently typed core calculus: syntax, values, a bidirectional
//! type checker, an evaluator and a printer.
//!
//! Number literals are carried as bit patterns. Whoever uses the library
//! supplies the two operations on numbers that the calculus needs: the adder
//! of an [`Env`] and the number writer of a [`Numerals`].

pub mod bindings;
pub mod check;
pub mod eval;
pub mod kind;
pub mod laws;
pub mod print;
pub mod syntax;
pub mod typing;
pub mod value;

pub use bindings::{Binding, Bindings, Context, Env};
pub use check::{expect_type, TypeError};
pub use eval::EvalError;
pub use kind::{get_kinds, ExprKind, ParseError};
pub use print::{level_text, Numerals, Prec};
pub use syntax::{Expr, Level, Name, MAX_LEVEL};
pub use value::{Type, Value};
