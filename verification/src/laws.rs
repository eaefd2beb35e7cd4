//! What holds of the calculus as a whole.

use crate::check::SpecTypeError;
use crate::eval::SpecEvalError;
use crate::kind::{kinds_for, ExprKind};
use crate::print::parenthesized;
use crate::syntax::{Level, SpecExpr, MAX_LEVEL};
use crate::value::SpecValue;
use vstd::prelude::*;

verus! {

impl SpecExpr {
    /// The number that a sum of literals denotes: its literals, added as the
    /// tree groups them.
    pub open spec fn total(self, sum: spec_fn(u64, u64) -> u64) -> u64
        decreases self,
    {
        match self {
            SpecExpr::F64Lit(n) => n,
            SpecExpr::Add(a, b) => sum(a.total(sum), b.total(sum)),
            _ => 0,
        }
    }

    /// Neither a sum nor a variable occurs in the expression.
    pub open spec fn normal(self) -> bool
        decreases self,
    {
        match self {
            SpecExpr::Add(_, _) => false,
            SpecExpr::Var(_) => false,
            SpecExpr::Command(a) => a.normal(),
            SpecExpr::Let(_, a, b) => a.normal() && b.normal(),
            _ => true,
        }
    }

    /// The expression is built from `F64`, `Trivial`, a universe or a
    /// variable by wrapping it in `Command` any number of times.
    pub open spec fn type_former(self) -> bool
        decreases self,
    {
        match self {
            SpecExpr::Command(a) => a.type_former(),
            SpecExpr::F64 => true,
            SpecExpr::Trivial => true,
            SpecExpr::U(_) => true,
            SpecExpr::Var(_) => true,
            _ => false,
        }
    }
}

/// A sum of number literals checks against `F64`, a sum infers `F64`, and the
/// value of the sum is the number that the adder gives for its literals.
pub proof fn law_literal_sum(
    e: SpecExpr,
    cx: Map<Seq<char>, SpecValue>,
    env: Map<Seq<char>, SpecValue>,
    sum: spec_fn(u64, u64) -> u64,
)
    requires
        e.literal_sum(),
    ensures
        e.check(SpecValue::F64, cx, env, sum) == Ok::<(), SpecTypeError>(()),
        e is Add ==> e.infer(cx, env, sum) == Ok::<SpecValue, SpecTypeError>(SpecValue::F64),
        e.eval(env, sum) == Ok::<SpecValue, SpecEvalError>(SpecValue::F64Lit(e.total(sum))),
    decreases e,
{
    match e {
        SpecExpr::Add(a, b) => {
            law_literal_sum(*a, cx, env, sum);
            law_literal_sum(*b, cx, env, sum);
        },
        _ => {},
    }
}

/// A closed expression that checks against `F64` is a literal or a sum of
/// literals.
pub proof fn law_closed_numbers(
    e: SpecExpr,
    env: Map<Seq<char>, SpecValue>,
    sum: spec_fn(u64, u64) -> u64,
)
    requires
        e.check(SpecValue::F64, Map::empty(), env, sum) is Ok,
    ensures
        e.literal_sum(),
    decreases e,
{
    let cx = Map::<Seq<char>, SpecValue>::empty();
    match e {
        SpecExpr::F64Lit(_) => {},
        SpecExpr::Add(a, b) => {
            assert(e.infer(cx, env, sum) is Ok);
            law_closed_numbers(*a, env, sum);
            law_closed_numbers(*b, env, sum);
        },
        _ => {
            assert(e.infer(cx, env, sum) is Err);
        },
    }
}

/// An expression that checks against `F64` evaluates to a number, provided
/// that the environment binds every variable of type `F64` to a number.
pub proof fn law_numbers_evaluate(
    e: SpecExpr,
    cx: Map<Seq<char>, SpecValue>,
    env: Map<Seq<char>, SpecValue>,
    sum: spec_fn(u64, u64) -> u64,
)
    requires
        e.check(SpecValue::F64, cx, env, sum) is Ok,
        forall|x: Seq<char>| #[trigger]
            cx.contains_key(x) && cx[x] == SpecValue::F64 ==> env.contains_key(x)
                && env[x] is F64Lit,
    ensures
        e.eval(env, sum) matches Ok(v) && v is F64Lit,
    decreases e,
{
    match e {
        SpecExpr::F64Lit(_) => {},
        SpecExpr::Add(a, b) => {
            assert(e.infer(cx, env, sum) is Ok);
            law_numbers_evaluate(*a, cx, env, sum);
            law_numbers_evaluate(*b, cx, env, sum);
        },
        SpecExpr::Var(x) => {
            assert(e.infer(cx, env, sum) is Ok);
            law_quote_injective(cx[x], SpecValue::F64);
        },
        _ => {
            assert(e.infer(cx, env, sum) is Err);
        },
    }
}

/// `U(i)` checks against `U(j)` exactly if `i < j`; otherwise the checker
/// reports that `U(i)` has no type to infer.
pub proof fn law_universe_cumulativity(
    i: Level,
    j: Level,
    cx: Map<Seq<char>, SpecValue>,
    env: Map<Seq<char>, SpecValue>,
    sum: spec_fn(u64, u64) -> u64,
)
    ensures
        SpecExpr::U(i).check(SpecValue::U(j), cx, env, sum) is Ok <==> i < j,
        i >= j ==> SpecExpr::U(i).check(SpecValue::U(j), cx, env, sum) == Err::<(), SpecTypeError>(
            SpecTypeError::CannotInfer(SpecExpr::U(i)),
        ),
{
    assert(SpecExpr::U(i).infer(cx, env, sum) == Err::<SpecValue, SpecTypeError>(
        SpecTypeError::CannotInfer(SpecExpr::U(i)),
    ));
}

/// A variable that the context does not bind has no type: inference reports
/// it as unbound.
pub proof fn law_unbound_variable(
    x: Seq<char>,
    cx: Map<Seq<char>, SpecValue>,
    env: Map<Seq<char>, SpecValue>,
    sum: spec_fn(u64, u64) -> u64,
)
    requires
        !cx.contains_key(x),
    ensures
        SpecExpr::Var(x).infer(cx, env, sum) == Err::<SpecValue, SpecTypeError>(
            SpecTypeError::UnboundVariable(x),
        ),
{
}

/// Quoting is injective: values with the same quotation are the same value.
pub proof fn law_quote_injective(v: SpecValue, w: SpecValue)
    requires
        v.quote() == w.quote(),
    ensures
        v == w,
    decreases v,
{
    match (v, w) {
        (SpecValue::Command(a), SpecValue::Command(b)) => {
            law_quote_injective(*a, *b);
        },
        (SpecValue::Let(_, a, b), SpecValue::Let(_, c, d)) => {
            law_quote_injective(*a, *c);
            law_quote_injective(*b, *d);
        },
        _ => {},
    }
}

/// The quotation of a value is in normal form: it holds no sum and no
/// variable.
pub proof fn law_quote_normal(v: SpecValue)
    ensures
        v.quote().normal(),
    decreases v,
{
    match v {
        SpecValue::Command(a) => {
            law_quote_normal(*a);
        },
        SpecValue::Let(_, a, b) => {
            law_quote_normal(*a);
            law_quote_normal(*b);
        },
        _ => {},
    }
}

/// A value without `Let` is the value of its own quotation, in every
/// environment.
pub proof fn law_eval_quote(
    v: SpecValue,
    env: Map<Seq<char>, SpecValue>,
    sum: spec_fn(u64, u64) -> u64,
)
    requires
        v.let_free(),
    ensures
        v.quote().eval(env, sum) == Ok::<SpecValue, SpecEvalError>(v),
    decreases v,
{
    match v {
        SpecValue::Command(a) => {
            law_eval_quote(*a, env, sum);
        },
        _ => {},
    }
}

/// A value that is a type has no `Let` in it.
pub proof fn lemma_types_let_free(v: SpecValue)
    requires
        v.level() is Some,
    ensures
        v.let_free(),
    decreases v,
{
    match v {
        SpecValue::Command(a) => {
            lemma_types_let_free(*a);
        },
        _ => {},
    }
}

/// A value inhabits `U(j)` exactly if it is a type whose least universe is at
/// most `j`.
pub proof fn law_universe_members(v: SpecValue, j: Level)
    ensures
        v.inhabits(SpecValue::U(j)) <==> (v.level() matches Some(l) && l <= j),
    decreases v,
{
    match v {
        SpecValue::Command(a) => {
            law_universe_members(*a, j);
        },
        _ => {},
    }
}

/// The checker accepts the quotation of a value at a type exactly if the
/// value inhabits the type, whatever the context, the environment and the
/// adder.
pub proof fn law_check_quote(
    v: SpecValue,
    t: SpecValue,
    cx: Map<Seq<char>, SpecValue>,
    env: Map<Seq<char>, SpecValue>,
    sum: spec_fn(u64, u64) -> u64,
)
    ensures
        v.quote().check(t, cx, env, sum) is Ok <==> v.inhabits(t),
    decreases v,
{
    assert(v.quote().infer(cx, env, sum) is Err);
    match (v, t) {
        (SpecValue::Command(a), SpecValue::U(_)) => {
            law_check_quote(*a, t, cx, env, sum);
        },
        (SpecValue::Let(_, a, b), SpecValue::Command(p)) => {
            if *p == SpecValue::Trivial {
                let top = SpecValue::U(MAX_LEVEL);
                law_check_quote(*a, top, cx, env, sum);
                if a.inhabits(top) {
                    law_universe_members(*a, MAX_LEVEL);
                    lemma_types_let_free(*a);
                    law_eval_quote(*a, env, sum);
                    law_check_quote(*b, *a, cx, env, sum);
                }
            }
        },
        _ => {},
    }
}

/// The type of a value is a type that the value inhabits, and a value
/// without a type inhabits nothing.
pub proof fn law_type_of(v: SpecValue, t: SpecValue)
    ensures
        v.type_of() matches Some(s) ==> v.inhabits(s),
        v.type_of() is None ==> !v.inhabits(t),
{
    match v {
        SpecValue::Let(_, a, _) => {
            law_universe_members(*a, MAX_LEVEL);
        },
        _ => {
            match v.level() {
                Some(l) => {
                    law_universe_members(v, l);
                },
                None => {},
            }
            match t {
                SpecValue::U(j) => {
                    law_universe_members(v, j);
                },
                _ => {},
            }
        },
    }
}

/// Quoting a value and checking the quotation against the type of the value
/// succeeds; the quotation of a value without a type checks against nothing.
pub proof fn law_quote_check_round_trip(
    v: SpecValue,
    t: SpecValue,
    cx: Map<Seq<char>, SpecValue>,
    env: Map<Seq<char>, SpecValue>,
    sum: spec_fn(u64, u64) -> u64,
)
    ensures
        v.type_of() matches Some(s) ==> v.quote().check(s, cx, env, sum) == Ok::<
            (),
            SpecTypeError,
        >(()),
        v.type_of() is None ==> v.quote().check(t, cx, env, sum) is Err,
{
    law_type_of(v, t);
    law_check_quote(v, t, cx, env, sum);
    match v.type_of() {
        Some(s) => {
            law_type_of(v, s);
            law_check_quote(v, s, cx, env, sum);
            let r = v.quote().check(s, cx, env, sum);
            assert(r is Ok);
            assert(r == Ok::<(), SpecTypeError>(r->Ok_0));
        },
        None => {},
    }
}

/// An expression that checks against a universe is a type former.
pub proof fn law_types_are_formers(
    e: SpecExpr,
    l: Level,
    cx: Map<Seq<char>, SpecValue>,
    env: Map<Seq<char>, SpecValue>,
    sum: spec_fn(u64, u64) -> u64,
)
    requires
        e.check(SpecValue::U(l), cx, env, sum) is Ok,
    ensures
        e.type_former(),
    decreases e,
{
    match e {
        SpecExpr::Command(a) => {
            law_types_are_formers(*a, l, cx, env, sum);
        },
        SpecExpr::Add(_, _) => {
            assert(e.infer(cx, env, sum) matches Ok(t) ==> t == SpecValue::F64);
        },
        SpecExpr::Var(_) => {},
        _ => {
            assert(e.infer(cx, env, sum) is Err);
        },
    }
}

/// The value of a type former does not depend on the adder, and evaluating
/// it never fails with a type mismatch.
pub proof fn law_formers_need_no_adder(
    e: SpecExpr,
    env: Map<Seq<char>, SpecValue>,
    sum: spec_fn(u64, u64) -> u64,
    other: spec_fn(u64, u64) -> u64,
)
    requires
        e.type_former(),
    ensures
        e.eval(env, sum) == e.eval(env, other),
        e.eval(env, sum) != Err::<SpecValue, SpecEvalError>(SpecEvalError::TypeMismatch),
    decreases e,
{
    match e {
        SpecExpr::Command(a) => {
            law_formers_need_no_adder(*a, env, sum, other);
        },
        _ => {},
    }
}

/// Checking never adds two numbers: the outcome of a check is the same under
/// every adder.
pub proof fn law_check_needs_no_adder(
    e: SpecExpr,
    t: SpecValue,
    cx: Map<Seq<char>, SpecValue>,
    env: Map<Seq<char>, SpecValue>,
    sum: spec_fn(u64, u64) -> u64,
    other: spec_fn(u64, u64) -> u64,
)
    ensures
        e.check(t, cx, env, sum) == e.check(t, cx, env, other),
        e.infer(cx, env, sum) == e.infer(cx, env, other),
    decreases e,
{
    match e {
        SpecExpr::Command(a) => {
            law_check_needs_no_adder(*a, t, cx, env, sum, other);
        },
        SpecExpr::Add(a, b) => {
            law_check_needs_no_adder(*a, SpecValue::F64, cx, env, sum, other);
            law_check_needs_no_adder(*b, SpecValue::F64, cx, env, sum, other);
        },
        SpecExpr::Let(_, a, b) => {
            let top = SpecValue::U(MAX_LEVEL);
            law_check_needs_no_adder(*a, top, cx, env, sum, other);
            if a.check(top, cx, env, sum) is Ok {
                law_types_are_formers(*a, MAX_LEVEL, cx, env, sum);
                law_formers_need_no_adder(*a, env, sum, other);
                match a.eval(env, sum) {
                    Ok(t1) => {
                        law_check_needs_no_adder(*b, t1, cx, env, sum, other);
                    },
                    Err(_) => {},
                }
            }
        },
        _ => {},
    }
}

/// Each tag is read back from its own name.
pub proof fn law_kind_round_trip(k: ExprKind)
    ensures
        ExprKind::named(k.name()) == Some(k),
{
    reveal_kind_names();
    assert(k.name().len() > 0);
    assert(k.name()[0] == 'F' ==> k.name().len() == 3 || k.name()[3] == 'L');
}

/// A text that names a tag is the name of that tag.
pub proof fn law_name_round_trip(s: Seq<char>)
    ensures
        ExprKind::named(s) matches Some(k) ==> k.name() == s,
{
}

/// The names of the tags, character by character.
pub proof fn reveal_kind_names()
    ensures
        "Add"@ == seq!['A', 'd', 'd'],
        "Command"@ == seq!['C', 'o', 'm', 'm', 'a', 'n', 'd'],
        "F64"@ == seq!['F', '6', '4'],
        "F64Lit"@ == seq!['F', '6', '4', 'L', 'i', 't'],
        "Let"@ == seq!['L', 'e', 't'],
        "Trivial"@ == seq!['T', 'r', 'i', 'v', 'i', 'a', 'l'],
        "Sole"@ == seq!['S', 'o', 'l', 'e'],
        "U"@ == seq!['U'],
        "Var"@ == seq!['V', 'a', 'r'],
{
    reveal_strlit("Add");
    reveal_strlit("Command");
    reveal_strlit("F64");
    reveal_strlit("F64Lit");
    reveal_strlit("Let");
    reveal_strlit("Trivial");
    reveal_strlit("Sole");
    reveal_strlit("U");
    reveal_strlit("Var");
    assert("Add"@ =~= seq!['A', 'd', 'd']);
    assert("Command"@ =~= seq!['C', 'o', 'm', 'm', 'a', 'n', 'd']);
    assert("F64"@ =~= seq!['F', '6', '4']);
    assert("F64Lit"@ =~= seq!['F', '6', '4', 'L', 'i', 't']);
    assert("Let"@ =~= seq!['L', 'e', 't']);
    assert("Trivial"@ =~= seq!['T', 'r', 'i', 'v', 'i', 'a', 'l']);
    assert("Sole"@ =~= seq!['S', 'o', 'l', 'e']);
    assert("U"@ =~= seq!['U']);
    assert("Var"@ =~= seq!['V', 'a', 'r']);
}

/// A variable is offered at every type, and it is offered first.
pub proof fn law_variable_offered_first(t: SpecValue)
    ensures
        kinds_for(t).len() >= 1,
        kinds_for(t)[0] == ExprKind::Var,
{
}

/// The operands of a sum are printed without parentheses: no form binds
/// looser than a sum.
pub proof fn law_sum_operands_bare(a: SpecExpr, b: SpecExpr, number: spec_fn(u64) -> Seq<char>)
    ensures
        SpecExpr::Add(Box::new(a), Box::new(b)).render(number) == a.render(number) + " + "@
            + b.render(number),
{
}

} // verus!
