//! The typing judgement on values, stated directly.

use crate::syntax::{Level, MAX_LEVEL};
use crate::value::SpecValue;
use vstd::prelude::*;

verus! {

impl SpecValue {
    /// The least universe that holds this value, if the value is a type:
    /// `F64` and `Trivial` live in `U(0)`, `U(i)` lives in `U(i + 1)`, and a
    /// command type lives where its payload lives. `U(MAX_LEVEL)` has no
    /// universe above it.
    pub open spec fn level(self) -> Option<Level>
        decreases self,
    {
        match self {
            SpecValue::Command(v) => v.level(),
            SpecValue::F64 => Some(0),
            SpecValue::Trivial => Some(0),
            SpecValue::U(i) => if i < MAX_LEVEL {
                Some((i + 1) as Level)
            } else {
                None
            },
            _ => None,
        }
    }

    /// The judgement `self : t`.
    pub open spec fn inhabits(self, t: SpecValue) -> bool
        decreases self,
    {
        match (self, t) {
            (SpecValue::Command(v), SpecValue::U(_)) => v.inhabits(t),
            (SpecValue::F64, SpecValue::U(_)) => true,
            (SpecValue::F64Lit(_), SpecValue::F64) => true,
            (SpecValue::Let(_, v, w), SpecValue::Command(p)) => {
                &&& *p == SpecValue::Trivial
                &&& v.inhabits(SpecValue::U(MAX_LEVEL))
                &&& w.inhabits(*v)
            },
            (SpecValue::Trivial, SpecValue::U(_)) => true,
            (SpecValue::Sole, SpecValue::Trivial) => true,
            (SpecValue::U(i), SpecValue::U(j)) => i < j,
            _ => false,
        }
    }

    /// The type of a value: the least universe for a type, `F64` for a
    /// number, `Trivial` for `Sole`, and `Command(Trivial)` for a `Let` whose
    /// first part is a type that its second part inhabits. A value that
    /// inhabits no type at all has none.
    pub open spec fn type_of(self) -> Option<SpecValue> {
        match self {
            SpecValue::F64Lit(_) => Some(SpecValue::F64),
            SpecValue::Sole => Some(SpecValue::Trivial),
            SpecValue::Let(_, v, w) => if v.level() is Some && w.inhabits(*v) {
                Some(SpecValue::Command(Box::new(SpecValue::Trivial)))
            } else {
                None
            },
            _ => match self.level() {
                Some(l) => Some(SpecValue::U(l)),
                None => None,
            },
        }
    }

    /// No `Let` occurs in the value.
    pub open spec fn let_free(self) -> bool
        decreases self,
    {
        match self {
            SpecValue::Command(v) => v.let_free(),
            SpecValue::Let(_, _, _) => false,
            _ => true,
        }
    }
}

} // verus!
