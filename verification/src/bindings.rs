//! Finite maps from names to values: the typing context and the evaluation
//! environment.

use crate::syntax::Name;
use crate::value::{SpecValue, Value};
use vstd::prelude::*;

verus! {

/// One name with what it is bound to.
pub struct Binding {
    pub name: Name,
    pub value: Value,
}

impl Binding {
    /// The binding as a pair of plain values.
    pub open spec fn pair(self) -> (Seq<char>, SpecValue) {
        (self.name@, self.value@)
    }
}

/// The map that a list of bindings denotes: a later binding of a name
/// replaces an earlier one.
pub open spec fn bound(s: Seq<(Seq<char>, SpecValue)>) -> Map<Seq<char>, SpecValue>
    decreases s.len(),
{
    if s.len() == 0 {
        Map::empty()
    } else {
        bound(s.drop_last()).insert(s.last().0, s.last().1)
    }
}

/// A name bound at `i` and nowhere later is mapped to the value at `i`.
pub proof fn lemma_bound_found(s: Seq<(Seq<char>, SpecValue)>, key: Seq<char>, i: int)
    requires
        0 <= i < s.len(),
        s[i].0 == key,
        forall|j: int| i < j < s.len() ==> s[j].0 != key,
    ensures
        bound(s).contains_key(key),
        bound(s)[key] == s[i].1,
    decreases s.len(),
{
    if i < s.len() - 1 {
        lemma_bound_found(s.drop_last(), key, i);
    }
}

/// A name bound nowhere is not in the map.
pub proof fn lemma_bound_missing(s: Seq<(Seq<char>, SpecValue)>, key: Seq<char>)
    requires
        forall|j: int| 0 <= j < s.len() ==> s[j].0 != key,
    ensures
        !bound(s).contains_key(key),
    decreases s.len(),
{
    if s.len() > 0 {
        lemma_bound_missing(s.drop_last(), key);
    }
}

/// A finite map from names to values. Looking a name up finds its latest
/// binding.
pub struct Bindings {
    pub entries: Vec<Binding>,
}

/// The typing context: the type of each variable in scope.
pub type Context = Bindings;

impl Bindings {
    /// The bindings in the order in which they were made.
    pub open spec fn pairs(&self) -> Seq<(Seq<char>, SpecValue)> {
        self.entries@.map_values(|b: Binding| b.pair())
    }
}

impl View for Bindings {
    type V = Map<Seq<char>, SpecValue>;

    open spec fn view(&self) -> Map<Seq<char>, SpecValue> {
        bound(self.pairs())
    }
}

impl Bindings {
    /// The empty map.
    pub fn new() -> (r: Self)
        ensures
            r@ == Map::<Seq<char>, SpecValue>::empty(),
    {
        Bindings { entries: Vec::new() }
    }

    /// Binds `name` to `value`, in place of what it was bound to before.
    pub fn insert(&mut self, name: Name, value: Value)
        ensures
            final(self)@ == old(self)@.insert(name@, value@),
    {
        let ghost before = self.pairs();
        self.entries.push(Binding { name, value });
        proof {
            assert(self.pairs().drop_last() =~= before);
        }
    }

    /// The value that `name` is bound to, if it is bound.
    pub fn get(&self, name: &Name) -> (r: Option<&Value>)
        ensures
            match r {
                Some(v) => self@.contains_key(name@) && v@ == self@[name@],
                None => !self@.contains_key(name@),
            },
    {
        let mut i: usize = self.entries.len();
        while i > 0
            invariant
                i <= self.entries.len(),
                forall|j: int| i <= j < self.entries.len() ==> self.pairs()[j].0 != name@,
            decreases i,
        {
            i = i - 1;
            if self.entries[i].name == *name {
                proof {
                    lemma_bound_found(self.pairs(), name@, i as int);
                }
                return Some(&self.entries[i].value);
            }
        }
        proof {
            lemma_bound_missing(self.pairs(), name@);
        }
        None
    }
}

impl Clone for Bindings {
    fn clone(&self) -> (r: Self)
        ensures
            r@ == self@,
    {
        let mut entries: Vec<Binding> = Vec::new();
        let mut i: usize = 0;
        while i < self.entries.len()
            invariant
                i <= self.entries.len(),
                entries@.len() == i,
                forall|j: int| 0 <= j < i ==> entries@[j].pair() == self.entries@[j].pair(),
            decreases self.entries.len() - i,
        {
            let b = &self.entries[i];
            entries.push(Binding { name: b.name.clone(), value: b.value.clone() });
            i = i + 1;
        }
        let r = Bindings { entries };
        proof {
            assert(r.pairs() =~= self.pairs());
        }
        r
    }
}

/// The evaluation environment: the value of each variable in scope, and the
/// adder that sums two number literals given by their bit patterns.
///
/// The adder has to be a function: it accepts every pair of patterns, and
/// what it promises of a pair determines the sum.
pub struct Env<'a, F: Fn(u64, u64) -> u64> {
    pub(crate) bindings: Bindings,
    pub(crate) adder: &'a F,
}

/// `f` can be called on every pair of patterns, and its result on a pair is
/// determined by the pair.
pub open spec fn is_adder<F: Fn(u64, u64) -> u64>(f: &F) -> bool {
    &&& forall|a: u64, b: u64| #[trigger] f.requires((a, b))
    &&& forall|a: u64, b: u64, s: u64, t: u64|
        #[trigger] f.ensures((a, b), s) && #[trigger] f.ensures((a, b), t) ==> s == t
}

/// The function that an adder computes.
pub open spec fn sum_of<F: Fn(u64, u64) -> u64>(f: &F) -> spec_fn(u64, u64) -> u64 {
    |a: u64, b: u64| choose|s: u64| f.ensures((a, b), s)
}

impl<'a, F: Fn(u64, u64) -> u64> Env<'a, F> {
    #[verifier::type_invariant]
    spec fn inv(&self) -> bool {
        is_adder(self.adder)
    }

    /// The adder of this environment.
    pub closed spec fn adder(&self) -> &'a F {
        self.adder
    }

    /// The sum of two patterns, as this environment's adder computes it.
    pub open spec fn sum(&self) -> spec_fn(u64, u64) -> u64 {
        sum_of(self.adder())
    }

    /// An environment that binds no name.
    pub fn new(adder: &'a F) -> (r: Self)
        requires
            is_adder(adder),
        ensures
            r@ == Map::<Seq<char>, SpecValue>::empty(),
            r.adder() == adder,
    {
        Env { bindings: Bindings::new(), adder }
    }

    /// An environment that binds what `bindings` binds.
    pub fn with_bindings(bindings: Bindings, adder: &'a F) -> (r: Self)
        requires
            is_adder(adder),
        ensures
            r@ == bindings@,
            r.adder() == adder,
    {
        Env { bindings, adder }
    }

    /// The value that `name` is bound to, if it is bound.
    pub fn get(&self, name: &Name) -> (r: Option<&Value>)
        ensures
            match r {
                Some(v) => self@.contains_key(name@) && v@ == self@[name@],
                None => !self@.contains_key(name@),
            },
    {
        self.bindings.get(name)
    }

    /// A copy of this environment in which `name` is bound to `value`. The
    /// environment itself is left as it is.
    pub fn extended(&self, name: Name, value: Value) -> (r: Self)
        ensures
            r@ == self@.insert(name@, value@),
            r.adder() == self.adder(),
    {
        proof {
            use_type_invariant(self);
        }
        let mut bindings = self.bindings.clone();
        bindings.insert(name, value);
        Env { bindings, adder: self.adder }
    }

    /// Adds two number literals with this environment's adder.
    pub fn plus(&self, a: u64, b: u64) -> (s: u64)
        ensures
            s == (self.sum())(a, b),
            self.adder().ensures((a, b), s),
    {
        proof {
            use_type_invariant(self);
        }
        (self.adder)(a, b)
    }
}

impl<'a, F: Fn(u64, u64) -> u64> View for Env<'a, F> {
    type V = Map<Seq<char>, SpecValue>;

    closed spec fn view(&self) -> Map<Seq<char>, SpecValue> {
        self.bindings@
    }
}

} // verus!
