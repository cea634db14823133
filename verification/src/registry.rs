//! The command registry: the list of backend functions that the frontend
//! may call, keyed by name.
//!
//! Names are identifiers and no two commands share one; a declaration that
//! would break either rule is refused and leaves the registry as it was.

use vstd::prelude::*;
use crate::command::{Command, Signature};
use crate::name::{is_identifier, valid_name};

verus! {

/// Why a declaration was refused.
#[derive(Clone, Copy, Debug, PartialEq, Eq, Structural)]
pub enum DeclareError {
    /// The name is not an identifier.
    InvalidName,
    /// A command of that name has been declared already.
    DuplicateName,
}

/// Why a lookup by name failed.
#[derive(Clone, Copy, Debug, PartialEq, Eq, Structural)]
pub enum ResolveError {
    /// No command of that name has been declared.
    NotFound,
}

/// The names of `units`, in order.
pub open spec fn names_of<H>(units: Seq<Command<H>>) -> Seq<Seq<char>> {
    Seq::new(units.len(), |i: int| units[i].name@)
}

/// Whether `units` may stand in a registry: every name is an identifier and
/// no name occurs twice.
pub open spec fn well_formed<H>(units: Seq<Command<H>>) -> bool {
    &&& forall|i: int| 0 <= i < units.len() ==> is_identifier(#[trigger] units[i].name@)
    &&& forall|i: int, j: int|
        0 <= i < units.len() && 0 <= j < units.len() && i != j
            ==> #[trigger] units[i].name@ != #[trigger] units[j].name@
}

/// Whether some unit of `units` is called `name`.
pub open spec fn declares<H>(units: Seq<Command<H>>, name: Seq<char>) -> bool {
    exists|i: int| 0 <= i < units.len() && #[trigger] units[i].name@ == name
}

/// The unit of `units` that is called `name`, if there is one.
pub open spec fn find<H>(units: Seq<Command<H>>, name: Seq<char>) -> Option<Command<H>> {
    if declares(units, name) {
        Some(units[choose|i: int| 0 <= i < units.len() && #[trigger] units[i].name@ == name])
    } else {
        None
    }
}

/// Why a declaration of `name` is refused by a registry that holds `units`,
/// or `None` where it is accepted.
pub open spec fn refusal<H>(units: Seq<Command<H>>, name: Seq<char>) -> Option<DeclareError> {
    if !is_identifier(name) {
        Some(DeclareError::InvalidName)
    } else if declares(units, name) {
        Some(DeclareError::DuplicateName)
    } else {
        None
    }
}

/// Whether `after` is `before` with one more unit at its end, called `name`.
pub open spec fn extends<H>(after: Seq<Command<H>>, before: Seq<Command<H>>, name: Seq<char>) -> bool {
    &&& after.len() == before.len() + 1
    &&& after.drop_last() == before
    &&& after.last().name@ == name
}

/// The list of declared commands.
pub struct Registry<H> {
    units: Vec<Command<H>>,
}

impl<H> View for Registry<H> {
    type V = Seq<Command<H>>;

    /// The declared commands, in the order of their declaration.
    closed spec fn view(&self) -> Seq<Command<H>> {
        self.units@
    }
}

impl<H> Registry<H> {
    #[verifier::type_invariant]
    closed spec fn inv(&self) -> bool {
        well_formed(self.units@)
    }

    /// A registry with no commands: the frontend can call nothing.
    pub fn new() -> (r: Self)
        ensures
            r@.len() == 0,
            well_formed(r@),
    {
        Registry { units: Vec::new() }
    }

    /// The position of the command called `name`, if there is one.
    fn position(&self, name: &str) -> (p: Option<usize>)
        ensures
            match p {
                Some(i) => i < self@.len() && self@[i as int].name@ == name@,
                None => !declares(self@, name@),
            },
    {
        let key: String = name.to_owned();
        let mut i: usize = 0;
        while i < self.units.len()
            invariant
                key@ == name@,
                i <= self.units@.len(),
                forall|j: int| 0 <= j < i ==> self.units@[j].name@ != name@,
            decreases self.units@.len() - i,
        {
            if self.units[i].name == key {
                return Some(i);
            }
            i += 1;
        }
        None
    }

    /// Declares a command. The registry grows by that command where `name`
    /// is an identifier that no declared command bears, and is left
    /// unchanged otherwise.
    pub fn declare(&mut self, name: &str, signature: Signature, handler: H) -> (r: Result<
        (),
        DeclareError,
    >)
        ensures
            well_formed(final(self)@),
            r.err() == refusal(old(self)@, name@),
            match r {
                Ok(()) => {
                    &&& extends(final(self)@, old(self)@, name@)
                    &&& final(self)@.last().signature == signature
                    &&& final(self)@.last().handler == handler
                },
                Err(_) => final(self)@ == old(self)@,
            },
    {
        proof {
            use_type_invariant(&*self);
        }
        if !valid_name(name) {
            return Err(DeclareError::InvalidName);
        }
        if self.position(name).is_some() {
            return Err(DeclareError::DuplicateName);
        }
        let mut units: Vec<Command<H>> = Vec::new();
        std::mem::swap(&mut units, &mut self.units);
        units.push(Command { name: name.to_owned(), signature, handler });
        proof {
            assert(units@.drop_last() =~= old(self).units@);
            lemma_declared_once(old(self).units@, units@, name@);
        }
        self.units = units;
        Ok(())
    }

    /// The declared commands, in the order of their declaration. The
    /// registry is not changed, so every call returns the same commands.
    pub fn aggregate(&self) -> (units: &[Command<H>])
        ensures
            units@ == self@,
            well_formed(units@),
    {
        proof {
            use_type_invariant(self);
        }
        self.units.as_slice()
    }

    /// The number of declared commands.
    pub fn len(&self) -> (n: usize)
        ensures
            n == self@.len(),
    {
        self.units.len()
    }

    /// Whether no command has been declared.
    pub fn is_empty(&self) -> (b: bool)
        ensures
            b == (self@.len() == 0),
    {
        self.units.len() == 0
    }

    /// Whether a command called `name` has been declared.
    pub fn contains(&self, name: &str) -> (b: bool)
        ensures
            b == declares(self@, name@),
    {
        self.position(name).is_some()
    }

    /// The command called `name`, or `NotFound` where none bears that name.
    pub fn resolve(&self, name: &str) -> (r: Result<&Command<H>, ResolveError>)
        ensures
            match r {
                Ok(unit) => find(self@, name@) == Some(*unit),
                Err(e) => e == ResolveError::NotFound && find(self@, name@) is None,
            },
    {
        match self.position(name) {
            Some(i) => {
                proof {
                    use_type_invariant(self);
                    lemma_find_at(self.units@, name@, i as int);
                }
                Ok(&self.units[i])
            },
            None => Err(ResolveError::NotFound),
        }
    }

    /// Calls the command called `name` on `args` and returns what its
    /// handler returned, or `NotFound` where none bears that name.
    pub fn invoke<A, R>(&self, name: &str, args: A) -> (r: Result<R, ResolveError>) where
        H: Fn(A) -> R,

        requires
            find(self@, name@) matches Some(unit) ==> call_requires(unit.handler, (args,)),
        ensures
            match r {
                Ok(out) => find(self@, name@) matches Some(unit) && call_ensures(
                    unit.handler,
                    (args,),
                    out,
                ),
                Err(e) => e == ResolveError::NotFound && find(self@, name@) is None,
            },
    {
        match self.resolve(name) {
            Ok(unit) => {
                let handler = &unit.handler;
                Ok(handler(args))
            },
            Err(e) => Err(e),
        }
    }
}

/// In a well-formed list a name settles the unit: the unit at any position
/// that bears `name` is the one that `find` gives.
pub proof fn lemma_find_at<H>(units: Seq<Command<H>>, name: Seq<char>, i: int)
    requires
        well_formed(units),
        0 <= i < units.len(),
        units[i].name@ == name,
    ensures
        declares(units, name),
        find(units, name) == Some(units[i]),
{
    let k = choose|k: int| 0 <= k < units.len() && #[trigger] units[k].name@ == name;
    assert(k == i);
}

/// The names of a well-formed list are pairwise distinct.
pub proof fn lemma_names_distinct<H>(units: Seq<Command<H>>)
    requires
        well_formed(units),
    ensures
        names_of(units).no_duplicates(),
{
}

/// An accepted declaration keeps the list well-formed, and makes every
/// later declaration of the same name a duplicate.
pub proof fn lemma_declared_once<H>(before: Seq<Command<H>>, after: Seq<Command<H>>, name: Seq<char>)
    requires
        well_formed(before),
        refusal(before, name) is None,
        extends(after, before, name),
    ensures
        well_formed(after),
        refusal(after, name) == Some(DeclareError::DuplicateName),
{
    assert forall|i: int| 0 <= i < before.len() implies after[i] == before[i] by {
        assert(after.drop_last()[i] == after[i]);
    }
    assert(after[after.len() - 1].name@ == name);
}

/// A declaration is accepted exactly where the name is an identifier that
/// is not among the declared names, and one refused as a duplicate names a
/// unit that `find` gives.
pub proof fn lemma_refusal_exact<H>(units: Seq<Command<H>>, name: Seq<char>)
    ensures
        refusal(units, name) is None <==> is_identifier(name) && !names_of(units).contains(name),
        refusal(units, name) == Some(DeclareError::DuplicateName) ==> find(units, name) is Some,
{
    if declares(units, name) {
        let i = choose|i: int| 0 <= i < units.len() && #[trigger] units[i].name@ == name;
        assert(names_of(units)[i] == name);
    }
    if names_of(units).contains(name) {
        let i = choose|i: int| 0 <= i < names_of(units).len() && names_of(units)[i] == name;
        assert(units[i].name@ == name);
    }
}

/// Two aggregates of one registry hold the same commands, in whatever order
/// they are read.
pub proof fn lemma_aggregate_repeatable<H>(
    registry: Registry<H>,
    first: Seq<Command<H>>,
    second: Seq<Command<H>>,
)
    requires
        first == registry@,
        second == registry@,
    ensures
        first.to_multiset() == second.to_multiset(),
        names_of(first).to_set() == names_of(second).to_set(),
        forall|name: Seq<char>| find(first, name) == find(second, name),
{
}

} // verus!
