//! Command descriptors: what one backend function looks like from the
//! frontend's side of the boundary.

use vstd::prelude::*;

verus! {

/// The typed shape of a command: its ordered parameters, what it returns,
/// and whether it can report a failure to its caller.
///
/// Types are carried by name only; how values are encoded across the
/// boundary is left to the handler.
#[derive(Clone, Debug, PartialEq, Eq)]
pub struct Signature {
    /// The type of each parameter, in call order.
    pub params: Vec<String>,
    /// The type of the returned value, or `None` for a command that returns nothing.
    pub returns: Option<String>,
    /// Whether the command can signal an error back to the caller.
    pub fallible: bool,
}

impl Signature {
    /// The signature of a command that takes nothing, returns nothing and cannot fail.
    pub fn new() -> (s: Self)
        ensures
            s.params@.len() == 0,
            s.returns is None,
            !s.fallible,
    {
        Signature { params: Vec::new(), returns: None, fallible: false }
    }

    /// Adds one parameter of type `ty` after those already present.
    pub fn param(self, ty: &str) -> (s: Self)
        ensures
            s.params@.len() == self.params@.len() + 1,
            s.params@[self.params@.len() as int]@ == ty@,
            forall|i: int| 0 <= i < self.params@.len() ==> s.params@[i] == self.params@[i],
            s.returns == self.returns,
            s.fallible == self.fallible,
    {
        let mut s = self;
        s.params.push(ty.to_owned());
        s
    }

    /// Sets the type of the returned value to `ty`.
    pub fn returning(self, ty: &str) -> (s: Self)
        ensures
            s.params == self.params,
            s.returns matches Some(t) && t@ == ty@,
            s.fallible == self.fallible,
    {
        let mut s = self;
        s.returns = Some(ty.to_owned());
        s
    }

    /// Marks the command as one that can fail.
    pub fn failing(self) -> (s: Self)
        ensures
            s.params == self.params,
            s.returns == self.returns,
            s.fallible,
    {
        let mut s = self;
        s.fallible = true;
        s
    }

    /// The number of parameters.
    pub fn arity(&self) -> (n: usize)
        ensures
            n == self.params@.len(),
    {
        self.params.len()
    }
}

/// One callable unit: a name, a signature, and the handler that does the work.
pub struct Command<H> {
    /// The key by which the frontend invokes the command.
    pub name: String,
    /// The command's typed shape.
    pub signature: Signature,
    /// The backend function itself.
    pub handler: H,
}

impl<H> Command<H> {
    /// The command's name.
    pub fn name(&self) -> (n: &str)
        ensures
            n@ == self.name@,
    {
        self.name.as_str()
    }

    /// The command's signature.
    pub fn signature(&self) -> (s: &Signature)
        ensures
            *s == self.signature,
    {
        &self.signature
    }

    /// The command's handler.
    pub fn handler(&self) -> (h: &H)
        ensures
            *h == self.handler,
    {
        &self.handler
    }
}

} // verus!
