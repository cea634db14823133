//! One-shot startup of the application shell.
//!
//! The bootstrapper decides; it performs no I/O. It says which steps the
//! host has to carry out, in order, and then turns the host's report on the
//! runtime into either the running shell or the diagnostic to die with.

use vstd::prelude::*;
use vstd::string::StringExecFns;
use crate::command::Command;
use crate::registry::{find, names_of, Registry, ResolveError};

verus! {

/// Where the shell stands in its life.
#[derive(Clone, Copy, Debug, PartialEq, Eq, Structural)]
pub enum Phase {
    /// Startup has not succeeded yet.
    Uninitialized,
    /// The run loop has control; nothing but shutdown follows.
    Running,
}

/// A cross-cutting facility that is attached to the runtime before it starts.
#[derive(Clone, Copy, Debug, PartialEq, Eq, Structural)]
pub enum Facility {
    /// Logging, with its default settings.
    Logging,
}

/// One step of the startup sequence, for the host to carry out.
#[derive(Clone, Debug, PartialEq, Eq)]
pub enum Step {
    /// Construct the application runtime with its default configuration.
    ConstructRuntime,
    /// Attach a facility to the runtime.
    Attach(Facility),
    /// Make the commands of these names callable from the frontend.
    Install(Vec<String>),
}

/// What starts every startup diagnostic.
pub const STARTUP_FAILURE: &'static str = "error while running tauri application";

/// The diagnostic for a startup that failed because of `cause`.
pub open spec fn diagnostic_of(cause: Seq<char>) -> Seq<char> {
    STARTUP_FAILURE@ + ": "@ + cause
}

/// What the host reported of the runtime: `None` where it is ready, the
/// cause where it could not be constructed.
pub open spec fn failure_of(report: Result<(), String>) -> Option<Seq<char>> {
    match report {
        Ok(()) => None,
        Err(cause) => Some(cause@),
    }
}

/// What a startup over `units` comes to: the frontend surface to run with,
/// or the diagnostic to terminate with.
pub open spec fn startup<H>(units: Seq<Command<H>>, failure: Option<Seq<char>>) -> Result<
    Seq<Command<H>>,
    Seq<char>,
> {
    match failure {
        None => Ok(units),
        Some(cause) => Err(diagnostic_of(cause)),
    }
}

/// The names carried by `names`, each as a sequence of characters.
pub open spec fn views_of(names: Seq<String>) -> Seq<Seq<char>> {
    Seq::new(names.len(), |i: int| names[i]@)
}

/// A fatal startup failure. There is no recovery from it: the host is
/// unusable, and the process ends with the diagnostic.
#[derive(Debug)]
pub struct StartupError {
    diagnostic: String,
}

impl StartupError {
    /// The text of the diagnostic.
    pub closed spec fn message(&self) -> Seq<char> {
        self.diagnostic@
    }

    /// The diagnostic to emit before the process ends.
    pub fn diagnostic(&self) -> (text: &str)
        ensures
            text@ == self.message(),
    {
        self.diagnostic.as_str()
    }
}

/// The shell before startup: it holds the registry that will become the
/// frontend surface.
pub struct Bootstrapper<H> {
    registry: Registry<H>,
}

/// The shell after a successful startup: the frontend surface is fixed for
/// the rest of the process.
pub struct Running<H> {
    registry: Registry<H>,
}

impl<H> Bootstrapper<H> {
    /// The commands that startup will install.
    pub closed spec fn units(&self) -> Seq<Command<H>> {
        self.registry@
    }

    /// A shell that has not started, over `registry`.
    pub fn new(registry: Registry<H>) -> (b: Self)
        ensures
            b.units() == registry@,
    {
        Bootstrapper { registry }
    }

    /// Always `Uninitialized`.
    pub fn phase(&self) -> (p: Phase)
        ensures
            p == Phase::Uninitialized,
    {
        Phase::Uninitialized
    }

    /// The registry that startup will install.
    pub fn registry(&self) -> (r: &Registry<H>)
        ensures
            r@ == self.units(),
    {
        &self.registry
    }

    /// The steps of startup, in the order in which the host carries them
    /// out: construct the runtime, attach logging, install the commands.
    pub fn plan(&self) -> (steps: Vec<Step>)
        ensures
            steps@.len() == 3,
            steps@[0] == Step::ConstructRuntime,
            steps@[1] == Step::Attach(Facility::Logging),
            steps@[2] matches Step::Install(names) && views_of(names@) == names_of(self.units()),
    {
        let units = self.registry.aggregate();
        let mut names: Vec<String> = Vec::new();
        let mut i: usize = 0;
        while i < units.len()
            invariant
                i <= units@.len(),
                names@.len() == i,
                forall|j: int| 0 <= j < i ==> names@[j]@ == units@[j].name@,
            decreases units@.len() - i,
        {
            names.push(units[i].name.clone());
            i += 1;
        }
        proof {
            assert(views_of(names@) =~= names_of(units@));
        }
        let mut steps: Vec<Step> = Vec::new();
        steps.push(Step::ConstructRuntime);
        steps.push(Step::Attach(Facility::Logging));
        steps.push(Step::Install(names));
        steps
    }

    /// Ends startup on the host's report. A ready runtime gives the running
    /// shell, whose surface is the registry as it stands, however many
    /// commands it holds; a failed one gives the diagnostic for its cause.
    pub fn initialize(self, report: Result<(), String>) -> (r: Result<Running<H>, StartupError>)
        ensures
            startup(self.units(), failure_of(report)) == match r {
                Ok(shell) => Ok(shell.surface()),
                Err(e) => Err(e.message()),
            },
    {
        match report {
            Ok(()) => Ok(Running { registry: self.registry }),
            Err(cause) => {
                let mut diagnostic = String::from_str(STARTUP_FAILURE);
                diagnostic.append(": ");
                diagnostic.append(cause.as_str());
                Err(StartupError { diagnostic })
            },
        }
    }
}

impl<H> Running<H> {
    /// The commands that the frontend can call.
    pub closed spec fn surface(&self) -> Seq<Command<H>> {
        self.registry@
    }

    /// Always `Running`.
    pub fn phase(&self) -> (p: Phase)
        ensures
            p == Phase::Running,
    {
        Phase::Running
    }

    /// The registry that was installed.
    pub fn registry(&self) -> (r: &Registry<H>)
        ensures
            r@ == self.surface(),
    {
        &self.registry
    }

    /// Calls the command called `name` on `args`, as the frontend does, and
    /// returns what its handler returned, or `NotFound` where the surface
    /// holds no such command.
    pub fn invoke<A, R>(&self, name: &str, args: A) -> (r: Result<R, ResolveError>) where
        H: Fn(A) -> R,

        requires
            find(self.surface(), name@) matches Some(unit) ==> call_requires(
                unit.handler,
                (args,),
            ),
        ensures
            match r {
                Ok(out) => find(self.surface(), name@) matches Some(unit) && call_ensures(
                    unit.handler,
                    (args,),
                    out,
                ),
                Err(e) => e == ResolveError::NotFound && find(self.surface(), name@) is None,
            },
    {
        self.registry.invoke(name, args)
    }
}

/// Startup does not ask for commands: over an empty registry a ready
/// runtime still gives a running shell, whose surface is empty.
pub proof fn lemma_empty_registry_starts<H>(units: Seq<Command<H>>)
    requires
        units.len() == 0,
    ensures
        startup(units, None) == Ok::<Seq<Command<H>>, Seq<char>>(units),
        forall|name: Seq<char>| find(units, name) is None,
{
}

/// A failed runtime never gives a running shell, whatever the registry
/// holds: startup ends in a diagnostic, which opens with the fixed text and
/// closes with the cause.
pub proof fn lemma_failure_is_fatal<H>(units: Seq<Command<H>>, cause: Seq<char>)
    ensures
        startup(units, Some(cause)) is Err,
        startup(units, Some(cause)) == Err::<Seq<Command<H>>, Seq<char>>(diagnostic_of(cause)),
        diagnostic_of(cause).len() > cause.len(),
        STARTUP_FAILURE@.is_prefix_of(diagnostic_of(cause)),
        cause.is_suffix_of(diagnostic_of(cause)),
{
    reveal_strlit(": ");
}

} // verus!
