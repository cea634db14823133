use zukus_desktop::bootstrap::{Bootstrapper, Facility, Phase, Step, STARTUP_FAILURE};
use zukus_desktop::command::Signature;
use zukus_desktop::registry::{Registry, ResolveError};

type Handler = fn(()) -> String;

fn ping(_: ()) -> String {
    String::from("pong")
}

fn greet(_: ()) -> String {
    String::from("Hello, world!")
}

#[test]
fn bootstrapper_starts_uninitialized() {
    let shell: Bootstrapper<Handler> = Bootstrapper::new(Registry::new());
    assert_eq!(shell.phase(), Phase::Uninitialized);
    assert!(shell.registry().is_empty());
}

#[test]
fn plan_of_empty_registry() {
    let shell: Bootstrapper<Handler> = Bootstrapper::new(Registry::new());
    assert_eq!(
        shell.plan(),
        vec![Step::ConstructRuntime, Step::Attach(Facility::Logging), Step::Install(vec![])]
    );
}

#[test]
fn plan_installs_every_command_in_order() {
    let mut registry: Registry<Handler> = Registry::new();
    assert_eq!(registry.declare("ping", Signature::new().returning("String"), ping), Ok(()));
    assert_eq!(registry.declare("greet", Signature::new().returning("String"), greet), Ok(()));
    let shell = Bootstrapper::new(registry);
    assert_eq!(
        shell.plan(),
        vec![
            Step::ConstructRuntime,
            Step::Attach(Facility::Logging),
            Step::Install(vec![String::from("ping"), String::from("greet")]),
        ]
    );
}

#[test]
fn empty_registry_startup() {
    let shell: Bootstrapper<Handler> = Bootstrapper::new(Registry::new());
    let running = shell.initialize(Ok(())).ok().unwrap();
    assert_eq!(running.phase(), Phase::Running);
    assert!(running.registry().is_empty());
    assert_eq!(running.invoke("ping", ()), Err(ResolveError::NotFound));
}

#[test]
fn fatal_startup_failure() {
    let mut registry: Registry<Handler> = Registry::new();
    assert_eq!(registry.declare("ping", Signature::new().returning("String"), ping), Ok(()));
    let shell = Bootstrapper::new(registry);
    let error = shell.initialize(Err(String::from("no display"))).err().unwrap();
    assert_eq!(error.diagnostic(), "error while running tauri application: no display");
}

#[test]
fn fatal_startup_failure_with_empty_cause() {
    let shell: Bootstrapper<Handler> = Bootstrapper::new(Registry::new());
    let error = shell.initialize(Err(String::new())).err().unwrap();
    assert_eq!(error.diagnostic(), "error while running tauri application: ");
    assert!(error.diagnostic().starts_with(STARTUP_FAILURE));
}

#[test]
fn ping_end_to_end() {
    let mut registry: Registry<Handler> = Registry::new();
    assert_eq!(registry.declare("ping", Signature::new().returning("String"), ping), Ok(()));
    let shell = Bootstrapper::new(registry);
    let running = shell.initialize(Ok(())).ok().unwrap();
    assert_eq!(running.phase(), Phase::Running);
    assert_eq!(running.invoke("ping", ()), Ok(String::from("pong")));
    assert_eq!(running.invoke("pong", ()), Err(ResolveError::NotFound));
    assert_eq!(running.invoke("", ()), Err(ResolveError::NotFound));
    assert_eq!(running.invoke("ping", ()), Ok(String::from("pong")));
}

#[test]
fn surface_is_the_registry_at_startup() {
    let mut registry: Registry<Handler> = Registry::new();
    assert_eq!(registry.declare("ping", Signature::new().returning("String"), ping), Ok(()));
    assert_eq!(registry.declare("greet", Signature::new().returning("String"), greet), Ok(()));
    let running = Bootstrapper::new(registry).initialize(Ok(())).ok().unwrap();
    let names: Vec<&str> = running.registry().aggregate().iter().map(|u| u.name()).collect();
    assert_eq!(names, vec!["ping", "greet"]);
    assert_eq!(running.invoke("greet", ()), Ok(String::from("Hello, world!")));
}
