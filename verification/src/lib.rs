//! A desktop application shell: the registry of backend commands that a
//! frontend may invoke by name, and the one-shot startup sequence that
//! installs them and hands control to the run loop.

pub mod bootstrap;
pub mod command;
pub mod name;
pub mod registry;
