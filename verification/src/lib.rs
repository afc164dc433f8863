//! Discovery and invocation of generators that ship as ordinary packages.
//!
//! Discovery reads the generator manifest of every package in a project's
//! dependency closure and reports, record by record, either a generator
//! descriptor or the reason why the record could not be used. Invocation
//! drives a throw-away package that calls one generator out of process.
pub mod cmd_args;
pub mod document;
pub mod errors;
pub mod finder;
pub mod gen;
pub mod generators;
pub mod helpers;
pub mod locator;
pub mod manifest;
pub mod runner;
pub mod text;
