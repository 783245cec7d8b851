//! Declarative model of an actor: the specification that describes how its
//! source is fetched, built and exposed, and the condition ledger that records
//! its lifecycle.

pub mod locator;
pub mod text;
pub mod actor;
pub mod status;
pub mod laws;
