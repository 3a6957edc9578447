//! Core logic of a desktop setup companion: it decides which version-probe
//! commands to run for the developer tools a deployment needs, folds the
//! observed command outcomes into a readiness report, drives the sequential
//! download/mount/install/cleanup/launch workflow that auto-installs the
//! container runtime, and interprets deploy-script results.
//!
//! The crate performs no I/O itself: the embedding application runs each
//! command this crate asks for and feeds the observed outcome back in.

pub mod command;
pub mod platform;
pub mod probe;
pub mod report;
pub mod script;
pub mod text;
pub mod workflow;
