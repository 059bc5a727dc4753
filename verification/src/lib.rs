//! Build orchestration for a remote build-trigger service: the decisions of
//! one build over a shared workspace, with the log and the response it yields.
//!
//! The library writes nothing and runs nothing: the one thing it asks of the
//! disk is whether the artifact is there. A caller holds the workspace lock,
//! carries out what each phase asks for (write a file, clear the stale
//! artifact, run the compiler, read the artifact) and hands back what
//! happened.

pub mod artifact;
pub mod coordinator;
pub mod request;
pub mod response;
pub mod text;
