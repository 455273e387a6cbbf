//! Startup logic of a desktop application shell.
//!
//! The application itself is a thin native shell around a framework
//! runtime: on startup it applies one platform-specific rendering
//! workaround, registers a fixed list of capability plugins, and hands
//! control to the framework's event loop. This crate holds the verified
//! decisions behind that sequence: which platform needs the workaround
//! and which variable it sets, the exact order of the startup steps, and
//! how the process concludes when the runtime fails. The unverified
//! binary shell executes the plan step by step against the framework.

pub mod outcome;
pub mod plan;
pub mod platform;
