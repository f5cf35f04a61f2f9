//! Decides how a vendored native library is built and linked.
//!
//! A build script has to get the native library onto the linker's path. It
//! can use a copy that the system provides ([`link::probe_and_link`]), or
//! build the copy that ships with the crate
//! ([`executor::build_and_link`]). Building means four steps, each a file
//! operation or a run of an outside tool: clean the staging directory,
//! copy the source tree into it, configure, then compile and install.
//!
//! This crate holds the decisions and none of the effects. From the
//! [`context::BuildContext`] it computes where the files go
//! ([`layout::resolve_layout`]), what the configuration script is told
//! ([`plan::plan_configuration`]), which command each step runs
//! ([`action`]), and how the build goes on after each step
//! ([`executor`]). Whoever calls it removes the directory and starts the
//! programs, and reports how that went.

pub mod action;
pub mod context;
pub mod executor;
pub mod layout;
pub mod link;
pub mod path;
pub mod plan;
pub mod step;
pub mod text;
