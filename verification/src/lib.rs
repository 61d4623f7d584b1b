//! Scaffolding pipeline for a cross-platform plugin project skeleton.
//!
//! The crate models the orchestration of a project generator: an external
//! tool lays down a base tree, version control is initialized, and a group
//! of scaffolding steps each fetch a remote template, render it with the
//! plugin name, and materialize the result at a fixed path inside the new
//! project. The ordering rules, the template pipeline, and the failure
//! bookkeeping live here, with contracts; subprocesses, network retrieval
//! and file writes are performed by the surrounding program, which feeds
//! their outcomes back as events.

pub mod command;
pub mod orchestrator;
pub mod plugin_name;
pub mod render;
pub mod template;
