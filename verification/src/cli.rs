//! The command line: what commands mean, what they decide and what they show.

pub mod args;
pub mod auto_setup;
pub mod daemon;
pub mod error;
pub mod host_build_info;
pub mod plan;
pub mod profiles;
pub mod render;
pub mod setup;
pub mod tables;
