//! Verified core of the cargo-lambda toolkit.
use vstd::prelude::*;

pub mod encoding;
pub mod archive;
pub mod build_options;
pub mod build_plan;
pub mod cargo_meta;
pub mod command;
pub mod compiler;
pub mod config;
pub mod cross;
pub mod deploy;
pub mod deploy_config;
pub mod deploy_output;
pub mod deploy_plan;
pub mod deploy_steps;
pub mod env;
pub mod error;
pub mod fields;
pub mod field_names;
pub mod git_url;
pub mod invoke;
pub mod lambda;
pub mod metadata;
pub mod new_project;
pub mod number;
pub mod remote;
pub mod route_json;
pub mod route_map;
pub mod strmap;
pub mod system;
pub mod target_arch;
pub mod template;
pub mod text;
pub mod watch;
pub mod watch_options;
pub mod zig;

verus! {
} // verus!
