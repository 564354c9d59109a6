//! The options of the `build` command.
use vstd::prelude::*;
use crate::deploy_config::CompilerOptions;
use crate::watch_options::CommonOptions;

verus! {

/// What a build leaves behind: the binary, or a zip file with it.
#[derive(Debug, Clone, Copy, PartialEq, Eq, Structural)]
pub enum BuildOutputFormat {
    Binary,
    Zip,
}

/// The `cargo build` options of a build.
#[derive(Debug)]
pub struct CargoBuildOptions {
    pub manifest_path: Option<String>,
    pub release: bool,
    pub bins: bool,
    pub bin: Vec<String>,
    pub examples: bool,
    pub example: Vec<String>,
    pub all_targets: bool,
    pub packages: Vec<String>,
    pub workspace: bool,
    pub exclude: Vec<String>,
    pub tests: bool,
    pub test: Vec<String>,
    pub benches: bool,
    pub bench: Vec<String>,
    pub common: CommonOptions,
}

/// The options of the `build` command.
#[derive(Debug)]
pub struct Build {
    pub output_format: Option<BuildOutputFormat>,
    pub lambda_dir: Option<String>,
    pub arm64: bool,
    pub x86_64: bool,
    pub extension: bool,
    pub internal: bool,
    pub flatten: Option<String>,
    pub skip_target_check: bool,
    pub compiler: Option<CompilerOptions>,
    pub disable_optimizations: bool,
    /// Files to add to the zip file.
    pub includes: Option<Vec<String>>,
    pub cargo_opts: CargoBuildOptions,
}

} // verus!
