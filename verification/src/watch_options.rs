//! The options of the `watch` command, and the Cargo options that it passes on.
use vstd::prelude::*;
use crate::env::{EnvOptions, environment, map_or_empty};
use crate::error::MetadataError;
use crate::lambda::Timeout;
use crate::remote::TlsOptions;
use crate::strmap::StringMap;
use crate::text::views;
use crate::watch::FunctionRouter;

verus! {

/// The options that Cargo's build commands share.
#[derive(Debug)]
pub struct CommonOptions {
    pub quiet: bool,
    pub jobs: Option<u64>,
    pub keep_going: bool,
    pub profile: Option<String>,
    pub features: Vec<String>,
    pub all_features: bool,
    pub no_default_features: bool,
    pub target: Vec<String>,
    pub target_dir: Option<String>,
    pub message_format: Vec<String>,
    pub verbose: u8,
    pub color: Option<String>,
    pub frozen: bool,
    pub locked: bool,
    pub offline: bool,
    pub config: Vec<String>,
    pub unstable_flags: Vec<String>,
    pub timings: Option<Vec<String>>,
}

/// The options of `cargo run` that `watch` takes.
#[derive(Debug)]
pub struct RunOptions {
    pub manifest_path: Option<String>,
    pub release: bool,
    pub ignore_rust_version: bool,
    pub unit_graph: bool,
    pub packages: Vec<String>,
    pub bin: Vec<String>,
    pub example: Vec<String>,
    pub args: Vec<String>,
    pub common: CommonOptions,
}

/// The options of the `watch` command.
pub struct Watch {
    pub ignore_changes: bool,
    pub only_lambda_apis: bool,
    pub invoke_address: String,
    pub invoke_port: u16,
    pub print_traces: bool,
    pub wait: bool,
    pub disable_cors: bool,
    pub timeout: Option<Timeout>,
    pub cargo_opts: RunOptions,
    pub env_options: EnvOptions,
    pub tls_options: TlsOptions,
    pub router: Option<FunctionRouter>,
}

/// `Cargo.toml`.
pub open spec fn default_manifest() -> Seq<char> {
    seq!['C', 'a', 'r', 'g', 'o', '.', 't', 'o', 'm', 'l']
}

impl Watch {
    /// The manifest of the project: the one given, else `Cargo.toml`.
    pub fn manifest_path(&self) -> (res: String)
        ensures
            res@ == match self.cargo_opts.manifest_path {
                Some(p) => p@,
                None => default_manifest(),
            },
    {
        match &self.cargo_opts.manifest_path {
            Some(p) => p.clone(),
            None => {
                let m = "Cargo.toml";
                proof {
                    reveal_strlit("Cargo.toml");
                }
                assert(m@ =~= default_manifest());
                m.to_string()
            },
        }
    }

    /// The package to run: the only one given; `None` when several or none are given.
    pub fn package(&self) -> (res: Option<String>)
        ensures
            self.cargo_opts.packages@.len() == 1 ==> (res matches Some(p) && p@
                == self.cargo_opts.packages@[0]@),
            self.cargo_opts.packages@.len() != 1 ==> res is None,
    {
        if self.cargo_opts.packages.len() != 1 {
            return None;
        }
        Some(self.cargo_opts.packages[0].clone())
    }

    /// The environment of the function: `base` with the variables of the environment file
    /// (`file_vars`, what it holds) and then the `KEY=VALUE` options over it.
    pub fn lambda_environment(&self, base: &StringMap, file_vars: Option<&StringMap>) -> (res:
        Result<StringMap, MetadataError>)
        ensures
            match res {
                Ok(env) => environment(
                    base@,
                    map_or_empty(file_vars),
                    match self.env_options.env_var {
                        Some(v) => Some(views(v@)),
                        None => None,
                    },
                ) == Ok::<Map<Seq<char>, Seq<char>>, Seq<char>>(env@),
                Err(e) => environment(
                    base@,
                    map_or_empty(file_vars),
                    match self.env_options.env_var {
                        Some(v) => Some(views(v@)),
                        None => None,
                    },
                ) matches Err(bad) && (e matches MetadataError::InvalidEnvVar(s) && s@ == bad),
            },
    {
        self.env_options.lambda_environment(base, file_vars)
    }
}

} // verus!
