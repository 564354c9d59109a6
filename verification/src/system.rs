//! Options of the `system` command, which shows the toolchain and the project's configuration.
use vstd::prelude::*;
use crate::text::opt_view;

verus! {

/// How the system information is printed.
#[derive(Clone, Copy, Debug, PartialEq, Eq, Structural)]
pub enum OutputFormat {
    Text,
    Json,
}

/// Options of the `system` command.
#[derive(Debug)]
pub struct System {
    /// Whether to set up Zig when it is not installed.
    pub setup: bool,
    /// The manifest to show information for.
    pub manifest_path: Option<String>,
    /// How to print the information.
    pub output_format: Option<OutputFormat>,
    /// The package to show information for.
    pub package: Option<String>,
}

/// What the `system` command reports on.
#[derive(Clone, Copy, Debug, PartialEq, Eq, Structural)]
pub enum SystemReport {
    /// Set up Zig and report on it.
    SetupZig,
    /// Report on Zig only: there is no manifest.
    ZigOnly,
    /// Report on Zig and on the configuration of one package.
    Package,
    /// Report on Zig, the workspace configuration and that of every package.
    Workspace,
}

impl System {
    /// The manifest path: the one given, else `Cargo.toml`.
    pub fn manifest_path(&self) -> (res: String)
        ensures
            res@ == match self.manifest_path {
                Some(p) => p@,
                None => seq!['C', 'a', 'r', 'g', 'o', '.', 't', 'o', 'm', 'l'],
            },
    {
        match &self.manifest_path {
            Some(p) => p.clone(),
            None => {
                let s = "Cargo.toml";
                proof {
                    reveal_strlit("Cargo.toml");
                }
                assert(s@ =~= seq!['C', 'a', 'r', 'g', 'o', '.', 't', 'o', 'm', 'l']);
                crate::text::owned(s)
            },
        }
    }

    /// The package name, if given.
    pub fn pkg_name(&self) -> (res: Option<String>)
        ensures
            opt_view(res) == opt_view(self.package),
    {
        crate::text::copy_opt_string(&self.package)
    }

    /// What to report on, given whether the manifest exists, whether a function was named,
    /// and how many packages the project has.
    pub fn report(&self, manifest_exists: bool, names_given: bool, packages: usize) -> (res:
        SystemReport)
        ensures
            res == if self.setup {
                SystemReport::SetupZig
            } else if !manifest_exists {
                SystemReport::ZigOnly
            } else if names_given || packages == 1 {
                SystemReport::Package
            } else {
                SystemReport::Workspace
            },
    {
        if self.setup {
            SystemReport::SetupZig
        } else if !manifest_exists {
            SystemReport::ZigOnly
        } else if names_given || packages == 1 {
            SystemReport::Package
        } else {
            SystemReport::Workspace
        }
    }
}

} // verus!
