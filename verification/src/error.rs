//! Errors raised while reading the Lambda configuration of a project.
use vstd::prelude::*;

verus! {

/// What can go wrong while reading the Lambda configuration of a project.
#[derive(Debug, Clone)]
pub enum MetadataError {
    /// A memory value that Lambda does not accept; holds the value as written.
    InvalidMemory(String),
    /// A timeout that is not a number of seconds.
    InvalidTimeout,
    /// A tracing option that is neither `active` nor `passthrough`.
    InvalidTracing(String),
    /// The project has more than one binary; holds their names, sorted and separated by `, `.
    MultipleBinariesInProject(String),
    /// The project has no binary.
    MissingBinaryInProject,
    /// An environment variable that is not in `KEY=VALUE` form.
    InvalidEnvVar(String),
    /// An environment file that could not be read: its path and the reason.
    InvalidEnvFile(String, String),
    /// Package metadata that is not a valid Lambda configuration.
    InvalidCargoMetadata(String),
}

/// The message of an error.
pub open spec fn error_message(e: MetadataError) -> Seq<char> {
    match e {
        MetadataError::InvalidMemory(v) => "invalid memory value `"@ + v@ + "`"@,
        MetadataError::InvalidTimeout => "invalid timeout value"@,
        MetadataError::InvalidTracing(t) => "invalid tracing option `"@ + t@ + "`"@,
        MetadataError::MultipleBinariesInProject(l) => "there are more than one binary in the project, please specify a binary name with --binary-name or --binary-path. This is the list of binaries I found: "@
            + l@,
        MetadataError::MissingBinaryInProject => "there are no binaries in this project"@,
        MetadataError::InvalidEnvVar(v) => "invalid environment variable `"@ + v@ + "`"@,
        MetadataError::InvalidEnvFile(p, r) => "invalid environment file `"@ + p@ + "`: "@ + r@,
        MetadataError::InvalidCargoMetadata(m) => "invalid lambda metadata in Cargo.toml file: "@
            + m@,
    }
}

/// `a`, `b` and `c`, one after the other.
fn concat3(a: &str, b: &str, c: &str) -> (res: String)
    ensures
        res@ == a@ + b@ + c@,
{
    let mut chars = crate::text::chars_of(a);
    let bs = crate::text::chars_of(b);
    crate::text::extend_chars(&mut chars, bs.as_slice());
    let cs = crate::text::chars_of(c);
    crate::text::extend_chars(&mut chars, cs.as_slice());
    crate::text::string_of(chars.as_slice())
}

impl MetadataError {
    /// The message of the error.
    pub fn to_string(&self) -> (res: String)
        ensures
            res@ == error_message(*self),
    {
        proof {
            reveal_strlit("invalid memory value `");
            reveal_strlit("`");
            reveal_strlit("invalid timeout value");
            reveal_strlit("invalid tracing option `");
            reveal_strlit("there are more than one binary in the project, please specify a binary name with --binary-name or --binary-path. This is the list of binaries I found: ");
            reveal_strlit("");
            reveal_strlit("there are no binaries in this project");
            reveal_strlit("invalid environment variable `");
            reveal_strlit("invalid environment file `");
            reveal_strlit("`: ");
            reveal_strlit("invalid lambda metadata in Cargo.toml file: ");
        }
        match self {
            MetadataError::InvalidMemory(v) => concat3("invalid memory value `", v.as_str(), "`"),
            MetadataError::InvalidTimeout => "invalid timeout value".to_string(),
            MetadataError::InvalidTracing(t) => concat3("invalid tracing option `", t.as_str(), "`"),
            MetadataError::MultipleBinariesInProject(l) => concat3(
                "there are more than one binary in the project, please specify a binary name with --binary-name or --binary-path. This is the list of binaries I found: ",
                l.as_str(),
                "",
            ),
            MetadataError::MissingBinaryInProject => "there are no binaries in this project".to_string(),
            MetadataError::InvalidEnvVar(v) => concat3(
                "invalid environment variable `",
                v.as_str(),
                "`",
            ),
            MetadataError::InvalidEnvFile(p, r) => {
                let head = concat3("invalid environment file `", p.as_str(), "`: ");
                concat3(head.as_str(), r.as_str(), "")
            },
            MetadataError::InvalidCargoMetadata(m) => concat3(
                "invalid lambda metadata in Cargo.toml file: ",
                m.as_str(),
                "",
            ),
        }
    }
}

} // verus!
