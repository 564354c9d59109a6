//! What a failed command reports.
use vstd::prelude::*;
use crate::text::{chars_of, extend_chars, join, string_of, views};

verus! {

/// The text that `String::from_utf8_lossy` makes of `bytes`: valid UTF-8 as it is, each
/// invalid sequence replaced by U+FFFD.
pub uninterp spec fn lossy_text(bytes: Seq<u8>) -> Seq<char>;

/// `String::from_utf8_lossy(bytes).into_owned()`.
#[verifier::external_body]
fn utf8_lossy(bytes: &Vec<u8>) -> (res: String)
    ensures
        res@ == lossy_text(bytes@),
{
    String::from_utf8_lossy(bytes.as_slice()).into_owned()
}

/// A command that failed: what was run, what it printed, and the error that stopped it
/// from running, if any.
#[derive(Debug)]
pub struct CommandError {
    pub command: String,
    pub stdout: Vec<u8>,
    pub stderr: Vec<u8>,
    /// The message of the error that kept the command from running or finishing.
    pub error: Option<String>,
}

/// The command line: the command and its arguments, separated by spaces.
pub open spec fn command_line_spec(cmd: Seq<char>, args: Seq<Seq<char>>) -> Seq<char> {
    cmd + seq![' '] + join(args, seq![' '])
}

/// `cmd` and its arguments, separated by spaces.
pub fn command_line(cmd: &str, args: &Vec<String>) -> (res: String)
    ensures
        res@ == command_line_spec(cmd@, views(args@)),
{
    let sep = " ";
    proof {
        reveal_strlit(" ");
    }
    assert(sep@ =~= seq![' ']);
    let joined = crate::text::join_strings(args.as_slice(), sep);
    let mut chars = chars_of(cmd);
    chars.push(' ');
    let rest = chars_of(joined.as_str());
    extend_chars(&mut chars, rest.as_slice());
    string_of(chars.as_slice())
}

/// The report of a failed command: ``Command `...` failed``, then `: ` and the error when
/// there is one, then a new line and the output, and a new line and the error output, when
/// they are not empty.
pub open spec fn error_report(e: CommandError) -> Seq<char> {
    let head = "Command `"@ + e.command@ + "` failed"@;
    let with_error = match e.error {
        Some(m) => head + ": "@ + m@,
        None => head,
    };
    let with_out = if e.stdout@.len() > 0 {
        with_error + seq!['\n'] + lossy_text(e.stdout@)
    } else {
        with_error
    };
    if e.stderr@.len() > 0 {
        with_out + seq!['\n'] + lossy_text(e.stderr@)
    } else {
        with_out
    }
}

impl CommandError {
    /// The report of the failure.
    pub fn to_string(&self) -> (res: String)
        ensures
            res@ == error_report(*self),
    {
        let mut chars = chars_of("Command `");
        let c = chars_of(self.command.as_str());
        extend_chars(&mut chars, c.as_slice());
        let failed = chars_of("` failed");
        extend_chars(&mut chars, failed.as_slice());
        if let Some(m) = &self.error {
            let sep = chars_of(": ");
            extend_chars(&mut chars, sep.as_slice());
            let mc = chars_of(m.as_str());
            extend_chars(&mut chars, mc.as_slice());
        }
        if self.stdout.len() > 0 {
            chars.push('\n');
            let out = utf8_lossy(&self.stdout);
            let oc = chars_of(out.as_str());
            extend_chars(&mut chars, oc.as_slice());
        }
        if self.stderr.len() > 0 {
            chars.push('\n');
            let err = utf8_lossy(&self.stderr);
            let ec = chars_of(err.as_str());
            extend_chars(&mut chars, ec.as_slice());
        }
        string_of(chars.as_slice())
    }
}

} // verus!
