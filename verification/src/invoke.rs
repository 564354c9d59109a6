//! Options of the `invoke` command and the requests it sends.
use vstd::prelude::*;
use base64::Engine;
use crate::remote::RemoteConfig;
use crate::text::{ends_with, starts_with};

verus! {

/// The function name used when none is given: the package's only binary.
pub const DEFAULT_PACKAGE_FUNCTION: &'static str = "_";

/// The prefix of the names of example payloads.
pub open spec fn example_prefix() -> Seq<char> {
    seq!['e', 'x', 'a', 'm', 'p', 'l', 'e', '-']
}

/// The extension of example payload files.
pub open spec fn json_suffix() -> Seq<char> {
    seq!['.', 'j', 's', 'o', 'n']
}

/// The file name of an example payload: `example-` in front unless it is there already,
/// `.json` at the end unless it is there already.
pub open spec fn example_file_name(example: Seq<char>) -> Seq<char> {
    let name = if starts_with(example, example_prefix()) {
        example
    } else {
        example_prefix() + example
    };
    if ends_with(name, json_suffix()) {
        name
    } else {
        name + json_suffix()
    }
}

/// The file name of the example payload `example`.
pub fn example_name(example: &str) -> (res: String)
    ensures
        res@ == example_file_name(example@),
{
    let prefix = "example-";
    let suffix = ".json";
    proof {
        reveal_strlit("example-");
        reveal_strlit(".json");
    }
    assert(prefix@ =~= example_prefix());
    assert(suffix@ =~= json_suffix());
    let mut name = if crate::text::str_starts_with(example, prefix) {
        crate::text::chars_of(example)
    } else {
        let mut v = crate::text::chars_of(prefix);
        let e = crate::text::chars_of(example);
        crate::text::extend_chars(&mut v, e.as_slice());
        v
    };
    let suffix_chars = crate::text::chars_of(suffix);
    if !crate::text::chars_ends_with(name.as_slice(), suffix_chars.as_slice()) {
        crate::text::extend_chars(&mut name, suffix_chars.as_slice());
    }
    crate::text::string_of(name.as_slice())
}

/// Naming an example twice gives the same file name as naming it once.
pub proof fn law_example_name_idempotent(example: Seq<char>)
    ensures
        example_file_name(example_file_name(example)) == example_file_name(example),
{
    let p = example_prefix();
    let j = json_suffix();
    let name = if starts_with(example, p) {
        example
    } else {
        p + example
    };
    assert(starts_with(name, p)) by {
        if !starts_with(example, p) {
            assert((p + example).subrange(0, p.len() as int) =~= p);
        }
    }
    let full = example_file_name(example);
    assert(starts_with(full, p)) by {
        if !ends_with(name, j) {
            assert((name + j).subrange(0, p.len() as int) =~= name.subrange(0, p.len() as int));
        }
    }
    assert(ends_with(full, j)) by {
        if !ends_with(name, j) {
            assert((name + j).subrange(name.len() as int, (name + j).len() as int) =~= j);
        }
    }
}

/// The Cognito identity that a local invocation passes to the function.
#[derive(Debug)]
pub struct CognitoIdentity {
    /// The identity id of the Cognito credentials invoking the function.
    pub identity_id: Option<String>,
    /// The identity pool the caller is registered with.
    pub identity_pool_id: Option<String>,
}

impl CognitoIdentity {
    /// Whether both the identity and its pool are given.
    pub fn is_valid(&self) -> (res: bool)
        ensures
            res == (self.identity_id is Some && self.identity_pool_id is Some),
    {
        self.identity_id.is_some() && self.identity_pool_id.is_some()
    }
}

/// How the response of an invocation is printed.
#[derive(Clone, Copy, Debug, PartialEq, Eq, Structural)]
pub enum OutputFormat {
    Text,
    Json,
}

/// Options of the `invoke` command.
#[derive(Debug)]
pub struct Invoke {
    /// Local address (IPv4 or IPv6) to send invocations to.
    pub invoke_address: String,
    /// Local port to send invocations to.
    pub invoke_port: u16,
    /// File to read the payload from.
    pub data_file: Option<String>,
    /// The payload as a string.
    pub data_ascii: Option<String>,
    /// Name of an example payload.
    pub data_example: Option<String>,
    /// Whether to invoke the function deployed on AWS Lambda.
    pub remote: bool,
    /// The AWS account to invoke in.
    pub remote_config: RemoteConfig,
    /// The client context as a JSON string.
    pub client_context_ascii: Option<String>,
    /// File to read the client context from.
    pub client_context_file: Option<String>,
    /// How to print the response.
    pub output_format: OutputFormat,
    /// The Cognito identity of the caller.
    pub cognito: Option<CognitoIdentity>,
    /// Whether to ignore cached example payloads.
    pub skip_cache: bool,
    /// Name of the function to invoke.
    pub function_name: String,
}

/// Where the payload of an invocation comes from.
#[derive(Debug)]
pub enum PayloadSource {
    /// Read it from this file.
    File(String),
    /// This text.
    Text(String),
    /// The example payload of this file name.
    Example(String),
}

/// Why an invocation cannot be sent.
#[derive(Debug, Clone, Copy, PartialEq, Eq, Structural)]
pub enum InvokeError {
    /// The default function name cannot be invoked remotely.
    InvalidFunctionName,
    /// No payload was given.
    MissingPayload,
}

/// Where the client context comes from.
#[derive(Debug)]
pub enum ClientContextSource {
    /// Read it from this file.
    File(String),
    /// This text.
    Text(String),
}

impl Invoke {
    /// Where the payload comes from: the data file, else the text, else the named example.
    pub fn payload_source(&self) -> (res: Result<PayloadSource, InvokeError>)
        ensures
            match self.data_file {
                Some(f) => res matches Ok(PayloadSource::File(g)) && g@ == f@,
                None => match self.data_ascii {
                    Some(d) => res matches Ok(PayloadSource::Text(t)) && t@ == d@,
                    None => match self.data_example {
                        Some(e) => res matches Ok(PayloadSource::Example(n)) && n@
                            == example_file_name(e@),
                        None => res == Err::<PayloadSource, InvokeError>(
                            InvokeError::MissingPayload,
                        ),
                    },
                },
            },
    {
        if let Some(f) = &self.data_file {
            Ok(PayloadSource::File(f.clone()))
        } else if let Some(d) = &self.data_ascii {
            Ok(PayloadSource::Text(d.clone()))
        } else if let Some(e) = &self.data_example {
            Ok(PayloadSource::Example(example_name(e.as_str())))
        } else {
            Err(InvokeError::MissingPayload)
        }
    }

    /// Checks that a remote invocation names a function.
    pub fn check_remote_function_name(&self) -> (res: Result<(), InvokeError>)
        ensures
            res is Ok <==> self.function_name@ != seq!['_'],
            res is Err ==> res == Err::<(), InvokeError>(InvokeError::InvalidFunctionName),
    {
        let d = DEFAULT_PACKAGE_FUNCTION;
        proof {
            reveal_strlit("_");
        }
        assert(d@ =~= seq!['_']);
        if crate::text::str_eq(self.function_name.as_str(), d) {
            Err(InvokeError::InvalidFunctionName)
        } else {
            Ok(())
        }
    }

    /// Where the client context comes from: the file, else the text; `None` when neither
    /// is given.
    pub fn client_context_source(&self) -> (res: Option<ClientContextSource>)
        ensures
            match self.client_context_file {
                Some(f) => res matches Some(ClientContextSource::File(g)) && g@ == f@,
                None => match self.client_context_ascii {
                    Some(d) => res matches Some(ClientContextSource::Text(t)) && t@ == d@,
                    None => res is None,
                },
            },
    {
        if let Some(f) = &self.client_context_file {
            Some(ClientContextSource::File(f.clone()))
        } else if let Some(d) = &self.client_context_ascii {
            Some(ClientContextSource::Text(d.clone()))
        } else {
            None
        }
    }

    /// The client context sent with an invocation, given its text: base64-encoded for
    /// remote invocations.
    pub fn client_context(&self, data: Option<String>, encode: bool) -> (res: Option<String>)
        ensures
            match data {
                None => res is None,
                Some(d) => res matches Some(r) && r@ == (if encode {
                    base64_standard(d@)
                } else {
                    d@
                }),
            },
    {
        match data {
            None => None,
            Some(d) => {
                if encode {
                    Some(base64_encode(d.as_str()))
                } else {
                    Some(d)
                }
            },
        }
    }

    /// Whether a Cognito identity is given in full, so that it is sent with a local
    /// invocation.
    pub fn sends_cognito_identity(&self) -> (res: bool)
        ensures
            res == (self.cognito matches Some(c) && c.identity_id is Some
                && c.identity_pool_id is Some),
    {
        match &self.cognito {
            Some(c) => c.is_valid(),
            None => false,
        }
    }
}

/// The standard base64 encoding, with padding, of the UTF-8 bytes of a text.
pub uninterp spec fn base64_standard(text: Seq<char>) -> Seq<char>;

/// `base64::engine::general_purpose::STANDARD.encode`: the standard base64 encoding, with
/// padding, of the UTF-8 bytes of `text`.
#[verifier::external_body]
fn base64_encode(text: &str) -> (res: String)
    ensures
        res@ == base64_standard(text@),
{
    base64::engine::general_purpose::STANDARD.encode(text)
}

/// An error that a function returned, as the runtime reports it.
#[derive(Debug)]
pub struct RemoteInvokeError {
    /// The error type.
    pub code: String,
    /// The error message.
    pub message: String,
}

/// A text without the `&` characters at its start.
pub open spec fn trim_start_ampersands(s: Seq<char>) -> Seq<char>
    decreases s.len(),
{
    if s.len() > 0 && s[0] == '&' {
        trim_start_ampersands(s.drop_first())
    } else {
        s
    }
}

impl RemoteInvokeError {
    /// The error code: the error type without its leading `&` characters.
    pub fn code(&self) -> (res: String)
        ensures
            res@ == trim_start_ampersands(self.code@),
    {
        let v = crate::text::chars_of(self.code.as_str());
        let mut i: usize = 0;
        assert(v@.skip(0) =~= v@);
        while i < v.len() && v[i] == '&'
            invariant
                i <= v@.len(),
                trim_start_ampersands(v@) == trim_start_ampersands(v@.skip(i as int)),
            decreases v@.len() - i,
        {
            assert(v@.skip(i as int).drop_first() =~= v@.skip(i + 1));
            i = i + 1;
        }
        let rest = crate::text::sub_chars(v.as_slice(), i, v.len());
        assert(rest@ =~= v@.skip(i as int));
        crate::text::string_of(rest.as_slice())
    }

    /// The error message, as `Display` writes it.
    pub fn to_string(&self) -> (res: String)
        ensures
            res@ == self.message@,
    {
        self.message.clone()
    }
}

/// Where the example payloads are published.
pub const EXAMPLES_URL: &'static str = "https://event-examples.cargo-lambda.info";

/// The address of a parsed IP address in a URL: an IPv6 address in brackets.
pub open spec fn url_host(is_ipv6: bool, address: Seq<char>) -> Seq<char> {
    if is_ipv6 {
        seq!['['] + address + seq![']']
    } else {
        address
    }
}

/// The host of the local emulator in a URL, given the parsed address written back in its
/// usual form and whether it is an IPv6 address.
pub fn invoke_host(is_ipv6: bool, address: &str) -> (res: String)
    ensures
        res@ == url_host(is_ipv6, address@),
{
    if is_ipv6 {
        let mut v: Vec<char> = Vec::new();
        v.push('[');
        let a = crate::text::chars_of(address);
        crate::text::extend_chars(&mut v, a.as_slice());
        v.push(']');
        assert(v@ =~= seq!['['] + address@ + seq![']']);
        crate::text::string_of(v.as_slice())
    } else {
        crate::text::owned(address)
    }
}

/// The URL that invokes `function_name` on the local emulator at `host` and `port`.
pub open spec fn invocation_url(host: Seq<char>, port: u16, function_name: Seq<char>) -> Seq<char> {
    "http://"@ + host + ":"@ + crate::number::decimal(port as nat) + "/2015-03-31/functions/"@
        + function_name + "/invocations"@
}

/// The URL that invokes `function_name` on the local emulator at `host` and `port`.
pub fn local_invocation_url(host: &str, port: u16, function_name: &str) -> (res: String)
    ensures
        res@ == invocation_url(host@, port, function_name@),
{
    let mut v = crate::text::chars_of("http://");
    crate::text::extend_chars(&mut v, crate::text::chars_of(host).as_slice());
    crate::text::extend_chars(&mut v, crate::text::chars_of(":").as_slice());
    let p = crate::number::u64_to_string(port as u64);
    crate::text::extend_chars(&mut v, crate::text::chars_of(p.as_str()).as_slice());
    crate::text::extend_chars(&mut v, crate::text::chars_of("/2015-03-31/functions/").as_slice());
    crate::text::extend_chars(&mut v, crate::text::chars_of(function_name).as_slice());
    crate::text::extend_chars(&mut v, crate::text::chars_of("/invocations").as_slice());
    assert(v@ =~= invocation_url(host@, port, function_name@));
    crate::text::string_of(v.as_slice())
}

/// The URL of an example payload.
pub fn example_url(name: &str) -> (res: String)
    ensures
        res@ == EXAMPLES_URL@ + "/"@ + name@,
{
    let mut v = crate::text::chars_of(EXAMPLES_URL);
    crate::text::extend_chars(&mut v, crate::text::chars_of("/").as_slice());
    crate::text::extend_chars(&mut v, crate::text::chars_of(name).as_slice());
    assert(v@ =~= EXAMPLES_URL@ + "/"@ + name@);
    crate::text::string_of(v.as_slice())
}

} // verus!
