//! Choices made when a new function or extension project is created from a template.
use vstd::prelude::*;
use crate::git_url::is_alnum;
use crate::lambda::eq_ignore_ascii_case;
use crate::template::{TemplateConfig, TemplateValue, ValueView, default_answer, extend_variables, last_render, set_render_variables, var_lookup, variables_view, view_lookup};
use crate::text::{occurs_at, starts_with, views};

verus! {

/// Why a project cannot be created.
#[derive(Debug, Clone)]
pub enum CreateError {
    /// The package or binary name is not a valid name.
    InvalidPackageName(String),
    /// Neither an HTTP function nor an event type was chosen.
    MissingFunctionOptions,
    /// An HTTP function cannot also take an event type.
    InvalidFunctionOptions,
    /// The event type is not of the form `module::Type`.
    UnexpectedEventType(String),
    /// The project was created in the path, but no editor is set to open it.
    InvalidEditor(String),
}

/// The message of an error.
pub open spec fn create_error_message(e: CreateError) -> Seq<char> {
    match e {
        CreateError::InvalidPackageName(n) => "invalid package name: "@ + n@,
        CreateError::MissingFunctionOptions => "missing options: --event-type, --http"@,
        CreateError::InvalidFunctionOptions =>
            "invalid options: --event-type and --http cannot be specified at the same time"@,
        CreateError::UnexpectedEventType(_) => "unexpected event type"@,
        CreateError::InvalidEditor(p) => "project created in "@ + p@
            + ", but the EDITOR variable is missing"@,
    }
}

/// `a` followed by `b`.
fn concat(a: &str, b: &str) -> (res: String)
    ensures
        res@ == a@ + b@,
{
    let mut v = crate::text::chars_of(a);
    let w = crate::text::chars_of(b);
    crate::text::extend_chars(&mut v, w.as_slice());
    crate::text::string_of(v.as_slice())
}

impl CreateError {
    /// The message of the error, as `Display` writes it.
    pub fn to_string(&self) -> (res: String)
        ensures
            res@ == create_error_message(*self),
    {
        match self {
            CreateError::InvalidPackageName(n) => concat("invalid package name: ", n.as_str()),
            CreateError::MissingFunctionOptions => crate::text::owned(
                "missing options: --event-type, --http",
            ),
            CreateError::InvalidFunctionOptions => crate::text::owned(
                "invalid options: --event-type and --http cannot be specified at the same time",
            ),
            CreateError::UnexpectedEventType(_) => crate::text::owned("unexpected event type"),
            CreateError::InvalidEditor(p) => {
                let head = concat("project created in ", p.as_str());
                concat(head.as_str(), ", but the EDITOR variable is missing")
            },
        }
    }
}

/// The editor that opens a new project: the `EDITOR` variable (`editor`, when it is set)
/// without surrounding white space; refused with the project's path when that is empty.
pub fn editor_program(editor: Option<&str>, path: &str) -> (res: Result<String, CreateError>)
    ensures
        match editor {
            Some(e) if crate::text::trim(e@).len() > 0 => res matches Ok(p) && p@ == crate::text::trim(e@),
            _ => res matches Err(CreateError::InvalidEditor(p)) && p@ == path@,
        },
{
    let e = match editor {
        Some(e) => crate::text::trim_str(e),
        None => String::new(),
    };
    if crate::text::chars_of(e.as_str()).len() == 0 {
        Err(CreateError::InvalidEditor(crate::text::owned(path)))
    } else {
        Ok(e)
    }
}

/// A valid package name: an ASCII letter, then at least one ASCII letter, digit, `_` or `-`.
pub open spec fn valid_package_name(name: Seq<char>) -> bool {
    &&& name.len() >= 2
    &&& (('a' <= name[0] <= 'z') || ('A' <= name[0] <= 'Z'))
    &&& forall|i: int| 1 <= i < name.len() ==> #[trigger] crate::git_url::is_name_char(name[i])
}

/// Whether all characters of `v` from `from` on are name characters.
fn name_chars_from(v: &[char], from: usize) -> (res: bool)
    ensures
        res == (forall|k: int| from <= k < v@.len() ==> #[trigger] crate::git_url::is_name_char(
            v@[k],
        )),
{
    let mut i: usize = from;
    while i < v.len()
        invariant
            from <= i,
            forall|k: int| from <= k < i && k < v@.len() ==> #[trigger] crate::git_url::is_name_char(
                v@[k],
            ),
        decreases v@.len() - i,
    {
        let c = v[i];
        if !(('a' <= c && c <= 'z') || ('A' <= c && c <= 'Z') || ('0' <= c && c <= '9') || c == '_'
            || c == '-') {
            assert(!crate::git_url::is_name_char(v@[i as int]));
            return false;
        }
        i = i + 1;
    }
    true
}

/// Checks that `name` can name a package or a binary.
pub fn validate_name(name: &str) -> (res: Result<(), CreateError>)
    ensures
        res is Ok <==> valid_package_name(name@),
        res matches Err(e) ==> (e matches CreateError::InvalidPackageName(n) && n@ == name@),
{
    let v = crate::text::chars_of(name);
    let ok = if v.len() < 2 || !(('a' <= v[0] && v[0] <= 'z') || ('A' <= v[0] && v[0] <= 'Z')) {
        false
    } else {
        name_chars_from(v.as_slice(), 1)
    };
    if ok {
        Ok(())
    } else {
        Err(CreateError::InvalidPackageName(crate::text::owned(name)))
    }
}

/// Options of an extension project.
#[derive(Debug, Clone, Copy)]
pub struct ExtensionOptions {
    /// Whether the extension includes a Logs processor.
    pub logs: bool,
    /// Whether the extension includes a Telemetry processor.
    pub telemetry: bool,
    /// Whether the extension includes an Events processor.
    pub events: bool,
}

impl ExtensionOptions {
    /// No processor chosen.
    pub fn default() -> (res: ExtensionOptions)
        ensures
            !res.logs && !res.telemetry && !res.events,
    {
        ExtensionOptions { logs: false, telemetry: false, events: false }
    }

    /// Whether the extension gets an Events processor: when asked for, or when no other
    /// processor is.
    pub fn add_events_extension(&self) -> (res: bool)
        ensures
            res == (self.events || (!self.logs && !self.telemetry)),
    {
        self.events || (!self.logs && !self.telemetry)
    }
}

/// The HTTP integrations a function can be generated for.
#[derive(Debug, Clone, Copy, PartialEq, Eq, Structural)]
pub enum HttpFeature {
    Alb,
    ApigwRest,
    ApigwHttp,
    ApigwWebsockets,
}

/// The name of an HTTP feature, in snake case.
pub open spec fn http_feature_name(f: HttpFeature) -> Seq<char> {
    match f {
        HttpFeature::Alb => seq!['a', 'l', 'b'],
        HttpFeature::ApigwRest => seq!['a', 'p', 'i', 'g', 'w', '_', 'r', 'e', 's', 't'],
        HttpFeature::ApigwHttp => seq!['a', 'p', 'i', 'g', 'w', '_', 'h', 't', 't', 'p'],
        HttpFeature::ApigwWebsockets => seq![
            'a',
            'p',
            'i',
            'g',
            'w',
            '_',
            'w',
            'e',
            'b',
            's',
            'o',
            'c',
            'k',
            'e',
            't',
            's',
        ],
    }
}

/// The feature that a name stands for, ignoring ASCII case.
pub open spec fn http_feature_from_name(s: Seq<char>) -> Option<HttpFeature> {
    if eq_ignore_ascii_case(s, http_feature_name(HttpFeature::Alb)) {
        Some(HttpFeature::Alb)
    } else if eq_ignore_ascii_case(s, http_feature_name(HttpFeature::ApigwRest)) {
        Some(HttpFeature::ApigwRest)
    } else if eq_ignore_ascii_case(s, http_feature_name(HttpFeature::ApigwHttp)) {
        Some(HttpFeature::ApigwHttp)
    } else if eq_ignore_ascii_case(s, http_feature_name(HttpFeature::ApigwWebsockets)) {
        Some(HttpFeature::ApigwWebsockets)
    } else {
        None
    }
}

impl HttpFeature {
    /// The name of the feature, in snake case, as `Display` writes it.
    pub fn to_string(&self) -> (res: String)
        ensures
            res@ == http_feature_name(*self),
    {
        let s = match self {
            HttpFeature::Alb => {
                let s = "alb";
                proof {
                    reveal_strlit("alb");
                }
                s
            },
            HttpFeature::ApigwRest => {
                let s = "apigw_rest";
                proof {
                    reveal_strlit("apigw_rest");
                }
                s
            },
            HttpFeature::ApigwHttp => {
                let s = "apigw_http";
                proof {
                    reveal_strlit("apigw_http");
                }
                s
            },
            HttpFeature::ApigwWebsockets => {
                let s = "apigw_websockets";
                proof {
                    reveal_strlit("apigw_websockets");
                }
                s
            },
        };
        assert(s@ =~= http_feature_name(*self));
        crate::text::owned(s)
    }

    /// The feature named `s`, ignoring ASCII case, as `FromStr` reads it.
    pub fn from_str(s: &str) -> (res: Option<HttpFeature>)
        ensures
            res == http_feature_from_name(s@),
    {
        let features = [
            HttpFeature::Alb,
            HttpFeature::ApigwRest,
            HttpFeature::ApigwHttp,
            HttpFeature::ApigwWebsockets,
        ];
        if crate::lambda::str_eq_ignore_ascii_case(s, features[0].to_string().as_str()) {
            Some(HttpFeature::Alb)
        } else if crate::lambda::str_eq_ignore_ascii_case(s, features[1].to_string().as_str()) {
            Some(HttpFeature::ApigwRest)
        } else if crate::lambda::str_eq_ignore_ascii_case(s, features[2].to_string().as_str()) {
            Some(HttpFeature::ApigwHttp)
        } else if crate::lambda::str_eq_ignore_ascii_case(s, features[3].to_string().as_str()) {
            Some(HttpFeature::ApigwWebsockets)
        } else {
            None
        }
    }
}

/// The services an HTTP function can receive events from, as offered to the user.
#[derive(Debug, Clone, Copy, PartialEq, Eq, Structural)]
pub enum HttpEndpoints {
    Alb,
    ApigwRest,
    ApigwHttp,
    ApigwWebsockets,
    LambdaUrls,
    Unknown,
}

impl HttpEndpoints {
    /// The feature that serves events from the service; none for an unknown service.
    pub fn to_feature(&self) -> (res: Option<HttpFeature>)
        ensures
            res == match *self {
                HttpEndpoints::Alb => Some(HttpFeature::Alb),
                HttpEndpoints::ApigwRest => Some(HttpFeature::ApigwRest),
                HttpEndpoints::ApigwHttp => Some(HttpFeature::ApigwHttp),
                HttpEndpoints::LambdaUrls => Some(HttpFeature::ApigwHttp),
                HttpEndpoints::ApigwWebsockets => Some(HttpFeature::ApigwWebsockets),
                HttpEndpoints::Unknown => None,
            },
    {
        match self {
            HttpEndpoints::Alb => Some(HttpFeature::Alb),
            HttpEndpoints::ApigwRest => Some(HttpFeature::ApigwRest),
            HttpEndpoints::ApigwHttp | HttpEndpoints::LambdaUrls => Some(HttpFeature::ApigwHttp),
            HttpEndpoints::ApigwWebsockets => Some(HttpFeature::ApigwWebsockets),
            HttpEndpoints::Unknown => None,
        }
    }

    /// All services, in the order they are offered.
    pub fn all() -> (res: Vec<HttpEndpoints>)
        ensures
            res@ == seq![
                HttpEndpoints::Alb,
                HttpEndpoints::ApigwRest,
                HttpEndpoints::ApigwHttp,
                HttpEndpoints::ApigwWebsockets,
                HttpEndpoints::LambdaUrls,
                HttpEndpoints::Unknown,
            ],
    {
        let res = vec![
            HttpEndpoints::Alb,
            HttpEndpoints::ApigwRest,
            HttpEndpoints::ApigwHttp,
            HttpEndpoints::ApigwWebsockets,
            HttpEndpoints::LambdaUrls,
            HttpEndpoints::Unknown,
        ];
        assert(res@ =~= seq![
            HttpEndpoints::Alb,
            HttpEndpoints::ApigwRest,
            HttpEndpoints::ApigwHttp,
            HttpEndpoints::ApigwWebsockets,
            HttpEndpoints::LambdaUrls,
            HttpEndpoints::Unknown,
        ]);
        res
    }
}

/// Options of a function project.
#[derive(Debug)]
pub struct FunctionOptions {
    /// Whether the function is an HTTP endpoint.
    pub http: bool,
    /// The HTTP integration to enable.
    pub http_feature: Option<HttpFeature>,
    /// The type of AWS event the function receives, such as `s3::S3Event`.
    pub event_type: Option<String>,
}

/// What validating the options of a function project leads to.
#[derive(Debug, Clone, Copy, PartialEq, Eq, Structural)]
pub enum ValidationStep {
    /// The options are complete and consistent.
    Done,
    /// The options are incomplete and the user is to be asked for them.
    AskUser,
}

/// Whether `::` occurs in `s` at `i`.
pub open spec fn double_colon_at(s: Seq<char>, i: int) -> bool {
    occurs_at(s, seq![':', ':'], i)
}

/// The position of the first `::` in `s`, if any.
pub open spec fn first_double_colon(s: Seq<char>) -> Option<int> {
    if exists|i: int| #[trigger] double_colon_at(s, i) {
        Some(choose|i: int| #[trigger] double_colon_at(s, i) && forall|j: int|
            0 <= j < i ==> !double_colon_at(s, j))
    } else {
        None
    }
}

/// `aws_lambda_events::event::`, the module that event types are imported from.
pub open spec fn events_module() -> Seq<char> {
    seq![
        'a',
        'w',
        's',
        '_',
        'l',
        'a',
        'm',
        'b',
        'd',
        'a',
        '_',
        'e',
        'v',
        'e',
        'n',
        't',
        's',
        ':',
        ':',
        'e',
        'v',
        'e',
        'n',
        't',
        ':',
        ':',
    ]
}

impl FunctionOptions {
    /// Whether the user has still to choose between an HTTP function and an event type.
    pub fn missing_options(&self) -> (res: bool)
        ensures
            res == (!self.http && self.event_type is None),
    {
        !self.http && self.event_type.is_none()
    }

    /// Whether a non-empty event type is given.
    pub fn has_event_type(&self) -> (res: bool)
        ensures
            res == (self.event_type matches Some(s) && s@.len() > 0),
    {
        match &self.event_type {
            Some(s) => crate::text::chars_of(s.as_str()).len() > 0,
            None => false,
        }
    }

    /// Validates the options: an HTTP feature makes the function an HTTP one; incomplete
    /// options are asked for when the user can be asked, else refused; an HTTP function
    /// with an event type is refused.
    pub fn validate_options(&mut self, no_interactive: bool, stdin_tty: bool) -> (res: Result<
        ValidationStep,
        CreateError,
    >)
        ensures
            final(self).http == (old(self).http || old(self).http_feature is Some),
            final(self).http_feature == old(self).http_feature,
            final(self).event_type == old(self).event_type,
            final(self).missing_options_spec() ==> match res {
                Ok(step) => step == ValidationStep::AskUser && stdin_tty && !no_interactive,
                Err(e) => e is MissingFunctionOptions && (!stdin_tty || no_interactive),
            },
            !final(self).missing_options_spec() ==> match res {
                Ok(step) => step == ValidationStep::Done && !(final(self).http
                    && final(self).has_event_type_spec()),
                Err(e) => e is InvalidFunctionOptions && final(self).http
                    && final(self).has_event_type_spec(),
            },
    {
        if self.http_feature.is_some() && !self.http {
            self.http = true;
        }
        if self.missing_options() {
            if !stdin_tty || no_interactive {
                return Err(CreateError::MissingFunctionOptions);
            }
            return Ok(ValidationStep::AskUser);
        }
        if self.http && self.has_event_type() {
            return Err(CreateError::InvalidFunctionOptions);
        }
        Ok(ValidationStep::Done)
    }

    /// Validates the options once the user has answered the questions.
    pub fn validate_answers(&self) -> (res: Result<(), CreateError>)
        ensures
            self.missing_options_spec() ==> (res matches Err(e) && e is MissingFunctionOptions),
            !self.missing_options_spec() ==> match res {
                Ok(()) => !(self.http && self.has_event_type_spec()),
                Err(e) => e is InvalidFunctionOptions && self.http && self.has_event_type_spec(),
            },
    {
        if self.missing_options() {
            return Err(CreateError::MissingFunctionOptions);
        }
        if self.http && self.has_event_type() {
            return Err(CreateError::InvalidFunctionOptions);
        }
        Ok(())
    }

    /// Options are missing.
    pub open spec fn missing_options_spec(&self) -> bool {
        !self.http && self.event_type is None
    }

    /// A non-empty event type is given.
    pub open spec fn has_event_type_spec(&self) -> bool {
        self.event_type matches Some(s) && s@.len() > 0
    }

    /// The import path, module and type of the event type `module::Type`; `None` when no
    /// event type is given.
    pub fn event_type_triple(&self) -> (res: Result<Option<(String, String, String)>, CreateError>)
        ensures
            !self.has_event_type_spec() ==> res matches Ok(None),
            self.has_event_type_spec() ==> {
                let s = self.event_type->0@;
                match first_double_colon(s) {
                    Some(i) => res matches Ok(Some((imp, m, t))) && imp@ == events_module() + s
                        && m@ == s.take(i) && t@ == s.skip(i + 2),
                    None => res matches Err(e) && e is UnexpectedEventType,
                }
            },
    {
        match &self.event_type {
            None => Ok(None),
            Some(s) => {
                let v = crate::text::chars_of(s.as_str());
                if v.len() == 0 {
                    return Ok(None);
                }
                let module = "aws_lambda_events::event::";
                proof {
                    reveal_strlit("aws_lambda_events::event::");
                }
                assert(module@ =~= events_module());
                let mut import = crate::text::chars_of(module);
                crate::text::extend_chars(&mut import, v.as_slice());
                match find_double_colon(v.as_slice()) {
                    Some(i) => {
                        proof {
                            lemma_first_double_colon(v@, i as int);
                        }
                        let m = crate::text::sub_chars(v.as_slice(), 0, i);
                        let t = crate::text::sub_chars(v.as_slice(), i + 2, v.len());
                        assert(m@ =~= v@.take(i as int));
                        assert(t@ =~= v@.skip(i + 2));
                        return Ok(
                            Some(
                                (
                                    crate::text::string_of(import.as_slice()),
                                    crate::text::string_of(m.as_slice()),
                                    crate::text::string_of(t.as_slice()),
                                ),
                            ),
                        );
                    },
                    None => {},
                }
                Err(CreateError::UnexpectedEventType(s.clone()))
            },
        }
    }
}

/// The position of the first `::` in `v`.
fn find_double_colon(v: &[char]) -> (res: Option<usize>)
    ensures
        match res {
            Some(i) => i + 2 <= v@.len() && double_colon_at(v@, i as int) && forall|j: int|
                0 <= j < i ==> !double_colon_at(v@, j),
            None => !(exists|j: int| #[trigger] double_colon_at(v@, j)),
        },
{
    let sep = [':', ':'];
    assert(sep@ =~= seq![':', ':']);
    let mut i: usize = 0;
    while i < v.len()
        invariant
            i <= v@.len(),
            sep@ == seq![':', ':'],
            forall|j: int| 0 <= j < i ==> !double_colon_at(v@, j),
        decreases v@.len() - i,
    {
        if crate::text::chars_occur_at(v, &sep, i) {
            return Some(i);
        }
        i = i + 1;
    }
    proof {
        if exists|j: int| #[trigger] double_colon_at(v@, j) {
            let j = choose|j: int| #[trigger] double_colon_at(v@, j);
            assert(0 <= j < v@.len());
        }
    }
    None
}

/// The first `::` is at `i` when it occurs there and nowhere before.
proof fn lemma_first_double_colon(s: Seq<char>, i: int)
    requires
        double_colon_at(s, i),
        forall|j: int| 0 <= j < i ==> !double_colon_at(s, j),
    ensures
        first_double_colon(s) == Some(i),
{
    let k = choose|k: int| #[trigger] double_colon_at(s, k) && forall|j: int|
        0 <= j < k ==> !double_colon_at(s, j);
    assert(double_colon_at(s, k));
    if k < i {
        assert(!double_colon_at(s, k));
    } else if i < k {
        assert(!double_colon_at(s, i));
    }
}

/// The choices that start with what the user typed, in order.
pub open spec fn suggestions(input: Seq<char>, choices: Seq<Seq<char>>) -> Seq<Seq<char>> {
    choices.filter(|c: Seq<char>| starts_with(c, input))
}

/// The choices that start with `input`, in order.
pub fn suggest_choice(input: &str, choices: &[String]) -> (res: Vec<String>)
    ensures
        views(res@) == suggestions(input@, views(choices@)),
{
    let ghost cs = views(choices@);
    let mut res: Vec<String> = Vec::new();
    let mut i: usize = 0;
    while i < choices.len()
        invariant
            i <= choices@.len(),
            cs == views(choices@),
            views(res@) == suggestions(input@, cs.take(i as int)),
        decreases choices@.len() - i,
    {
        assert(cs.take(i + 1).drop_last() =~= cs.take(i as int));
        assert(suggestions(input@, cs.take(i + 1)) == if starts_with(cs[i as int], input@) {
            suggestions(input@, cs.take(i as int)).push(cs[i as int])
        } else {
            suggestions(input@, cs.take(i as int))
        }) by {
            reveal(Seq::filter);
            assert(cs.take(i + 1).last() == cs[i as int]);
        }
        if crate::text::str_starts_with(choices[i].as_str(), input) {
            let ghost before = res@;
            res.push(choices[i].clone());
            assert(views(res@) =~= views(before).push(cs[i as int]));
        }
        i = i + 1;
    }
    assert(cs.take(choices@.len() as int) =~= cs);
    res
}

/// Whether the user's answer is one of the choices; `Err` holds the message shown otherwise.
pub fn validate_choice(input: &str, choices: &[String]) -> (res: Result<(), String>)
    ensures
        res is Ok <==> views(choices@).contains(input@),
        res matches Err(m) ==> m@ == seq![
            'i',
            'n',
            'v',
            'a',
            'l',
            'i',
            'd',
            ' ',
            'c',
            'h',
            'o',
            'i',
            'c',
            'e',
            ':',
            ' ',
        ] + input@,
{
    let mut i: usize = 0;
    while i < choices.len()
        invariant
            i <= choices@.len(),
            forall|k: int| 0 <= k < i ==> choices@[k]@ != input@,
        decreases choices@.len() - i,
    {
        if crate::text::str_eq(choices[i].as_str(), input) {
            assert(views(choices@)[i as int] == input@);
            return Ok(());
        }
        i = i + 1;
    }
    proof {
        if views(choices@).contains(input@) {
            let k = choose|k: int| 0 <= k < views(choices@).len() && views(choices@)[k] == input@;
            assert(choices@[k]@ == input@);
        }
    }
    let prefix = "invalid choice: ";
    proof {
        reveal_strlit("invalid choice: ");
    }
    let mut v = crate::text::chars_of(prefix);
    let w = crate::text::chars_of(input);
    crate::text::extend_chars(&mut v, w.as_slice());
    let m = crate::text::string_of(v.as_slice());
    assert(m@ =~= seq![
        'i',
        'n',
        'v',
        'a',
        'l',
        'i',
        'd',
        ' ',
        'c',
        'h',
        'o',
        'i',
        'c',
        'e',
        ':',
        ' ',
    ] + input@);
    Err(m)
}

// ---------------------------------------------------------------------------
// Template variables
// ---------------------------------------------------------------------------

/// The versions of the Lambda crates that new projects depend on, when known.
#[derive(Debug)]
pub struct DependencyVersions {
    pub lambda_http: Option<String>,
    pub lambda_runtime: Option<String>,
    pub aws_lambda_events: Option<String>,
    pub lambda_extension: Option<String>,
}

/// A string value, or no value.
pub open spec fn opt_value(o: Option<String>) -> ValueView {
    match o {
        Some(s) => ValueView::Str(s@),
        None => ValueView::Nil,
    }
}

/// A string value, or no value.
fn opt_string_value(o: &Option<String>) -> (res: TemplateValue)
    ensures
        res@ == opt_value(*o),
{
    match o {
        Some(s) => TemplateValue::Str(s.clone()),
        None => TemplateValue::Nil,
    }
}

/// A named variable.
fn var(name: &str, value: TemplateValue) -> (res: (String, TemplateValue))
    ensures
        res.0@ == name@,
        res.1@ == value@,
{
    (name.to_string(), value)
}

/// The import path, module and type of a function's event type, when it has one in the
/// form `module::Type`.
pub open spec fn event_triple(o: FunctionOptions) -> Option<(Seq<char>, Seq<char>, Seq<char>)> {
    if o.has_event_type_spec() {
        let s = o.event_type->0@;
        match first_double_colon(s) {
            Some(i) => Some((events_module() + s, s.take(i), s.skip(i + 2))),
            None => None,
        }
    } else {
        None
    }
}

/// Whether the event type of a function, if it has one, is of the form `module::Type`.
pub open spec fn event_type_ok(o: FunctionOptions) -> bool {
    !o.has_event_type_spec() || first_double_colon(o.event_type->0@) is Some
}

/// The variables of a function template, in order.
pub open spec fn function_variables(
    o: FunctionOptions,
    package_name: Seq<char>,
    binary_name: Option<String>,
    versions: DependencyVersions,
) -> Seq<(Seq<char>, ValueView)> {
    let triple = event_triple(o);
    seq![
        ("function_name"@, match binary_name {
            Some(n) => if n@ != package_name {
                ValueView::Str(n@)
            } else {
                ValueView::Nil
            },
            None => ValueView::Nil,
        }),
        ("basic_example"@, ValueView::Bool(!o.http && !o.has_event_type_spec())),
        ("http_function"@, ValueView::Bool(o.http)),
        ("http_feature"@, match o.http_feature {
            Some(f) => ValueView::Str(http_feature_name(f)),
            None => ValueView::Nil,
        }),
        ("event_type"@, match triple {
            Some((_, _, t)) => ValueView::Str(t),
            None => ValueView::Nil,
        }),
        ("event_type_feature"@, match triple {
            Some((_, m, _)) => ValueView::Str(m),
            None => ValueView::Nil,
        }),
        ("event_type_import"@, match triple {
            Some((i, _, _)) => ValueView::Str(i),
            None => ValueView::Nil,
        }),
        ("lambda_http_version"@, opt_value(versions.lambda_http)),
        ("lambda_runtime_version"@, opt_value(versions.lambda_runtime)),
        ("aws_lambda_events_version"@, opt_value(versions.aws_lambda_events)),
    ]
}

impl FunctionOptions {
    /// The variables of a function template: the function's name when the binary is named
    /// otherwise than the package, whether it is the basic example, the HTTP settings, the
    /// event type with its module and import path, and the versions of the Lambda crates;
    /// an event type without `::` is refused as `event_type_triple` refuses it.
    #[verifier::rlimit(40)]
    pub fn variables(
        &self,
        package_name: &str,
        binary_name: &Option<String>,
        versions: &DependencyVersions,
    ) -> (res: Result<Vec<(String, TemplateValue)>, CreateError>)
        ensures
            match res {
                Ok(vars) => event_type_ok(*self) && variables_view(vars@) == function_variables(
                    *self,
                    package_name@,
                    *binary_name,
                    *versions,
                ),
                Err(e) => e is UnexpectedEventType && !event_type_ok(*self),
            },
    {
        let triple = match self.event_type_triple() {
            Ok(t) => t,
            Err(e) => {
                return Err(e);
            },
        };
        let function_name = match binary_name {
            Some(n) => if !crate::text::str_eq(n.as_str(), package_name) {
                TemplateValue::Str(n.clone())
            } else {
                TemplateValue::Nil
            },
            None => TemplateValue::Nil,
        };
        let http_feature = match &self.http_feature {
            Some(f) => TemplateValue::Str(f.to_string()),
            None => TemplateValue::Nil,
        };
        let (ev_import, ev_feat, ev_type) = match &triple {
            Some((i, m, t)) => (
                TemplateValue::Str(i.clone()),
                TemplateValue::Str(m.clone()),
                TemplateValue::Str(t.clone()),
            ),
            None => (TemplateValue::Nil, TemplateValue::Nil, TemplateValue::Nil),
        };
        let basic = !self.http && !self.has_event_type();
        assert(match event_triple(*self) {
            Some((i, m, t)) => ev_import@ == ValueView::Str(i) && ev_feat@ == ValueView::Str(m)
                && ev_type@ == ValueView::Str(t),
            None => ev_import@ == ValueView::Nil && ev_feat@ == ValueView::Nil && ev_type@
                == ValueView::Nil,
        });
        let mut vars: Vec<(String, TemplateValue)> = Vec::new();
        vars.push(var("function_name", function_name));
        vars.push(var("basic_example", TemplateValue::Bool(basic)));
        vars.push(var("http_function", TemplateValue::Bool(self.http)));
        vars.push(var("http_feature", http_feature));
        vars.push(var("event_type", ev_type));
        vars.push(var("event_type_feature", ev_feat));
        vars.push(var("event_type_import", ev_import));
        vars.push(var("lambda_http_version", opt_string_value(&versions.lambda_http)));
        vars.push(var("lambda_runtime_version", opt_string_value(&versions.lambda_runtime)));
        vars.push(var("aws_lambda_events_version", opt_string_value(&versions.aws_lambda_events)));
        assert(variables_view(vars@) =~= function_variables(
            *self,
            package_name@,
            *binary_name,
            *versions,
        ));
        Ok(vars)
    }
}

/// The variables of an extension template, in order.
pub open spec fn extension_variables(o: ExtensionOptions, version: Option<String>) -> Seq<
    (Seq<char>, ValueView),
> {
    seq![
        ("logs"@, ValueView::Bool(o.logs)),
        ("telemetry"@, ValueView::Bool(o.telemetry)),
        ("events"@, ValueView::Bool(o.events || (!o.logs && !o.telemetry))),
        ("lambda_extension_version"@, opt_value(version)),
    ]
}

impl ExtensionOptions {
    /// The variables of an extension template: the processors it includes and the version
    /// of the extension crate.
    pub fn variables(&self, version: &Option<String>) -> (res: Vec<(String, TemplateValue)>)
        ensures
            variables_view(res@) == extension_variables(*self, *version),
    {
        let mut vars: Vec<(String, TemplateValue)> = Vec::new();
        vars.push(var("logs", TemplateValue::Bool(self.logs)));
        vars.push(var("telemetry", TemplateValue::Bool(self.telemetry)));
        vars.push(var("events", TemplateValue::Bool(self.add_events_extension())));
        vars.push(var("lambda_extension_version", opt_string_value(version)));
        assert(variables_view(vars@) =~= extension_variables(*self, *version));
        vars
    }
}

/// A copy of the variables.
fn copy_variables(v: &Vec<(String, TemplateValue)>) -> (res: Vec<(String, TemplateValue)>)
    ensures
        variables_view(res@) == variables_view(v@),
{
    let mut out: Vec<(String, TemplateValue)> = Vec::new();
    let mut i: usize = 0;
    while i < v.len()
        invariant
            i <= v@.len(),
            out@.len() == i,
            variables_view(out@) == variables_view(v@).take(i as int),
        decreases v@.len() - i,
    {
        let ghost before = out@;
        let k = v[i].0.clone();
        let val = v[i].1.copy();
        assert(k@ == v@[i as int].0@);
        assert(val@ == v@[i as int].1@);
        out.push((k, val));
        assert forall|j: int| 0 <= j < i + 1 implies #[trigger] variables_view(out@)[j]
            == variables_view(v@).take(i + 1)[j] by {
            if j < i {
                assert(out@[j] == before[j]);
                assert(variables_view(before)[j] == variables_view(v@).take(i as int)[j]);
            }
        }
        assert(variables_view(out@) =~= variables_view(v@).take(i + 1));
        i = i + 1;
    }
    assert(variables_view(v@).take(i as int) =~= variables_view(v@));
    out
}

/// The options of a new project that its template variables depend on.
#[derive(Debug)]
pub struct ProjectConfig {
    /// Whether the project is an extension.
    pub extension: bool,
    pub function_options: FunctionOptions,
    pub extension_options: ExtensionOptions,
    /// The name of the binary, when it differs from the package's.
    pub bin_name: Option<String>,
    /// Whether the template's prompts take their default values.
    pub no_interactive: bool,
    /// `KEY=VALUE` variables given on the command line.
    pub render_var: Option<Vec<String>>,
}

/// The variables of the function or extension of a new project.
pub open spec fn kind_variables(config: ProjectConfig, name: Seq<char>, versions: DependencyVersions) -> Seq<
    (Seq<char>, ValueView),
> {
    if config.extension {
        extension_variables(config.extension_options, versions.lambda_extension)
    } else {
        function_variables(config.function_options, name, config.bin_name, versions)
    }
}

/// The answers to a template's prompts: none without prompts, their defaults without
/// interaction, else those asked.
pub open spec fn prompt_answers(
    config: ProjectConfig,
    template_config: TemplateConfig,
    asked: Seq<(String, TemplateValue)>,
) -> Seq<(Seq<char>, ValueView)> {
    if template_config.prompts@.len() == 0 {
        Seq::empty()
    } else if config.no_interactive {
        template_config.prompts@.map_values(
            |p: (String, crate::template::TemplatePrompt)| (p.0@, default_answer(p.1)),
        )
    } else {
        variables_view(asked)
    }
}

/// The value of variable `k` in a new project: a command-line variable, else a prompt's
/// answer, else a variable of the function or extension, else the project's and binary's
/// names.
pub open spec fn project_variable(
    config: ProjectConfig,
    template_config: TemplateConfig,
    name: Seq<char>,
    versions: DependencyVersions,
    asked: Seq<(String, TemplateValue)>,
    k: Seq<char>,
) -> Option<ValueView> {
    let from_flags = match config.render_var {
        Some(lines) => last_render(lines@, k),
        None => None,
    };
    match from_flags {
        Some(v) => Some(v),
        None => match view_lookup(prompt_answers(config, template_config, asked), k) {
            Some(v) => Some(v),
            None => match view_lookup(kind_variables(config, name, versions), k) {
                Some(v) => Some(v),
                None => view_lookup(
                    seq![("project_name"@, ValueView::Str(name)), ("binary_name"@, opt_value(config.bin_name))],
                    k,
                ),
            },
        },
    }
}

/// The variables that a new project's template is rendered with: the project's and
/// binary's names, the variables of the function (`versions` giving the versions of the
/// Lambda crates) or of the extension, the answers to the template's prompts (their
/// defaults without interaction, else `asked`), then the command-line variables; each
/// later one wins.
pub fn build_template_variables(
    config: &ProjectConfig,
    template_config: &TemplateConfig,
    name: &str,
    versions: &DependencyVersions,
    asked: &Vec<(String, TemplateValue)>,
) -> (res: Result<Vec<(String, TemplateValue)>, CreateError>)
    ensures
        match res {
            Ok(vars) => (config.extension || event_type_ok(config.function_options)) && forall|
                k: Seq<char>,
            | #[trigger]
                var_lookup(vars@, k) == project_variable(
                    *config,
                    *template_config,
                    name@,
                    *versions,
                    asked@,
                    k,
                ),
            Err(e) => !config.extension && !event_type_ok(config.function_options)
                && e is UnexpectedEventType,
        },
{
    let mut base: Vec<(String, TemplateValue)> = Vec::new();
    base.push(var("project_name", TemplateValue::Str(name.to_string())));
    base.push(var("binary_name", opt_string_value(&config.bin_name)));
    assert(variables_view(base@) =~= seq![
        ("project_name"@, ValueView::Str(name@)),
        ("binary_name"@, opt_value(config.bin_name)),
    ]);
    let kind = if config.extension {
        config.extension_options.variables(&versions.lambda_extension)
    } else {
        match config.function_options.variables(name, &config.bin_name, versions) {
            Ok(v) => v,
            Err(e) => {
                return Err(e);
            },
        }
    };
    assert(variables_view(kind@) == kind_variables(*config, name@, *versions));
    let answers: Vec<(String, TemplateValue)> = if template_config.prompts.len() == 0 {
        Vec::new()
    } else if config.no_interactive {
        template_config.default_template_options()
    } else {
        copy_variables(asked)
    };
    assert(variables_view(answers@) =~= prompt_answers(*config, *template_config, asked@));
    let mut vars: Vec<(String, TemplateValue)> = Vec::new();
    extend_variables(&mut vars, &base);
    let ghost v0 = vars@;
    extend_variables(&mut vars, &kind);
    let ghost v1 = vars@;
    extend_variables(&mut vars, &answers);
    let ghost v2 = vars@;
    let lines: Vec<String> = match &config.render_var {
        Some(lines) => lines.clone(),
        None => Vec::new(),
    };
    set_render_variables(&mut vars, &lines);
    proof {
        assert forall|k: Seq<char>| #[trigger]
            var_lookup(vars@, k) == project_variable(
                *config,
                *template_config,
                name@,
                *versions,
                asked@,
                k,
            ) by {
            assert(var_lookup(v0, k) == crate::template::layered(Seq::empty(), base@, k));
            assert(var_lookup(v1, k) == crate::template::layered(v0, kind@, k));
            assert(var_lookup(v2, k) == crate::template::layered(v1, answers@, k));
            assert(var_lookup(Seq::<(String, TemplateValue)>::empty(), k) is None);
            if config.render_var is None {
                assert(last_render(lines@, k) is None);
            }
        }
    }
    Ok(vars)
}

/// An extension template gets an Events processor exactly when it is asked for, or when
/// neither a Logs nor a Telemetry processor is: its `events` variable says so, and the
/// `logs` and `telemetry` variables are the flags as given.
pub proof fn law_extension_events(o: ExtensionOptions, version: Option<String>)
    ensures
        view_lookup(extension_variables(o, version), "events"@) == Some(
            ValueView::Bool(o.events || !(o.logs || o.telemetry)),
        ),
        view_lookup(extension_variables(o, version), "logs"@) == Some(ValueView::Bool(o.logs)),
        view_lookup(extension_variables(o, version), "telemetry"@) == Some(
            ValueView::Bool(o.telemetry),
        ),
{
    reveal_strlit("logs");
    reveal_strlit("telemetry");
    reveal_strlit("events");
    reveal_strlit("lambda_extension_version");
    assert("logs"@.len() == 4 && "telemetry"@.len() == 9 && "events"@.len() == 6
        && "lambda_extension_version"@.len() == 24);
    let s = extension_variables(o, version);
    assert(s.drop_last().drop_last().drop_last().drop_last() =~= Seq::<(Seq<char>, ValueView)>::empty());
    reveal_with_fuel(view_lookup, 5);
}

} // verus!
