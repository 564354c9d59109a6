//! The decisions of a deploy: which name and binary to deploy, when to wait for Lambda,
//! which settings of an existing function to change, and which errors mean what.
use vstd::prelude::*;
use crate::deploy::{Deploy, TracingConfig};
use crate::env::{environment, map_or_empty};
use crate::error::MetadataError;
use crate::lambda::tracing_name;
use crate::strmap::StringMap;
use crate::text::{opt_view, opt_views, views};

verus! {

// ---------------------------------------------------------------------------
// Names
// ---------------------------------------------------------------------------

/// The name of the binary to deploy: the one given with `--binary-name`, else `name`.
pub fn binary_name_or_default(config: &Deploy, name: &str) -> (res: String)
    ensures
        res@ == match config.binary_name {
            Some(b) => b@,
            None => name@,
        },
{
    match &config.binary_name {
        Some(b) => b.clone(),
        None => crate::text::owned(name),
    }
}

/// The name to deploy a function under when no binary path is given: the name given,
/// else the binary name given, else the project's only binary (`main_binary`).
pub fn function_name(config: &Deploy, main_binary: Result<String, MetadataError>) -> (res: Result<
    String,
    MetadataError,
>)
    ensures
        match config.name {
            Some(n) => res matches Ok(r) && r@ == n@,
            None => match config.binary_name {
                Some(b) => res matches Ok(r) && r@ == b@,
                None => res == main_binary,
            },
        },
{
    match &config.name {
        Some(n) => Ok(n.clone()),
        None => match &config.binary_name {
            Some(b) => Ok(b.clone()),
            None => main_binary,
        },
    }
}

/// Checks the function URL flags: they cannot both be set.
pub fn check_function_url_flags(config: &Deploy) -> (res: Result<(), String>)
    ensures
        res is Err <==> (config.function_config.enable_function_url
            && config.function_config.disable_function_url),
{
    if config.function_config.enable_function_url && config.function_config.disable_function_url {
        Err(
            crate::text::owned(
                "invalid options: --enable-function-url and --disable-function-url cannot be set together",
            ),
        )
    } else {
        Ok(())
    }
}

// ---------------------------------------------------------------------------
// Roles
// ---------------------------------------------------------------------------

/// The execution role of a function, and whether the deploy created it.
#[derive(Debug)]
pub struct FunctionRole(pub String, pub bool);

impl FunctionRole {
    /// A role that the deploy created.
    pub fn new(arn: String) -> (res: FunctionRole)
        ensures
            res.0 == arn,
            res.1,
    {
        FunctionRole(arn, true)
    }

    /// A role that existed before.
    pub fn from_existing(arn: String) -> (res: FunctionRole)
        ensures
            res.0 == arn,
            !res.1,
    {
        FunctionRole(arn, false)
    }

    /// The role's ARN.
    pub fn arn(&self) -> (res: &str)
        ensures
            res@ == self.0@,
    {
        self.0.as_str()
    }

    /// Whether the deploy created the role.
    pub fn is_new(&self) -> (res: bool)
        ensures
            res == self.1,
    {
        self.1
    }
}

/// What to do after a failed attempt to assume a new role.
#[derive(Debug, Clone, Copy, PartialEq, Eq, Structural)]
pub enum AssumeRoleStep {
    /// Wait this many seconds, then try again.
    RetryAfter(u64),
    /// Give up with the error.
    Fail,
}

/// After failed attempt `attempt` (of two) to assume a new role: a denied access may be
/// a role that has not propagated yet, so wait five seconds per attempt and try again.
pub fn assume_role_step(attempt: u64, error_code: Option<&str>) -> (res: AssumeRoleStep)
    requires
        1 <= attempt < 3,
    ensures
        res == if error_code matches Some(c) && c@ == seq![
            'A',
            'c',
            'c',
            'e',
            's',
            's',
            'D',
            'e',
            'n',
            'i',
            'e',
            'd',
        ] {
            AssumeRoleStep::RetryAfter((attempt * 5) as u64)
        } else {
            AssumeRoleStep::Fail
        },
{
    let denied = "AccessDenied";
    proof {
        reveal_strlit("AccessDenied");
    }
    assert(denied@ =~= seq!['A', 'c', 'c', 'e', 's', 's', 'D', 'e', 'n', 'i', 'e', 'd']);
    match error_code {
        Some(c) => if crate::text::str_eq(c, denied) {
            AssumeRoleStep::RetryAfter(attempt * 5)
        } else {
            AssumeRoleStep::Fail
        },
        None => AssumeRoleStep::Fail,
    }
}

// ---------------------------------------------------------------------------
// Layers
// ---------------------------------------------------------------------------

/// How many times `x` occurs in `s`.
pub open spec fn occurrences(s: Seq<Seq<char>>, x: Seq<char>) -> nat
    decreases s.len(),
{
    if s.len() == 0 {
        0
    } else {
        occurrences(s.drop_last(), x) + if s.last() == x {
            1nat
        } else {
            0nat
        }
    }
}

/// Whether two lists hold the same strings as often, in any order.
pub open spec fn same_elements(a: Seq<Seq<char>>, b: Seq<Seq<char>>) -> bool {
    forall|x: Seq<char>| #[trigger] occurrences(a, x) == occurrences(b, x)
}

/// A string that does not occur has no occurrences, and one that occurs has some.
proof fn lemma_occurrences_contains(s: Seq<Seq<char>>, x: Seq<char>)
    ensures
        (occurrences(s, x) > 0) == s.contains(x),
    decreases s.len(),
{
    if s.len() > 0 {
        lemma_occurrences_contains(s.drop_last(), x);
        if s.drop_last().contains(x) {
            let i = choose|i: int| 0 <= i < s.drop_last().len() && s.drop_last()[i] == x;
            assert(s[i] == x);
        }
        if s.contains(x) && s.last() != x {
            let i = choose|i: int| 0 <= i < s.len() && s[i] == x;
            assert(s.drop_last()[i] == x);
        }
    }
}

/// How many times `x` occurs in `v`.
fn count_of(v: &Vec<String>, x: &str) -> (res: usize)
    ensures
        res == occurrences(views(v@), x@),
{
    let ghost s = views(v@);
    let mut n: usize = 0;
    let mut i: usize = 0;
    while i < v.len()
        invariant
            i <= v@.len(),
            s == views(v@),
            n == occurrences(s.take(i as int), x@),
            n <= i,
        decreases v@.len() - i,
    {
        assert(s.take(i + 1).drop_last() =~= s.take(i as int));
        if crate::text::str_eq(v[i].as_str(), x) {
            n = n + 1;
        }
        i = i + 1;
    }
    assert(s.take(v@.len() as int) =~= s);
    n
}

/// Whether the strings of `a` and `b` are the same, as often, in any order.
pub fn same_strings(a: &Vec<String>, b: &Vec<String>) -> (res: bool)
    ensures
        res == same_elements(views(a@), views(b@)),
{
    let mut i: usize = 0;
    while i < a.len()
        invariant
            i <= a@.len(),
            forall|k: int| 0 <= k < i ==> occurrences(views(a@), #[trigger] views(a@)[k])
                == occurrences(views(b@), views(a@)[k]),
        decreases a@.len() - i,
    {
        if count_of(a, a[i].as_str()) != count_of(b, a[i].as_str()) {
            return false;
        }
        i = i + 1;
    }
    let mut j: usize = 0;
    while j < b.len()
        invariant
            j <= b@.len(),
            forall|k: int| 0 <= k < a@.len() ==> occurrences(views(a@), #[trigger] views(a@)[k])
                == occurrences(views(b@), views(a@)[k]),
            forall|k: int| 0 <= k < j ==> occurrences(views(a@), #[trigger] views(b@)[k])
                == occurrences(views(b@), views(b@)[k]),
        decreases b@.len() - j,
    {
        if count_of(a, b[j].as_str()) != count_of(b, b[j].as_str()) {
            return false;
        }
        j = j + 1;
    }
    proof {
        assert forall|x: Seq<char>| #[trigger] occurrences(views(a@), x) == occurrences(
            views(b@),
            x,
        ) by {
            lemma_occurrences_contains(views(a@), x);
            lemma_occurrences_contains(views(b@), x);
            if views(a@).contains(x) {
                let k = choose|k: int| 0 <= k < views(a@).len() && views(a@)[k] == x;
                assert(occurrences(views(a@), views(a@)[k]) == occurrences(views(b@), views(a@)[k]));
            } else if views(b@).contains(x) {
                let k = choose|k: int| 0 <= k < views(b@).len() && views(b@)[k] == x;
                assert(occurrences(views(a@), views(b@)[k]) == occurrences(views(b@), views(b@)[k]));
            }
        }
    }
    true
}

/// Whether the layers of a function need an update: layers are given and differ, in any
/// order, from those it has (a layer without ARN counting as an empty one); or none are
/// given and it has some.
pub open spec fn layers_need_update(layer_arn: Option<Vec<String>>, current: Seq<Option<String>>) -> bool {
    match layer_arn {
        None => current.len() > 0,
        Some(nl) => current.len() == 0 || !same_elements(
            current.map_values(|l: Option<String>| layer_arn_view(l)),
            views(nl@),
        ),
    }
}

/// Whether the layers of a function change: some are given and it has none, or they are
/// not the ones it has, in any order, from those it has (a layer without ARN counting as an
/// empty one); or none are given and it has some.
pub fn should_update_layers(layer_arn: &Option<Vec<String>>, current: &Vec<Option<String>>) -> (res:
    bool)
    ensures
        res == layers_need_update(*layer_arn, current@),
        res == match layer_arn {
            None => current@.len() > 0,
            Some(nl) => current@.len() == 0 || !same_elements(
                current@.map_values(|l: Option<String>| layer_arn_view(l)),
                views(nl@),
            ),
        },
{
    let mut c: Vec<String> = Vec::new();
    let mut i: usize = 0;
    while i < current.len()
        invariant
            i <= current@.len(),
            views(c@) == current@.map_values(|l: Option<String>| layer_arn_view(l)).take(i as int),
        decreases current@.len() - i,
    {
        let arn = match &current[i] {
            Some(a) => a.clone(),
            None => String::new(),
        };
        let ghost before = views(c@);
        c.push(arn);
        assert(views(c@) =~= before.push(layer_arn_view(current@[i as int])));
        assert(current@.map_values(|l: Option<String>| layer_arn_view(l)).take(i + 1)
            =~= current@.map_values(|l: Option<String>| layer_arn_view(l)).take(i as int).push(
            layer_arn_view(current@[i as int]),
        ));
        i = i + 1;
    }
    assert(current@.map_values(|l: Option<String>| layer_arn_view(l)).take(current@.len() as int)
        =~= current@.map_values(|l: Option<String>| layer_arn_view(l)));
    match layer_arn {
        None => current.len() > 0,
        Some(nl) => {
            if current.len() == 0 {
                true
            } else {
                !same_strings(&c, nl)
            }
        },
    }
}

/// The ARN of a layer, empty when it has none.
pub open spec fn layer_arn_view(l: Option<String>) -> Seq<char> {
    match l {
        Some(a) => a@,
        None => Seq::empty(),
    }
}

/// Whether the layers need an update does not depend on the order in which either side
/// lists them.
pub proof fn law_layer_order_is_irrelevant(
    current: Seq<Seq<char>>,
    current2: Seq<Seq<char>>,
    given: Seq<Seq<char>>,
    given2: Seq<Seq<char>>,
)
    requires
        same_elements(current, current2),
        same_elements(given, given2),
    ensures
        same_elements(current, given) == same_elements(current2, given2),
{
    if same_elements(current, given) {
        assert forall|x: Seq<char>| #[trigger] occurrences(current2, x) == occurrences(given2, x) by {
            assert(occurrences(current, x) == occurrences(current2, x));
            assert(occurrences(given, x) == occurrences(given2, x));
            assert(occurrences(current, x) == occurrences(given, x));
        }
    }
    if same_elements(current2, given2) {
        assert forall|x: Seq<char>| #[trigger] occurrences(current, x) == occurrences(given, x) by {
            assert(occurrences(current, x) == occurrences(current2, x));
            assert(occurrences(given, x) == occurrences(given2, x));
            assert(occurrences(current2, x) == occurrences(given2, x));
        }
    }
}

// ---------------------------------------------------------------------------
// Function state
// ---------------------------------------------------------------------------

/// The state of a Lambda function.
#[derive(Debug, Clone)]
pub enum FunctionState {
    Pending,
    Active,
    Inactive,
    Failed,
    Other(String),
}

/// The status of the last update of a Lambda function.
#[derive(Debug, Clone)]
pub enum LastUpdateStatus {
    InProgress,
    Failed,
    Successful,
    Other(String),
}

/// Whether a function must be waited for before its configuration changes: its state is
/// unknown or pending, or an update is in progress.
pub fn needs_wait(state: &Option<FunctionState>, status: &Option<LastUpdateStatus>) -> (res: bool)
    ensures
        res == (state is None || state matches Some(FunctionState::Pending) || status matches Some(
            LastUpdateStatus::InProgress,
        )),
{
    let a = match state {
        None => true,
        Some(FunctionState::Pending) => true,
        _ => false,
    };
    let b = match status {
        Some(LastUpdateStatus::InProgress) => true,
        _ => false,
    };
    a || b
}

/// What a poll of a function's state while waiting for it says.
#[derive(Debug, Clone, Copy, PartialEq, Eq, Structural)]
pub enum ReadyCheck {
    /// Keep waiting.
    Wait,
    /// The function is ready.
    Ready,
    /// The state is not known.
    UnknownState,
    /// The last update has a status that was not expected.
    UnexpectedStatus,
    /// The state is not one that was expected.
    UnexpectedState,
}

/// What a poll of a function's state while waiting for it says: a pending function, or
/// an update in progress, is waited for; an update that failed or succeeded, or none,
/// means ready.
pub fn ready_check(state: &Option<FunctionState>, status: &Option<LastUpdateStatus>) -> (res: ReadyCheck)
    ensures
        res == match state {
            None => ReadyCheck::UnknownState,
            Some(FunctionState::Pending) => ReadyCheck::Wait,
            Some(FunctionState::Other(_)) => ReadyCheck::UnexpectedState,
            Some(_) => match status {
                Some(LastUpdateStatus::InProgress) => ReadyCheck::Wait,
                None => ReadyCheck::Ready,
                Some(LastUpdateStatus::Failed) => ReadyCheck::Ready,
                Some(LastUpdateStatus::Successful) => ReadyCheck::Ready,
                Some(LastUpdateStatus::Other(_)) => ReadyCheck::UnexpectedStatus,
            },
        },
{
    match state {
        None => ReadyCheck::UnknownState,
        Some(FunctionState::Pending) => ReadyCheck::Wait,
        Some(FunctionState::Other(_)) => ReadyCheck::UnexpectedState,
        Some(_) => match status {
            Some(LastUpdateStatus::InProgress) => ReadyCheck::Wait,
            None => ReadyCheck::Ready,
            Some(LastUpdateStatus::Failed) => ReadyCheck::Ready,
            Some(LastUpdateStatus::Successful) => ReadyCheck::Ready,
            Some(LastUpdateStatus::Other(_)) => ReadyCheck::UnexpectedStatus,
        },
    }
}

/// The polls of a function while waiting for it, as the seconds to wait before each:
/// three polls, after four, nine and sixteen seconds. What follows each poll is
/// `after_poll`.
pub fn ready_wait_schedule() -> (res: Vec<u64>)
    ensures
        res@ == seq![4u64, 9u64, 16u64],
{
    let mut res: Vec<u64> = Vec::new();
    let mut attempt: u64 = 2;
    while attempt < 5
        invariant
            2 <= attempt <= 5,
            res@.len() == attempt - 2,
            forall|k: int| 0 <= k < res@.len() ==> res@[k] == (k + 2) * (k + 2),
        decreases 5 - attempt,
    {
        assert(attempt * attempt <= 25) by (nonlinear_arith)
            requires
                attempt <= 5,
        ;
        res.push(attempt * attempt);
        attempt = attempt + 1;
    }
    assert(res@[0] == 4 && res@[1] == 9 && res@[2] == 16);
    assert(res@ =~= seq![4u64, 9u64, 16u64]);
    res
}

/// What the wait for a function does after a poll.
#[derive(Debug, Clone, Copy, PartialEq, Eq, Structural)]
pub enum WaitStep {
    /// The function is ready: the wait ends.
    Done,
    /// Poll again after this many seconds.
    PollAgain(u64),
    /// The last poll still said to wait: the wait fails with `timed_out_message`.
    TimedOut,
    /// The wait fails: the state is not known.
    UnknownState,
    /// The wait fails: the last update has a status that was not expected.
    UnexpectedStatus,
    /// The wait fails: the state is not one that was expected.
    UnexpectedState,
}

/// What the wait does after poll `attempt` (the second, third or fourth attempt, made after
/// waiting `attempt * attempt` seconds) found `check`: a ready function ends the wait; one
/// to wait for is polled again after `(attempt + 1)²` seconds, until the fourth attempt,
/// after which the wait gives up; an unknown or unexpected state or status fails it.
pub fn after_poll(attempt: u64, check: ReadyCheck) -> (res: WaitStep)
    requires
        2 <= attempt <= 4,
    ensures
        res == match check {
            ReadyCheck::Ready => WaitStep::Done,
            ReadyCheck::Wait => if attempt < 4 {
                WaitStep::PollAgain(((attempt + 1) * (attempt + 1)) as u64)
            } else {
                WaitStep::TimedOut
            },
            ReadyCheck::UnknownState => WaitStep::UnknownState,
            ReadyCheck::UnexpectedStatus => WaitStep::UnexpectedStatus,
            ReadyCheck::UnexpectedState => WaitStep::UnexpectedState,
        },
{
    match check {
        ReadyCheck::Ready => WaitStep::Done,
        ReadyCheck::Wait => if attempt < 4 {
            let next = attempt + 1;
            assert(next * next <= 25) by (nonlinear_arith)
                requires
                    next <= 5,
            ;
            WaitStep::PollAgain(next * next)
        } else {
            WaitStep::TimedOut
        },
        ReadyCheck::UnknownState => WaitStep::UnknownState,
        ReadyCheck::UnexpectedStatus => WaitStep::UnexpectedStatus,
        ReadyCheck::UnexpectedState => WaitStep::UnexpectedState,
    }
}

/// The error of a wait that gave up.
pub fn timed_out_message() -> (res: String)
    ensures
        res@ == "configuration update didn't finish in time, wait a few minutes and try again"@,
{
    crate::text::owned("configuration update didn't finish in time, wait a few minutes and try again")
}

// ---------------------------------------------------------------------------
// Configuration updates
// ---------------------------------------------------------------------------

/// The configuration that an existing function has.
#[derive(Debug)]
pub struct CurrentConfig {
    pub state: Option<FunctionState>,
    pub last_update_status: Option<LastUpdateStatus>,
    pub memory_size: Option<i32>,
    pub timeout: Option<i32>,
    /// The ARNs of its layers.
    pub layers: Vec<Option<String>>,
    /// Its environment variables.
    pub environment: Option<StringMap>,
    /// The name of its tracing mode.
    pub tracing_mode: Option<String>,
}

/// The changes to make to an existing function's configuration.
#[derive(Debug)]
pub struct ConfigUpdate {
    /// Whether to wait for the function before changing it.
    pub wait_first: bool,
    /// Whether there is a change to send.
    pub update: bool,
    pub role: Option<String>,
    pub memory_size: Option<i32>,
    pub timeout: Option<i32>,
    /// `Some` when the layers change, to the given list.
    pub layers: Option<Option<Vec<String>>>,
    pub environment: Option<StringMap>,
    pub tracing: Option<TracingConfig>,
    /// Whether the VPC configuration changes, to the given one.
    pub vpc: bool,
}

/// The environment variables that a function has.
pub open spec fn current_env(c: CurrentConfig) -> Map<Seq<char>, Seq<char>> {
    match c.environment {
        Some(m) => m@,
        None => Map::empty(),
    }
}

/// Whether two maps are equal.
pub fn same_map(a: &StringMap, b: &StringMap) -> (res: bool)
    ensures
        res == (a@ == b@),
{
    if a.len() != b.len() {
        return false;
    }
    let pairs = a.pairs();
    let ghost es = a.entries();
    let mut i: usize = 0;
    while i < pairs.len()
        invariant
            i <= pairs@.len(),
            es == crate::strmap::pairs_view(pairs@),
            crate::strmap::keys_unique(es),
            a@ == crate::strmap::map_of(es),
            a@.len() == b@.len(),
            a@.dom().finite(),
            b@.dom().finite(),
            forall|k: int| 0 <= k < i ==> b@.dom().contains(#[trigger] es[k].0) && b@[es[k].0] == es[k].1,
        decreases pairs@.len() - i,
    {
        match b.get(pairs[i].0.as_str()) {
            Some(v) => {
                if !crate::text::str_eq(v.as_str(), pairs[i].1.as_str()) {
                    proof {
                        crate::strmap::lemma_map_of_index(es, i as int);
                    }
                    return false;
                }
            },
            None => {
                proof {
                    crate::strmap::lemma_map_of_index(es, i as int);
                }
                return false;
            },
        }
        i = i + 1;
    }
    proof {
        assert forall|k: Seq<char>| #[trigger] a@.dom().contains(k) implies b@.dom().contains(k) && b@[k]
            == a@[k] by {
            crate::strmap::lemma_map_of_contains(es, k);
            let j = choose|j: int| 0 <= j < es.len() && #[trigger] es[j].0 == k;
            crate::strmap::lemma_map_of_index(es, j);
            assert(b@.dom().contains(es[j].0));
        }
        assert(a@.dom().subset_of(b@.dom()));
        vstd::set_lib::lemma_subset_equality(a@.dom(), b@.dom());
        assert(a@ =~= b@);
    }
    true
}

/// The changes that the deploy settings make to an existing function: wait first when
/// the function is not ready; with settings given, set the role, and change the memory,
/// timeout, layers, environment, tracing mode and VPC where they differ.
pub fn plan_config_update(config: &Deploy, current: &CurrentConfig, file_vars: Option<&StringMap>) -> (res:
    Result<ConfigUpdate, MetadataError>)
    ensures
        res matches Ok(u) ==> {
            let fc = config.function_config;
            &&& u.wait_first == (current.state is None || current.state matches Some(
                FunctionState::Pending,
            ) || current.last_update_status matches Some(LastUpdateStatus::InProgress))
            &&& !fc.should_update_spec() ==> !u.update && u.role is None && u.memory_size is None
                && u.timeout is None && u.layers is None && u.environment is None
                && u.tracing is None && !u.vpc
            &&& fc.should_update_spec() ==> {
                &&& opt_view(u.role) == opt_view(fc.role)
                &&& u.memory_size == (match fc.memory {
                    Some(m) => if current.memory_size != Some(m@ as i32) {
                        Some(m@ as i32)
                    } else {
                        None
                    },
                    None => None,
                })
                &&& u.timeout == (match fc.timeout {
                    Some(t) => if (match current.timeout {
                        Some(c) => c,
                        None => 0,
                    }) != t@ as i32 {
                        Some(t@ as i32)
                    } else {
                        None
                    },
                    None => None,
                })
                &&& u.tracing matches Some(t) ==> (fc.tracing matches Some(m) && t.mode@
                    == tracing_name(m) && opt_view(current.tracing_mode) != Some(tracing_name(m)))
                &&& (fc.tracing matches Some(m) && opt_view(current.tracing_mode) != Some(
                    tracing_name(m),
                )) ==> u.tracing is Some
                &&& u.vpc == (fc.vpc matches Some(v) && (v.subnet_ids is Some
                    || v.security_group_ids is Some || v.ipv6_allowed_for_dual_stack))
                &&& u.update == (u.memory_size is Some || u.timeout is Some || u.layers is Some
                    || u.environment is Some || u.tracing is Some || u.vpc)
                &&& match u.layers {
                    Some(l) => layers_need_update(fc.layer, current.layers@) && opt_views(l)
                        == opt_views(fc.layer),
                    None => !layers_need_update(fc.layer, current.layers@),
                }
                &&& match u.environment {
                    Some(e) => config.lambda_environment_spec(file_vars) == Ok::<
                        Option<Map<Seq<char>, Seq<char>>>,
                        Seq<char>,
                    >(Some(e@)) && e@ != current_env(*current),
                    None => !(config.lambda_environment_spec(file_vars) matches Ok(Some(m)) && m
                        != current_env(*current)),
                }
            }
        },
        res is Err <==> (config.function_config.should_update_spec()
            && config.lambda_environment_spec(file_vars) is Err),
        res matches Err(e) ==> (config.lambda_environment_spec(file_vars) matches Err(bad) && (
        e matches MetadataError::InvalidEnvVar(s) && s@ == bad)),
{
    let wait_first = needs_wait(&current.state, &current.last_update_status);
    let fc = &config.function_config;
    let mut update = ConfigUpdate {
        wait_first,
        update: false,
        role: None,
        memory_size: None,
        timeout: None,
        layers: None,
        environment: None,
        tracing: None,
        vpc: false,
    };
    if !fc.should_update() {
        return Ok(update);
    }
    update.role = crate::text::copy_opt_string(&fc.role);
    if let Some(m) = fc.memory {
        let mem = m.to_i32();
        let differs = match current.memory_size {
            Some(c) => c != mem,
            None => true,
        };
        if differs {
            update.memory_size = Some(mem);
        }
    }
    if let Some(t) = fc.timeout {
        let secs = t.to_i32();
        let cur = match current.timeout {
            Some(c) => c,
            None => 0,
        };
        if cur != secs {
            update.timeout = Some(secs);
        }
    }
    if should_update_layers(&fc.layer, &current.layers) {
        update.layers = Some(crate::text::copy_opt_strings(&fc.layer));
    }
    match config.lambda_environment(file_vars) {
        Err(e) => {
            return Err(e);
        },
        Ok(Some(env)) => {
            let empty = StringMap::new();
            let cur = match &current.environment {
                Some(c) => c,
                None => &empty,
            };
            if !env.is_empty() && !same_map(&env, cur) {
                update.environment = Some(env);
            }
        },
        Ok(None) => {},
    }
    if let Some(tc) = config.tracing_config() {
        let same = match &current.tracing_mode {
            Some(m) => crate::text::str_eq(m.as_str(), tc.mode.as_str()),
            None => false,
        };
        if !same {
            update.tracing = Some(tc);
        }
    }
    if let Some(vpc) = &fc.vpc {
        if vpc.should_update() {
            update.vpc = true;
        }
    }
    update.update = update.memory_size.is_some() || update.timeout.is_some()
        || update.layers.is_some() || update.environment.is_some() || update.tracing.is_some()
        || update.vpc;
    Ok(update)
}

// ---------------------------------------------------------------------------
// Errors of the AWS services
// ---------------------------------------------------------------------------

/// The kind of error that an AWS service reported.
#[derive(Debug, Clone)]
pub enum ServiceErrorKind {
    ResourceNotFound,
    ResourceAlreadyExists,
    Other(String),
}

/// An error of a call to an AWS service.
#[derive(Debug, Clone)]
pub enum SdkError {
    /// The service answered with an error.
    ServiceError(ServiceErrorKind),
    /// The call failed before the service answered.
    Other(String),
}

/// Whether the error says that the resource does not exist.
pub open spec fn is_not_found(err: SdkError) -> bool {
    err matches SdkError::ServiceError(ServiceErrorKind::ResourceNotFound)
}

/// Whether the error says that a resource is missing.
fn resource_not_found(err: &SdkError) -> (res: bool)
    ensures
        res == is_not_found(*err),
{
    match err {
        SdkError::ServiceError(ServiceErrorKind::ResourceNotFound) => true,
        _ => false,
    }
}

/// Whether creating a log group failed because it exists.
pub fn log_group_already_exists_error(err: &SdkError) -> (res: bool)
    ensures
        res == (*err matches SdkError::ServiceError(ServiceErrorKind::ResourceAlreadyExists)),
{
    match err {
        SdkError::ServiceError(ServiceErrorKind::ResourceAlreadyExists) => true,
        _ => false,
    }
}

/// Whether fetching a function failed because it does not exist.
pub fn function_doesnt_exist_error(err: &SdkError) -> (res: bool)
    ensures
        res == is_not_found(*err),
{
    resource_not_found(err)
}

/// Whether fetching a function URL configuration failed because there is none.
pub fn function_url_config_doesnt_exist_error(err: &SdkError) -> (res: bool)
    ensures
        res == is_not_found(*err),
{
    resource_not_found(err)
}

/// Whether deleting a function URL configuration failed because there is none.
pub fn delete_function_url_config_doesnt_exist_error(err: &SdkError) -> (res: bool)
    ensures
        res == is_not_found(*err),
{
    resource_not_found(err)
}

/// Whether fetching an alias failed because it does not exist.
pub fn alias_doesnt_exist_error(err: &SdkError) -> (res: bool)
    ensures
        res == is_not_found(*err),
{
    resource_not_found(err)
}

/// The message of the error that Lambda gives when it cannot assume a function's role.
pub open spec fn role_message() -> Seq<char> {
    seq!['I', 'n', 'v', 'a', 'l', 'i', 'd', 'P', 'a', 'r', 'a', 'm', 'e', 't', 'e', 'r', 'V', 'a', 'l', 'u', 'e', 'E', 'x', 'c', 'e', 'p', 't', 'i', 'o', 'n', ':', ' ', 'T', 'h', 'e', ' ', 'r', 'o', 'l', 'e', ' ', 'd', 'e', 'f', 'i', 'n', 'e', 'd', ' ', 'f', 'o', 'r', ' ', 't', 'h', 'e', ' ', 'f', 'u', 'n', 'c', 't', 'i', 'o', 'n', ' ', 'c', 'a', 'n', 'n', 'o', 't', ' ', 'b', 'e', ' ', 'a', 's', 's', 'u', 'm', 'e', 'd', ' ', 'b', 'y', ' ', 'L', 'a', 'm', 'b', 'd', 'a', '.']
}

/// Whether creating a function failed because Lambda cannot assume its role; only the
/// error's message tells.
pub fn is_role_cannot_be_assumed_error(message: &str) -> (res: bool)
    ensures
        res == (message@ == role_message()),
{
    let m = "InvalidParameterValueException: The role defined for the function cannot be assumed by Lambda.";
    proof {
        reveal_strlit(
            "InvalidParameterValueException: The role defined for the function cannot be assumed by Lambda.",
        );
    }
    assert(m@ =~= role_message());
    crate::text::str_eq(message, m)
}

} // verus!
