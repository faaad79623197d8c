//! Boot-time self-registration of a backend with the registry.
//!
//! When a server starts its WebSocket transport it announces itself with
//! `registry.register { name, host, port, protocol: "ws", version,
//! metadata: { pid, schema_hash }, source: "auto" }`; graceful shutdown sends
//! `registry.deregister { name }`. Registration is fail-open: at most
//! [`REGISTER_ATTEMPTS`] attempts are made, and the server serves whatever
//! their outcome.
//!
//! The conversation with the registry runs over subscriptions whose items
//! arrive asynchronously; this module holds the decisions taken on each of
//! them, as state machines driven by the caller.

use vstd::prelude::*;
use crate::config::{ListenAddr, ListenIp};
use crate::text::{
    ascii_lowercase, ascii_lowercase_eq, decimal, hex, opt_str_view, opt_view, push_decimal, push_hex, spec_trim,
    trim,
};

verus! {

/// Default registry endpoint.
pub const DEFAULT_REGISTRY_URL: &'static str = "ws://127.0.0.1:4444";

/// Environment variable overriding the registry endpoint.
pub const REGISTRY_URL_ENV: &'static str = "PLEXUS_REGISTRY_URL";

/// Environment variable disabling boot-time self-registration entirely.
/// Truthy values: `1`, `true`, `yes` (case-insensitive).
pub const NO_REGISTRY_ENV: &'static str = "PLEXUS_NO_REGISTRY";

/// Registration attempts before giving up.
pub const REGISTER_ATTEMPTS: u32 = 3;

/// Seconds of backoff between registration attempts.
pub const REGISTER_BACKOFF_SECS: u64 = 1;

/// Everything needed to announce (and later invalidate) one backend
/// registration.
#[derive(Clone, Debug)]
pub struct RegistryRegistration {
    /// Registry WebSocket endpoint, e.g. `ws://127.0.0.1:4444`.
    pub url: String,
    /// Backend name (the hub root namespace by default).
    pub name: String,
    /// Host the backend is reachable at.
    pub host: String,
    /// The port the server actually bound (OS-assigned when it asked for 0).
    pub port: u16,
    /// Backend schema version.
    pub version: String,
    /// Schema identity hash (changes when the backend's surface changes).
    pub schema_hash: String,
}

/// Dotted-decimal text of an IPv4 address.
pub open spec fn dotted_quad(ip: Seq<u8>) -> Seq<char> {
    decimal(ip[0] as nat) + seq!['.'] + decimal(ip[1] as nat) + seq!['.'] + decimal(
        ip[2] as nat,
    ) + seq!['.'] + decimal(ip[3] as nat)
}

/// Colon-separated lowercase hexadecimal groups, without leading zeros in
/// a group and without `::` compression (the full form of RFC 4291).
pub open spec fn hex_groups(groups: Seq<u16>) -> Seq<char>
    decreases groups.len(),
{
    if groups.len() == 0 {
        Seq::empty()
    } else if groups.len() == 1 {
        hex(groups[0] as nat)
    } else {
        hex_groups(groups.drop_last()) + seq![':'] + hex(groups.last() as nat)
    }
}

/// The text of a listen address's IP.
pub open spec fn host_of(ip: ListenIp) -> Seq<char> {
    match ip {
        ListenIp::V4(octets) => dotted_quad(octets@),
        ListenIp::V6(groups) => hex_groups(groups@),
    }
}

/// The text of `addr`'s IP: dotted decimal for IPv4, full colon-separated
/// hexadecimal for IPv6.
pub fn host_text(addr: &ListenAddr) -> (res: String)
    ensures
        res@ == host_of(addr.ip),
{
    let mut out = String::new();
    proof {
        reveal_strlit(".");
        reveal_strlit(":");
    }
    match &addr.ip {
        ListenIp::V4(o) => {
            push_decimal(&mut out, o[0] as usize);
            out.append(".");
            push_decimal(&mut out, o[1] as usize);
            out.append(".");
            push_decimal(&mut out, o[2] as usize);
            out.append(".");
            push_decimal(&mut out, o[3] as usize);
            assert(out@ =~= dotted_quad(o@));
        },
        ListenIp::V6(g) => {
            let mut i: usize = 0;
            assert(g@.take(0) =~= Seq::<u16>::empty());
            while i < 8
                invariant
                    i <= 8,
                    g@.len() == 8,
                    out@ == hex_groups(g@.take(i as int)),
                decreases 8 - i,
            {
                let ghost before = out@;
                if i > 0 {
                    out.append(":");
                }
                push_hex(&mut out, g[i] as usize);
                proof {
                    reveal_strlit(":");
                    assert(g@.take(i + 1).drop_last() =~= g@.take(i as int));
                    assert(g@.take(i + 1).last() == g@[i as int]);
                    if i == 0 {
                        assert(g@.take(1)[0] == g@[0]);
                        assert(out@ =~= hex_groups(g@.take(1)));
                    } else {
                        assert(out@ =~= hex_groups(g@.take(i + 1)));
                    }
                }
                i = i + 1;
            }
            assert(g@.take(8) =~= g@);
        },
    }
    out
}

impl RegistryRegistration {
    /// The registration of a backend listening at `addr` that actually
    /// bound `bound_port`: the host is the text of the listen address's IP.
    pub fn for_listener(
        url: String,
        name: String,
        addr: &ListenAddr,
        bound_port: u16,
        version: String,
        schema_hash: String,
    ) -> (res: RegistryRegistration)
        ensures
            res.url == url,
            res.name == name,
            res.host@ == host_of(addr.ip),
            res.port == bound_port,
            res.version == version,
            res.schema_hash == schema_hash,
    {
        RegistryRegistration {
            url,
            name,
            host: host_text(addr),
            port: bound_port,
            version,
            schema_hash,
        }
    }
}

/// The registry endpoint given the value of `PLEXUS_REGISTRY_URL` (`None`
/// when it is unset or not unicode): the trimmed value, or the default
/// when that is empty.
pub open spec fn spec_registry_url(env_value: Option<Seq<char>>) -> Seq<char> {
    match env_value {
        Some(v) => if spec_trim(v).len() > 0 {
            spec_trim(v)
        } else {
            DEFAULT_REGISTRY_URL@
        },
        None => DEFAULT_REGISTRY_URL@,
    }
}

/// Resolve the registry endpoint from the value of `PLEXUS_REGISTRY_URL`.
pub fn registry_url_from_env(env_value: Option<&str>) -> (res: String)
    ensures
        res@ == spec_registry_url(opt_str_view(env_value)),
{
    match env_value {
        Some(v) => {
            let t = trim(v);
            if t.unicode_len() > 0 {
                String::from_str(t)
            } else {
                String::from_str(DEFAULT_REGISTRY_URL)
            }
        },
        None => String::from_str(DEFAULT_REGISTRY_URL),
    }
}

/// Whether a value of `PLEXUS_NO_REGISTRY` disables registration: after
/// trimming and ASCII lowercasing it is `1`, `true` or `yes`.
pub open spec fn spec_disables_registry(v: Seq<char>) -> bool {
    let t = ascii_lowercase(spec_trim(v));
    t == "1"@ || t == "true"@ || t == "yes"@
}

/// Whether `PLEXUS_NO_REGISTRY` with this value (`None`: unset) disables
/// registration.
pub open spec fn spec_registry_disabled(env_value: Option<Seq<char>>) -> bool {
    match env_value {
        Some(v) => spec_disables_registry(v),
        None => false,
    }
}

/// The `PLEXUS_NO_REGISTRY` kill switch, given its value (`None` when it
/// is unset or not unicode).
pub fn registry_disabled_by_env(env_value: Option<&str>) -> (res: bool)
    ensures
        res == spec_registry_disabled(opt_str_view(env_value)),
{
    match env_value {
        Some(v) => {
            let t = trim(v);
            ascii_lowercase_eq(t, "1") || ascii_lowercase_eq(t, "true") || ascii_lowercase_eq(
                t,
                "yes",
            )
        },
        None => false,
    }
}

// ---------------------------------------------------------------------------
// Retrying the registration
// ---------------------------------------------------------------------------

/// What to do after one registration attempt.
#[derive(Clone, Copy, Debug, PartialEq, Eq, Structural)]
pub enum RetryStep {
    /// The attempt succeeded: the backend is registered.
    Registered,
    /// The attempt failed: wait the backoff, then attempt again.
    Backoff,
    /// The last allowed attempt failed: warn once and serve anyway.
    GiveUp,
}

/// Counts registration attempts.
pub struct RegisterRetry {
    attempts: u32,
}

/// The step after attempt number `made + 1` with result `succeeded`.
pub open spec fn spec_retry_step(made: nat, succeeded: bool) -> RetryStep {
    if succeeded {
        RetryStep::Registered
    } else if made + 1 < REGISTER_ATTEMPTS {
        RetryStep::Backoff
    } else {
        RetryStep::GiveUp
    }
}

impl RegisterRetry {
    /// The number of attempts made so far.
    pub closed spec fn made(self) -> nat {
        self.attempts as nat
    }

    /// No attempt made yet.
    pub fn new() -> (res: RegisterRetry)
        ensures
            res.made() == 0,
    {
        RegisterRetry { attempts: 0 }
    }

    /// Record the outcome of the next attempt.
    pub fn record(&mut self, succeeded: bool) -> (res: RetryStep)
        requires
            old(self).made() < REGISTER_ATTEMPTS,
        ensures
            final(self).made() == old(self).made() + 1,
            res == spec_retry_step(old(self).made(), succeeded),
    {
        self.attempts = self.attempts + 1;
        if succeeded {
            RetryStep::Registered
        } else if self.attempts < REGISTER_ATTEMPTS {
            RetryStep::Backoff
        } else {
            RetryStep::GiveUp
        }
    }
}

/// Drive the retry machine from `made` attempts on, where attempt number
/// `k` (from 0) succeeds iff `outcome(k)`: the total number of attempts,
/// whether the backend got registered, and how many backoffs were waited.
pub open spec fn spec_retry_run(outcome: spec_fn(nat) -> bool, made: nat) -> (nat, bool, nat)
    decreases REGISTER_ATTEMPTS - made,
{
    if made >= REGISTER_ATTEMPTS {
        (made, false, 0)
    } else {
        match spec_retry_step(made, outcome(made)) {
            RetryStep::Registered => (made + 1, true, 0),
            RetryStep::GiveUp => (made + 1, false, 0),
            RetryStep::Backoff => {
                let (n, ok, waits) = spec_retry_run(outcome, made + 1);
                (n, ok, waits + 1)
            },
        }
    }
}

proof fn lemma_retry_run(outcome: spec_fn(nat) -> bool, made: nat)
    requires
        made <= REGISTER_ATTEMPTS,
    ensures
        ({
            let (n, ok, waits) = spec_retry_run(outcome, made);
            &&& made <= n <= REGISTER_ATTEMPTS
            &&& (made < REGISTER_ATTEMPTS ==> waits == n - made - 1)
            &&& (ok <==> exists|k: nat| made <= k < REGISTER_ATTEMPTS && #[trigger] outcome(k))
            &&& (ok ==> outcome((n - 1) as nat))
            &&& forall|k: nat| made <= k < n - 1 ==> !#[trigger] outcome(k)
            &&& (!ok ==> n == REGISTER_ATTEMPTS)
        }),
    decreases REGISTER_ATTEMPTS - made,
{
    if made < REGISTER_ATTEMPTS {
        lemma_retry_run(outcome, made + 1);
        let (n, ok, waits) = spec_retry_run(outcome, made);
        if !outcome(made) && made + 1 < REGISTER_ATTEMPTS {
            assert forall|k: nat| made <= k < REGISTER_ATTEMPTS && #[trigger] outcome(k) implies made
                + 1 <= k by {}
        }
    }
}

/// Registration is fail-open and bounded: the backend is registered iff one
/// of the first [`REGISTER_ATTEMPTS`] attempts succeeds; attempts stop at
/// the first success; every attempt before the last one failed; and a
/// backoff is waited between consecutive attempts, never after the last.
pub proof fn law_register_retry(outcome: spec_fn(nat) -> bool)
    ensures
        ({
            let (n, ok, waits) = spec_retry_run(outcome, 0);
            &&& 1 <= n <= REGISTER_ATTEMPTS
            &&& waits == n - 1
            &&& (ok <==> exists|k: nat| k < REGISTER_ATTEMPTS && #[trigger] outcome(k))
            &&& (ok ==> outcome((n - 1) as nat))
            &&& forall|k: nat| k < n - 1 ==> !#[trigger] outcome(k)
        }),
{
    lemma_retry_run(outcome, 0);
}

// ---------------------------------------------------------------------------
// The registry conversation
// ---------------------------------------------------------------------------

/// The registry call being made.
#[derive(Clone, Copy, Debug, PartialEq, Eq, Structural)]
pub enum RegistryOp {
    /// `registry.register`, an upsert keyed on the backend name.
    Register,
    /// `registry.deregister`, which deactivates the entry without deleting it.
    Deregister,
}

/// The method name under `registry.`.
pub open spec fn op_method(op: RegistryOp) -> Seq<char> {
    match op {
        RegistryOp::Register => "register"@,
        RegistryOp::Deregister => "deregister"@,
    }
}

/// The event type by which the registry confirms the call.
pub open spec fn op_confirmation(op: RegistryOp) -> Seq<char> {
    match op {
        RegistryOp::Register => "backend_registered"@,
        RegistryOp::Deregister => "backend_deregistered"@,
    }
}

impl RegistryOp {
    /// The method name under `registry.`.
    pub fn method(&self) -> (res: &'static str)
        ensures
            res@ == op_method(*self),
    {
        match self {
            RegistryOp::Register => "register",
            RegistryOp::Deregister => "deregister",
        }
    }

    /// The event type that confirms the call.
    pub fn confirmation(&self) -> (res: &'static str)
        ensures
            res@ == op_confirmation(*self),
    {
        match self {
            RegistryOp::Register => "backend_registered",
            RegistryOp::Deregister => "backend_deregistered",
        }
    }
}

/// The subscription methods through which `registry.<method>` is invoked on
/// the hub serving namespace `hub_ns`, and the method name to pass.
pub struct CallNames {
    /// `<hub_ns>.call`
    pub subscribe: String,
    /// `<hub_ns>.call_unsub`
    pub unsubscribe: String,
    /// `registry.<method>`
    pub method: String,
}

/// The names used to invoke `op` through the hub at `hub_ns`.
pub fn call_names(hub_ns: &str, op: RegistryOp) -> (res: CallNames)
    ensures
        res.subscribe@ == hub_ns@ + ".call"@,
        res.unsubscribe@ == hub_ns@ + ".call_unsub"@,
        res.method@ == "registry."@ + op_method(op),
{
    let subscribe = String::from_str(hub_ns).concat(".call");
    let unsubscribe = String::from_str(hub_ns).concat(".call_unsub");
    let method = String::from_str("registry.").concat(op.method());
    CallNames { subscribe, unsubscribe, method }
}

/// The parameters of `registry.register`.
pub struct RegisterParams {
    pub name: String,
    pub host: String,
    pub port: u16,
    /// Always `ws`.
    pub protocol: &'static str,
    pub version: String,
    /// `metadata.pid`: the id of the announcing process.
    pub pid: u32,
    /// `metadata.schema_hash`.
    pub schema_hash: String,
    /// Always `auto`: the backend announced itself.
    pub source: &'static str,
}

/// The parameters of a registry call.
pub enum CallParams {
    Register(RegisterParams),
    /// `registry.deregister { name }`.
    Deregister { name: String },
}

/// The parameters with which `op` announces or invalidates `reg`, for the
/// process with id `pid`.
pub fn call_params(op: RegistryOp, reg: &RegistryRegistration, pid: u32) -> (res: CallParams)
    ensures
        match res {
            CallParams::Register(p) => {
                &&& op == RegistryOp::Register
                &&& p.name == reg.name
                &&& p.host == reg.host
                &&& p.port == reg.port
                &&& p.protocol@ == "ws"@
                &&& p.version == reg.version
                &&& p.pid == pid
                &&& p.schema_hash == reg.schema_hash
                &&& p.source@ == "auto"@
            },
            CallParams::Deregister { name } => op == RegistryOp::Deregister && name == reg.name,
        },
{
    match op {
        RegistryOp::Register => CallParams::Register(
            RegisterParams {
                name: reg.name.clone(),
                host: reg.host.clone(),
                port: reg.port,
                protocol: "ws",
                version: reg.version.clone(),
                pid,
                schema_hash: reg.schema_hash.clone(),
                source: "auto",
            },
        ),
        RegistryOp::Deregister => CallParams::Deregister { name: reg.name.clone() },
    }
}

/// What the conversation reads of one subscription item: the string at
/// `type`, at `message`, and at `content.type`, `content.message` and
/// `content.backend` (each `None` when absent or not a string).
pub struct StreamItem {
    pub kind: Option<String>,
    pub message: Option<String>,
    pub content_kind: Option<String>,
    pub content_message: Option<String>,
    pub content_backend: Option<String>,
}

/// Why a registry conversation failed, where the registry's own answers
/// decided it.
#[derive(Clone, Debug)]
pub enum RegistryError {
    /// The `_info` stream reported an error with this message.
    InfoError { message: String },
    /// The `_info` stream ended without naming the hub namespace.
    NoBackendName,
    /// `registry.<method>` reported an error with this message.
    CallFailed { method: String, message: String },
    /// The call's stream ended without the confirming event.
    NotConfirmed(RegistryOp),
}

/// The message of an error item, or the fallback when it carries none.
pub open spec fn message_or(m: Option<String>, fallback: Seq<char>) -> Seq<char> {
    match m {
        Some(s) => s@,
        None => fallback,
    }
}

/// The text of a registry error.
pub open spec fn spec_error_message(e: RegistryError) -> Seq<char> {
    match e {
        RegistryError::InfoError { message } => "_info error from registry endpoint: "@ + message@,
        RegistryError::NoBackendName => "registry endpoint _info returned no backend name"@,
        RegistryError::CallFailed { method, message } => "registry."@ + method@ + " failed: "@
            + message@,
        RegistryError::NotConfirmed(RegistryOp::Register) =>
            "registry did not confirm registration"@,
        RegistryError::NotConfirmed(RegistryOp::Deregister) =>
            "registry did not confirm deregistration"@,
    }
}

impl RegistryError {
    /// The text of this error.
    pub fn message(&self) -> (res: String)
        ensures
            res@ == spec_error_message(*self),
    {
        match self {
            RegistryError::InfoError { message } => String::from_str(
                "_info error from registry endpoint: ",
            ).concat(message.as_str()),
            RegistryError::NoBackendName => String::from_str(
                "registry endpoint _info returned no backend name",
            ),
            RegistryError::CallFailed { method, message } => String::from_str(
                "registry.",
            ).concat(method.as_str()).concat(" failed: ").concat(message.as_str()),
            RegistryError::NotConfirmed(RegistryOp::Register) => String::from_str(
                "registry did not confirm registration",
            ),
            RegistryError::NotConfirmed(RegistryOp::Deregister) => String::from_str(
                "registry did not confirm deregistration",
            ),
        }
    }
}

fn opt_string_eq(o: &Option<String>, lit: &str) -> (res: bool)
    ensures
        res == (opt_view(*o) == Some(lit@)),
{
    match o {
        Some(s) => {
            let l = String::from_str(lit);
            s.eq(&l)
        },
        None => false,
    }
}

fn message_or_else(m: &Option<String>, fallback: &str) -> (res: String)
    ensures
        res@ == message_or(*m, fallback@),
{
    match m {
        Some(s) => s.clone(),
        None => String::from_str(fallback),
    }
}

/// What to do with the next item of the `_info` stream.
pub enum InfoStep {
    /// The hub namespace serving the registry.
    Found(String),
    /// The discovery failed.
    Failed(RegistryError),
    /// Wait for the next item.
    Continue,
}

/// The decision on the next `_info` item (`None`: the stream ended). A
/// `data` item naming a backend yields it; an `error` item fails with its
/// message (or `unknown`); `done` or the end of the stream fail for want of
/// a name; anything else is skipped.
pub open spec fn spec_info_step(next: Option<StreamItem>) -> InfoStepView {
    match next {
        None => InfoStepView::Failed(RegistryErrorKind::NoBackendName),
        Some(item) => {
            let kind = opt_view(item.kind);
            if kind == Some("data"@) {
                match opt_view(item.content_backend) {
                    Some(name) => InfoStepView::Found(name),
                    None => InfoStepView::Continue,
                }
            } else if kind == Some("error"@) {
                InfoStepView::Failed(
                    RegistryErrorKind::InfoError(message_or(item.message, "unknown"@)),
                )
            } else if kind == Some("done"@) {
                InfoStepView::Failed(RegistryErrorKind::NoBackendName)
            } else {
                InfoStepView::Continue
            }
        },
    }
}

/// The view of a [`RegistryError`].
pub enum RegistryErrorKind {
    InfoError(Seq<char>),
    NoBackendName,
    CallFailed(Seq<char>, Seq<char>),
    NotConfirmed(RegistryOp),
}

impl View for RegistryError {
    type V = RegistryErrorKind;

    open spec fn view(&self) -> RegistryErrorKind {
        match self {
            RegistryError::InfoError { message } => RegistryErrorKind::InfoError(message@),
            RegistryError::NoBackendName => RegistryErrorKind::NoBackendName,
            RegistryError::CallFailed { method, message } => RegistryErrorKind::CallFailed(
                method@,
                message@,
            ),
            RegistryError::NotConfirmed(op) => RegistryErrorKind::NotConfirmed(*op),
        }
    }
}

/// The view of an [`InfoStep`].
pub enum InfoStepView {
    Found(Seq<char>),
    Failed(RegistryErrorKind),
    Continue,
}

impl View for InfoStep {
    type V = InfoStepView;

    open spec fn view(&self) -> InfoStepView {
        match self {
            InfoStep::Found(s) => InfoStepView::Found(s@),
            InfoStep::Failed(e) => InfoStepView::Failed(e@),
            InfoStep::Continue => InfoStepView::Continue,
        }
    }
}

/// Decide on the next item of the `_info` stream (`None`: it ended).
pub fn info_step(next: &Option<StreamItem>) -> (res: InfoStep)
    ensures
        res@ == spec_info_step(*next),
{
    match next {
        None => InfoStep::Failed(RegistryError::NoBackendName),
        Some(item) => {
            if opt_string_eq(&item.kind, "data") {
                proof { reveal_strlit("data"); }
                match &item.content_backend {
                    Some(name) => InfoStep::Found(name.clone()),
                    None => InfoStep::Continue,
                }
            } else if opt_string_eq(&item.kind, "error") {
                InfoStep::Failed(
                    RegistryError::InfoError { message: message_or_else(&item.message, "unknown") },
                )
            } else if opt_string_eq(&item.kind, "done") {
                InfoStep::Failed(RegistryError::NoBackendName)
            } else {
                InfoStep::Continue
            }
        },
    }
}

/// What to do with the next item of a `registry.<method>` call stream.
pub enum CallStep {
    /// Wait for the next item.
    Continue,
    /// The stream is complete.
    Done,
    /// The call failed.
    Failed(RegistryError),
}

/// The view of a [`CallStep`].
pub enum CallStepView {
    Continue,
    Done,
    Failed(RegistryErrorKind),
}

impl View for CallStep {
    type V = CallStepView;

    open spec fn view(&self) -> CallStepView {
        match self {
            CallStep::Continue => CallStepView::Continue,
            CallStep::Done => CallStepView::Done,
            CallStep::Failed(e) => CallStepView::Failed(e@),
        }
    }
}

/// Collects the data payloads of a `registry.<method>` call stream, by the
/// event type each payload carries.
pub struct CallCollector {
    op: RegistryOp,
    events: Vec<Option<String>>,
}

/// The decision on the next call item (`None`: the stream ended) and the
/// event it adds, if any. A `data` item adds its payload, unless the payload
/// is itself an error event, which fails the call; an `error` item fails
/// it; `done` or the end of the stream complete it; anything else is
/// skipped. Failures carry the item's message, or `unknown error`.
pub open spec fn spec_call_step(op: RegistryOp, next: Option<StreamItem>) -> (
    CallStepView,
    Option<Option<Seq<char>>>,
) {
    match next {
        None => (CallStepView::Done, None),
        Some(item) => {
            let kind = opt_view(item.kind);
            if kind == Some("data"@) {
                if opt_view(item.content_kind) == Some("error"@) {
                    (
                        CallStepView::Failed(
                            RegistryErrorKind::CallFailed(
                                op_method(op),
                                message_or(item.content_message, "unknown error"@),
                            ),
                        ),
                        None,
                    )
                } else {
                    (CallStepView::Continue, Some(opt_view(item.content_kind)))
                }
            } else if kind == Some("error"@) {
                (
                    CallStepView::Failed(
                        RegistryErrorKind::CallFailed(
                            op_method(op),
                            message_or(item.message, "unknown error"@),
                        ),
                    ),
                    None,
                )
            } else if kind == Some("done"@) {
                (CallStepView::Done, None)
            } else {
                (CallStepView::Continue, None)
            }
        },
    }
}

/// Whether one of the collected events has type `expected`.
pub open spec fn spec_confirmed(events: Seq<Option<Seq<char>>>, expected: Seq<char>) -> bool {
    exists|i: int| 0 <= i < events.len() && #[trigger] events[i] == Some(expected)
}

impl CallCollector {
    /// The call being collected.
    pub closed spec fn op_spec(self) -> RegistryOp {
        self.op
    }

    /// The event types collected so far, in order.
    pub closed spec fn events(self) -> Seq<Option<Seq<char>>> {
        self.events@.map_values(|e: Option<String>| opt_view(e))
    }

    /// Nothing collected yet for `op`.
    pub fn new(op: RegistryOp) -> (res: CallCollector)
        ensures
            res.op_spec() == op,
            res.events() == Seq::<Option<Seq<char>>>::empty(),
    {
        let res = CallCollector { op, events: Vec::new() };
        assert(res.events() =~= Seq::<Option<Seq<char>>>::empty());
        res
    }

    /// Decide on the next item of the call stream (`None`: it ended).
    pub fn step(&mut self, next: &Option<StreamItem>) -> (res: CallStep)
        ensures
            final(self).op_spec() == old(self).op_spec(),
            res@ == spec_call_step(old(self).op_spec(), *next).0,
            final(self).events() == match spec_call_step(old(self).op_spec(), *next).1 {
                Some(e) => old(self).events().push(e),
                None => old(self).events(),
            },
    {
        let ghost old_events = self.events();
        match next {
            None => CallStep::Done,
            Some(item) => {
                if opt_string_eq(&item.kind, "data") {
                    if opt_string_eq(&item.content_kind, "error") {
                        CallStep::Failed(
                            RegistryError::CallFailed {
                                method: String::from_str(self.op.method()),
                                message: message_or_else(&item.content_message, "unknown error"),
                            },
                        )
                    } else {
                        let e = match &item.content_kind {
                            Some(k) => Some(k.clone()),
                            None => None,
                        };
                        self.events.push(e);
                        assert(self.events() =~= old_events.push(opt_view(item.content_kind)));
                        CallStep::Continue
                    }
                } else if opt_string_eq(&item.kind, "error") {
                    CallStep::Failed(
                        RegistryError::CallFailed {
                            method: String::from_str(self.op.method()),
                            message: message_or_else(&item.message, "unknown error"),
                        },
                    )
                } else if opt_string_eq(&item.kind, "done") {
                    CallStep::Done
                } else {
                    CallStep::Continue
                }
            },
        }
    }

    /// The verdict once the stream is complete: confirmed when one of the
    /// collected events has the confirming type.
    pub fn finish(&self) -> (res: Result<(), RegistryError>)
        ensures
            res is Ok <==> spec_confirmed(self.events(), op_confirmation(self.op_spec())),
            res matches Err(e) ==> e@ == RegistryErrorKind::NotConfirmed(self.op_spec()),
    {
        let expected = self.op.confirmation();
        let n = self.events.len();
        let mut i: usize = 0;
        while i < n
            invariant
                n == self.events@.len(),
                i <= n,
                expected@ == op_confirmation(self.op),
                forall|j: int|
                    0 <= j < i ==> #[trigger] self.events()[j] != Some(expected@),
            decreases n - i,
        {
            if opt_string_eq(&self.events[i], expected) {
                assert(self.events()[i as int] == Some(expected@));
                return Ok(());
            }
            i = i + 1;
        }
        Err(RegistryError::NotConfirmed(self.op))
    }
}

/// Whether a call item ends the stream (`done`) or fails the call.
pub open spec fn call_item_terminal(item: StreamItem) -> bool {
    let kind = opt_view(item.kind);
    ||| kind == Some("done"@)
    ||| kind == Some("error"@)
    ||| (kind == Some("data"@) && opt_view(item.content_kind) == Some("error"@))
}

/// Whether a call item is a payload of the event type confirming `op`.
pub open spec fn call_item_confirms(item: StreamItem, op: RegistryOp) -> bool {
    &&& opt_view(item.kind) == Some("data"@)
    &&& opt_view(item.content_kind) == Some(op_confirmation(op))
}

/// The verdict on the collected events once the call stream is complete.
pub open spec fn spec_verdict(op: RegistryOp, events: Seq<Option<Seq<char>>>) -> Result<
    (),
    RegistryErrorKind,
> {
    if spec_confirmed(events, op_confirmation(op)) {
        Ok(())
    } else {
        Err(RegistryErrorKind::NotConfirmed(op))
    }
}

/// Drive a [`CallCollector`] over `items[i..]` followed by the end of the
/// stream, having collected `events` so far.
pub open spec fn spec_call_run(
    op: RegistryOp,
    items: Seq<StreamItem>,
    i: int,
    events: Seq<Option<Seq<char>>>,
) -> Result<(), RegistryErrorKind>
    decreases items.len() - i,
{
    if i < 0 || i >= items.len() {
        spec_verdict(op, events)
    } else {
        let (st, added) = spec_call_step(op, Some(items[i]));
        let next = match added {
            Some(e) => events.push(e),
            None => events,
        };
        match st {
            CallStepView::Continue => spec_call_run(op, items, i + 1, next),
            CallStepView::Done => spec_verdict(op, next),
            CallStepView::Failed(e) => Err(e),
        }
    }
}

/// The events collected from `items[i..j]`, when none of them is terminal.
pub open spec fn collected(op: RegistryOp, items: Seq<StreamItem>, i: int, j: int) -> Seq<
    Option<Seq<char>>,
>
    decreases j - i,
{
    if i >= j {
        Seq::empty()
    } else {
        let prev = collected(op, items, i, j - 1);
        match spec_call_step(op, Some(items[j - 1])).1 {
            Some(e) => prev.push(e),
            None => prev,
        }
    }
}

proof fn lemma_call_run_sound(op: RegistryOp, items: Seq<StreamItem>, i: int)
    requires
        0 <= i <= items.len(),
        forall|k: int| 0 <= k < i ==> !call_item_terminal(#[trigger] items[k]),
        spec_call_run(op, items, i, collected(op, items, 0, i)) is Ok,
    ensures
        exists|t: int|
            i <= t <= items.len() && (t < items.len() ==> opt_view(items[t].kind) == Some(
                "done"@,
            )) && (forall|k: int| 0 <= k < t ==> !call_item_terminal(#[trigger] items[k]))
                && spec_confirmed(collected(op, items, 0, t), op_confirmation(op)),
    decreases items.len() - i,
{
    reveal_strlit("data");
    reveal_strlit("error");
    reveal_strlit("done");
    assert("data"@ != "error"@ && "done"@ != "error"@) by {
        assert("data"@.len() != "error"@.len());
    }
    assert("data"@ != "done"@) by {
        assert("data"@[1] != "done"@[1]);
    }
    if i < items.len() {
        let item = items[i];
        let (st, added) = spec_call_step(op, Some(item));
        let next = match added {
            Some(e) => collected(op, items, 0, i).push(e),
            None => collected(op, items, 0, i),
        };
        assert(collected(op, items, 0, i + 1) == next);
        match st {
            CallStepView::Continue => {
                assert(!call_item_terminal(item));
                lemma_call_run_sound(op, items, i + 1);
            },
            CallStepView::Done => {
                if opt_view(item.kind) == Some("done"@) {
                    assert(collected(op, items, 0, i + 1) == collected(op, items, 0, i));
                } else {
                    assert(false);
                }
            },
            CallStepView::Failed(_) => {},
        }
    }
}

/// A registry call counts as confirmed only on the registry's word: when
/// the collector's verdict is success, the stream completed (by `done` or by
/// ending) without any error, and before it did, a payload of the
/// confirming event type (`backend_registered` or `backend_deregistered`)
/// arrived.
pub proof fn law_confirmed_only_by_registry(op: RegistryOp, items: Seq<StreamItem>)
    requires
        spec_call_run(op, items, 0, Seq::empty()) is Ok,
    ensures
        exists|t: int|
            0 <= t <= items.len() && (t < items.len() ==> opt_view(items[t].kind) == Some(
                "done"@,
            )) && (forall|k: int| 0 <= k < t ==> !call_item_terminal(#[trigger] items[k]))
                && exists|j: int| 0 <= j < t && call_item_confirms(#[trigger] items[j], op),
{
    assert(collected(op, items, 0, 0) == Seq::<Option<Seq<char>>>::empty());
    lemma_call_run_sound(op, items, 0);
    let t = choose|t: int|
        0 <= t <= items.len() && (t < items.len() ==> opt_view(items[t].kind) == Some("done"@))
            && (forall|k: int| 0 <= k < t ==> !call_item_terminal(#[trigger] items[k]))
            && spec_confirmed(collected(op, items, 0, t), op_confirmation(op));
    lemma_collected_confirms(op, items, t);
}

proof fn lemma_collected_confirms(op: RegistryOp, items: Seq<StreamItem>, t: int)
    requires
        0 <= t <= items.len(),
        spec_confirmed(collected(op, items, 0, t), op_confirmation(op)),
    ensures
        exists|j: int| 0 <= j < t && call_item_confirms(#[trigger] items[j], op),
    decreases t,
{
    if t > 0 {
        let prev = collected(op, items, 0, t - 1);
        let added = spec_call_step(op, Some(items[t - 1])).1;
        if spec_confirmed(prev, op_confirmation(op)) {
            lemma_collected_confirms(op, items, t - 1);
            let j = choose|j: int| 0 <= j < t - 1 && call_item_confirms(#[trigger] items[j], op);
            assert(call_item_confirms(items[j], op));
        } else {
            let cur = collected(op, items, 0, t);
            let w = choose|w: int| 0 <= w < cur.len() && #[trigger] cur[w] == Some(op_confirmation(op));
            match added {
                Some(e) => {
                    assert(cur == prev.push(e));
                    if w < prev.len() {
                        assert(prev[w] == cur[w]);
                        assert(false);
                    }
                    assert(call_item_confirms(items[t - 1], op));
                },
                None => {
                    assert(cur == prev);
                    assert(false);
                },
            }
        }
    } else {
        assert(collected(op, items, 0, 0).len() == 0);
    }
}

/// Drive [`info_step`] over `items[i..]` followed by the end of the stream.
pub open spec fn spec_info_run(items: Seq<StreamItem>, i: int) -> InfoStepView
    decreases items.len() - i,
{
    if i < 0 || i >= items.len() {
        spec_info_step(None)
    } else {
        match spec_info_step(Some(items[i])) {
            InfoStepView::Continue => spec_info_run(items, i + 1),
            other => other,
        }
    }
}

/// Whether an `_info` item is skipped by the discovery.
pub open spec fn info_item_skipped(item: StreamItem) -> bool {
    spec_info_step(Some(item)) is Continue
}

proof fn lemma_info_run(items: Seq<StreamItem>, i: int, name: Seq<char>)
    requires
        0 <= i <= items.len(),
    ensures
        spec_info_run(items, i) == InfoStepView::Found(name) <==> exists|j: int|
            i <= j < items.len() && spec_info_step(Some(#[trigger] items[j]))
                == InfoStepView::Found(name) && forall|k: int|
                i <= k < j ==> info_item_skipped(#[trigger] items[k]),
    decreases items.len() - i,
{
    if i < items.len() {
        lemma_info_run(items, i + 1, name);
        if spec_info_run(items, i) == InfoStepView::Found(name) {
            if !(spec_info_step(Some(items[i])) is Continue) {
                assert(forall|k: int| i <= k < i ==> info_item_skipped(#[trigger] items[k]));
            } else {
                let j = choose|j: int|
                    i + 1 <= j < items.len() && spec_info_step(Some(#[trigger] items[j]))
                        == InfoStepView::Found(name) && forall|k: int|
                        i + 1 <= k < j ==> info_item_skipped(#[trigger] items[k]);
                assert(forall|k: int| i <= k < j ==> info_item_skipped(#[trigger] items[k]));
            }
        } else {
            assert forall|j: int|
                i <= j < items.len() && spec_info_step(Some(#[trigger] items[j]))
                    == InfoStepView::Found(name) implies !(forall|k: int|
                i <= k < j ==> info_item_skipped(#[trigger] items[k])) by {
                if j > i && info_item_skipped(items[i]) {
                    if forall|k: int| i <= k < j ==> info_item_skipped(#[trigger] items[k]) {
                        assert(forall|k: int| i + 1 <= k < j ==> info_item_skipped(#[trigger] items[k]));
                    }
                } else if j > i {
                    assert(!info_item_skipped(items[i]));
                }
            }
        }
    }
}

/// Discovery of the hub namespace names the backend of the first `_info`
/// data item that names one, provided every item before it is skipped (no
/// error and no `done` came first); it names nothing else.
pub proof fn law_discovery_takes_first_name(items: Seq<StreamItem>, name: Seq<char>)
    ensures
        spec_info_run(items, 0) == InfoStepView::Found(name) <==> exists|j: int|
            0 <= j < items.len() && spec_info_step(Some(#[trigger] items[j]))
                == InfoStepView::Found(name) && forall|k: int|
                0 <= k < j ==> info_item_skipped(#[trigger] items[k]),
{
    lemma_info_run(items, 0, name);
}

/// The endpoint resolution: a value whose trim is non-empty is used as
/// given, trimmed, whatever its scheme; an unset or blank value gives the
/// default endpoint.
pub proof fn law_registry_url_resolution(env_value: Option<Seq<char>>)
    ensures
        env_value matches Some(v) && spec_trim(v).len() > 0 ==> spec_registry_url(env_value)
            == spec_trim(env_value->0),
        env_value is None ==> spec_registry_url(env_value) == DEFAULT_REGISTRY_URL@,
        env_value matches Some(v) && spec_trim(v).len() == 0 ==> spec_registry_url(env_value)
            == DEFAULT_REGISTRY_URL@,
{
}

/// A `done` item, like the end of the stream, completes the call for
/// either operation and adds no event; it never fails the call.
pub proof fn law_done_completes_call(op: RegistryOp, item: StreamItem)
    ensures
        opt_view(item.kind) == Some("done"@) ==> spec_call_step(op, Some(item)) == (
            CallStepView::Done,
            None::<Option<Seq<char>>>,
        ),
        spec_call_step(op, None) == (CallStepView::Done, None::<Option<Seq<char>>>),
{
    reveal_strlit("data");
    reveal_strlit("error");
    reveal_strlit("done");
    assert("done"@ != "error"@) by {
        assert("done"@.len() != "error"@.len());
    }
    assert("data"@ != "done"@) by {
        assert("data"@[1] != "done"@[1]);
    }
}

proof fn lemma_confirming_item_collected(op: RegistryOp, items: Seq<StreamItem>, j: int, k: int)
    requires
        0 <= j < k <= items.len(),
        call_item_confirms(items[j], op),
    ensures
        spec_confirmed(collected(op, items, 0, k), op_confirmation(op)),
    decreases k,
{
    reveal_strlit("data");
    reveal_strlit("error");
    reveal_strlit("backend_registered");
    reveal_strlit("backend_deregistered");
    if k - 1 == j {
        let prev = collected(op, items, 0, k - 1);
        assert(op_confirmation(op) != "error"@) by {
            assert(op_confirmation(op)[0] != 'e');
        }
        assert(collected(op, items, 0, k) == prev.push(Some(op_confirmation(op))));
        assert(collected(op, items, 0, k)[prev.len() as int] == Some(op_confirmation(op)));
    } else {
        lemma_confirming_item_collected(op, items, j, k - 1);
        let prev = collected(op, items, 0, k - 1);
        let w = choose|w: int| 0 <= w < prev.len() && #[trigger] prev[w] == Some(op_confirmation(op));
        let cur = collected(op, items, 0, k);
        assert(cur[w] == prev[w]);
    }
}

proof fn lemma_call_run_complete(op: RegistryOp, items: Seq<StreamItem>, t: int, i: int)
    requires
        0 <= i <= t <= items.len(),
        forall|k: int| 0 <= k < t ==> !call_item_terminal(#[trigger] items[k]),
        t < items.len() ==> opt_view(items[t].kind) == Some("done"@),
    ensures
        spec_call_run(op, items, i, collected(op, items, 0, i)) == spec_verdict(
            op,
            collected(op, items, 0, t),
        ),
    decreases t - i,
{
    reveal_strlit("data");
    reveal_strlit("error");
    reveal_strlit("done");
    assert("data"@ != "error"@ && "done"@ != "error"@) by {
        assert("data"@.len() != "error"@.len());
    }
    assert("data"@ != "done"@) by {
        assert("data"@[1] != "done"@[1]);
    }
    if i < t {
        let item = items[i];
        assert(!call_item_terminal(item));
        let (st, added) = spec_call_step(op, Some(item));
        assert(st == CallStepView::Continue);
        let next = match added {
            Some(e) => collected(op, items, 0, i).push(e),
            None => collected(op, items, 0, i),
        };
        assert(collected(op, items, 0, i + 1) == next);
        lemma_call_run_complete(op, items, t, i + 1);
    } else if t < items.len() {
        let (st, added) = spec_call_step(op, Some(items[t]));
        assert(st == CallStepView::Done && added is None);
    }
}

/// The call verdict is complete: a stream whose items up to a `done` item
/// (or up to its end) are neither errors nor `done`, and among which a
/// payload of the confirming event type arrives, confirms the call, for
/// either operation.
pub proof fn law_confirming_stream_confirms(op: RegistryOp, items: Seq<StreamItem>, t: int)
    requires
        0 <= t <= items.len(),
        forall|k: int| 0 <= k < t ==> !call_item_terminal(#[trigger] items[k]),
        t < items.len() ==> opt_view(items[t].kind) == Some("done"@),
        exists|j: int| 0 <= j < t && call_item_confirms(#[trigger] items[j], op),
    ensures
        spec_call_run(op, items, 0, Seq::empty()) == Ok::<(), RegistryErrorKind>(()),
{
    let j = choose|j: int| 0 <= j < t && call_item_confirms(#[trigger] items[j], op);
    lemma_confirming_item_collected(op, items, j, t);
    assert(collected(op, items, 0, 0) == Seq::<Option<Seq<char>>>::empty());
    lemma_call_run_complete(op, items, t, 0);
}

/// The kill switch: a value disables registration exactly when, trimmed and
/// ASCII-lowercased, it is `1`, `true` or `yes`; and so values that differ
/// only in surrounding white space or in ASCII case agree.
pub proof fn law_kill_switch_values(v: Seq<char>, w: Seq<char>)
    ensures
        spec_disables_registry(v) <==> (ascii_lowercase(spec_trim(v)) == "1"@ || ascii_lowercase(
            spec_trim(v),
        ) == "true"@ || ascii_lowercase(spec_trim(v)) == "yes"@),
        ascii_lowercase(spec_trim(v)) == ascii_lowercase(spec_trim(w)) ==> spec_disables_registry(v)
            == spec_disables_registry(w),
        spec_registry_disabled(None) == false,
        spec_registry_disabled(Some(v)) == spec_disables_registry(v),
{
}

/// The decision on one `_info` item: a `data` item naming a backend gives
/// that name; an `error` item fails with its message, or `unknown`; a
/// `done` item fails for want of a name; and so does the end of the stream.
pub proof fn law_info_item_decisions(item: StreamItem)
    ensures
        opt_view(item.kind) == Some("data"@) && item.content_backend is Some ==> spec_info_step(
            Some(item),
        ) == InfoStepView::Found(item.content_backend->0@),
        opt_view(item.kind) == Some("error"@) ==> spec_info_step(Some(item))
            == InfoStepView::Failed(
            RegistryErrorKind::InfoError(
                match item.message {
                    Some(m) => m@,
                    None => "unknown"@,
                },
            ),
        ),
        opt_view(item.kind) == Some("done"@) ==> spec_info_step(Some(item))
            == InfoStepView::Failed(RegistryErrorKind::NoBackendName),
        spec_info_step(None) == InfoStepView::Failed(RegistryErrorKind::NoBackendName),
{
    reveal_strlit("data");
    reveal_strlit("error");
    reveal_strlit("done");
    assert("data"@ != "error"@ && "done"@ != "error"@) by {
        assert("data"@.len() != "error"@.len());
    }
    assert("data"@ != "done"@) by {
        assert("data"@[1] != "done"@[1]);
    }
}

/// The decision on one call item: an `error` item fails the call with its
/// message (or `unknown error`), and so does a `data` item whose payload is
/// an error event, with the payload's message; any other `data` item adds
/// its payload's event type and continues.
pub proof fn law_call_item_decisions(op: RegistryOp, item: StreamItem)
    ensures
        opt_view(item.kind) == Some("error"@) ==> spec_call_step(op, Some(item)) == (
            CallStepView::Failed(
                RegistryErrorKind::CallFailed(
                    op_method(op),
                    match item.message {
                        Some(m) => m@,
                        None => "unknown error"@,
                    },
                ),
            ),
            None::<Option<Seq<char>>>,
        ),
        opt_view(item.kind) == Some("data"@) && opt_view(item.content_kind) == Some("error"@)
            ==> spec_call_step(op, Some(item)) == (
            CallStepView::Failed(
                RegistryErrorKind::CallFailed(
                    op_method(op),
                    match item.content_message {
                        Some(m) => m@,
                        None => "unknown error"@,
                    },
                ),
            ),
            None::<Option<Seq<char>>>,
        ),
        opt_view(item.kind) == Some("data"@) && opt_view(item.content_kind) != Some("error"@)
            ==> spec_call_step(op, Some(item)) == (
            CallStepView::Continue,
            Some(opt_view(item.content_kind)),
        ),
{
    reveal_strlit("data");
    reveal_strlit("error");
    assert("data"@ != "error"@) by {
        assert("data"@.len() != "error"@.len());
    }
}

} // verus!
