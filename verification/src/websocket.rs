//! Decisions taken on a WebSocket upgrade request.
//!
//! Two independent checks run on separate headers:
//!
//! 1. A static admission check: when an api key is configured, the upgrade
//!    must carry the configured api-key header with the matching value.
//!    One exception, a deprecated compatibility path: when the header is
//!    absent, no session validator is configured, and
//!    `Authorization: Bearer <value>` carries the api key exactly, the
//!    request is admitted.
//! 2. A dynamic identity check: when a session validator is configured it
//!    is asked about the `Cookie` value first, then about the bearer token
//!    of `Authorization`; the first input it accepts yields the caller's
//!    identity. In strict mode a request that yields no identity is refused.
//!
//! The validator itself is asynchronous and lives outside this crate, so the
//! identity check is a state machine: [`AuthFlow::start`] returns the first
//! action, and each validator answer is handed back to
//! [`AuthFlow::on_validated`], which returns the next one.

use vstd::prelude::*;
use crate::text::{opt_str_view, opt_view, starts_with};

verus! {

/// The RFC 6750 scheme prefix `Bearer ` (case-sensitive, trailing space).
pub open spec fn bearer_prefix() -> Seq<char> {
    seq!['B', 'e', 'a', 'r', 'e', 'r', ' ']
}

/// What stripping the `Bearer ` prefix gives: the rest, or nothing when the
/// value does not start with it.
pub open spec fn spec_strip_bearer(value: Seq<char>) -> Option<Seq<char>> {
    if bearer_prefix().is_prefix_of(value) {
        Some(value.skip(7))
    } else {
        None
    }
}

/// Strip the `Bearer ` prefix (RFC 6750, case-sensitive). Returns `None`
/// for any value that does not begin with the literal ASCII `Bearer `.
pub fn strip_bearer(value: &str) -> (res: Option<&str>)
    ensures
        opt_str_view(res) == spec_strip_bearer(value@),
{
    let prefix = "Bearer ";
    proof {
        reveal_strlit("Bearer ");
        assert(prefix@ =~= bearer_prefix());
    }
    if starts_with(value, prefix) {
        let n = value.unicode_len();
        Some(value.substring_char(7, n))
    } else {
        None
    }
}

/// Why an upgrade is refused.
#[derive(Clone, Copy, Debug, PartialEq, Eq, Structural)]
pub enum RejectReason {
    /// An api key is configured and the request carries none.
    ApiKeyRequired,
    /// The api-key header carries a value other than the configured key.
    ApiKeyInvalid,
    /// Strict mode: credentials were offered but none was accepted.
    SessionInvalid,
    /// Strict mode: neither a cookie nor a bearer token was offered.
    SessionRequired,
}

/// The body of the 401 response for each refusal.
pub open spec fn reason_body(r: RejectReason) -> Seq<char> {
    match r {
        RejectReason::ApiKeyRequired => "Unauthorized: api key required"@,
        RejectReason::ApiKeyInvalid => "Unauthorized: api key invalid"@,
        RejectReason::SessionInvalid => "Unauthorized: session invalid or expired"@,
        RejectReason::SessionRequired => "Unauthorized: session cookie or bearer required"@,
    }
}

impl RejectReason {
    /// The text of the 401 response body for this refusal.
    pub fn body(&self) -> (res: &'static str)
        ensures
            res@ == reason_body(*self),
    {
        match self {
            RejectReason::ApiKeyRequired => "Unauthorized: api key required",
            RejectReason::ApiKeyInvalid => "Unauthorized: api key invalid",
            RejectReason::SessionInvalid => "Unauthorized: session invalid or expired",
            RejectReason::SessionRequired => "Unauthorized: session cookie or bearer required",
        }
    }
}

/// The refusal sent back on a failed upgrade: status, the
/// `WWW-Authenticate` challenge, the content type and a plain-text body.
pub struct UnauthorizedResponse {
    pub status: u16,
    pub www_authenticate: &'static str,
    pub content_type: &'static str,
    pub body: &'static str,
}

/// The HTTP 401 response for a refusal, with the
/// `WWW-Authenticate: Bearer realm="plexus"` challenge.
pub fn unauthorized(reason: RejectReason) -> (res: UnauthorizedResponse)
    ensures
        res.status == 401,
        res.www_authenticate@ == "Bearer realm=\"plexus\""@,
        res.content_type@ == "text/plain"@,
        res.body@ == reason_body(reason),
{
    UnauthorizedResponse {
        status: 401,
        www_authenticate: "Bearer realm=\"plexus\"",
        content_type: "text/plain",
        body: reason.body(),
    }
}

/// How the static admission check decided.
#[derive(Clone, Copy, Debug, PartialEq, Eq, Structural)]
pub enum Admission {
    /// No api key is configured: no check applies.
    Open,
    /// The api-key header carries the configured key.
    KeyMatched,
    /// The deprecated `Authorization: Bearer <api key>` path admitted it.
    CompatShim,
    /// The admission check refused the request.
    Rejected(RejectReason),
}

/// The middleware's configuration.
pub struct AuthSettings {
    /// The static admission key, when one is configured.
    pub api_key: Option<String>,
    /// Whether a session validator is configured.
    pub has_session_validator: bool,
    /// Strict mode: refuse upgrades that yield no identity.
    pub reject_on_session_failure: bool,
}

/// The three request headers the middleware reads. Each holds the header's
/// value when the header is present and its value is visible ASCII, and
/// `None` otherwise.
pub struct UpgradeHeaders {
    /// The configured api-key header.
    pub api_key_header: Option<String>,
    /// `Authorization`.
    pub authorization: Option<String>,
    /// `Cookie`.
    pub cookie: Option<String>,
}

/// The bearer token of an `Authorization` value, if it has the prefix.
pub open spec fn bearer_token(authorization: Option<String>) -> Option<Seq<char>> {
    match authorization {
        Some(a) => spec_strip_bearer(a@),
        None => None,
    }
}

/// The admission check.
pub open spec fn spec_admission(settings: AuthSettings, headers: UpgradeHeaders) -> Admission {
    match settings.api_key {
        None => Admission::Open,
        Some(key) => match headers.api_key_header {
            Some(v) => if v@ == key@ {
                Admission::KeyMatched
            } else {
                Admission::Rejected(RejectReason::ApiKeyInvalid)
            },
            None => if !settings.has_session_validator && bearer_token(headers.authorization)
                == Some(key@) {
                Admission::CompatShim
            } else {
                Admission::Rejected(RejectReason::ApiKeyRequired)
            },
        },
    }
}

/// Run the static admission check.
pub fn admission(settings: &AuthSettings, headers: &UpgradeHeaders) -> (res: Admission)
    ensures
        res == spec_admission(*settings, *headers),
{
    match &settings.api_key {
        None => Admission::Open,
        Some(key) => match &headers.api_key_header {
            Some(v) => {
                if v.eq(key) {
                    Admission::KeyMatched
                } else {
                    Admission::Rejected(RejectReason::ApiKeyInvalid)
                }
            },
            None => {
                let compat = if settings.has_session_validator {
                    false
                } else {
                    match &headers.authorization {
                        Some(a) => match strip_bearer(a.as_str()) {
                            Some(token) => {
                                let token = String::from_str(token);
                                token.eq(key)
                            },
                            None => false,
                        },
                        None => false,
                    }
                };
                if compat {
                    Admission::CompatShim
                } else {
                    Admission::Rejected(RejectReason::ApiKeyRequired)
                }
            },
        },
    }
}

/// Where the identity check stands.
#[derive(Clone, Copy, Debug, PartialEq, Eq, Structural)]
pub enum SessionStage {
    /// The validator was asked about the cookie.
    AwaitingCookie,
    /// The validator was asked about the bearer token.
    AwaitingBearer,
    /// Nothing more is asked of the validator.
    Finished,
}

/// What the middleware does next.
pub enum AuthAction {
    /// Answer with a 401 for this reason; the inner service is not called.
    Reject(RejectReason),
    /// Ask the session validator about this input and report whether it
    /// produced an identity.
    Validate(String),
    /// Call the inner service without an identity.
    Forward,
    /// Call the inner service with the identity the last validation produced.
    ForwardWithContext,
}

/// The view of an [`AuthAction`].
pub enum ActionView {
    Reject(RejectReason),
    Validate(Seq<char>),
    Forward,
    ForwardWithContext,
}

impl View for AuthAction {
    type V = ActionView;

    open spec fn view(&self) -> ActionView {
        match self {
            AuthAction::Reject(r) => ActionView::Reject(*r),
            AuthAction::Validate(s) => ActionView::Validate(s@),
            AuthAction::Forward => ActionView::Forward,
            AuthAction::ForwardWithContext => ActionView::ForwardWithContext,
        }
    }
}

/// The state of one upgrade's identity check.
pub struct AuthFlow {
    admission: Admission,
    stage: SessionStage,
    bearer: Option<String>,
    attempted_input: bool,
    reject_on_failure: bool,
}

/// The view of an [`AuthFlow`].
pub struct FlowView {
    pub admission: Admission,
    pub stage: SessionStage,
    pub bearer: Option<Seq<char>>,
    pub attempted_input: bool,
    pub reject_on_failure: bool,
}

impl View for AuthFlow {
    type V = FlowView;

    closed spec fn view(&self) -> FlowView {
        FlowView {
            admission: self.admission,
            stage: self.stage,
            bearer: opt_view(self.bearer),
            attempted_input: self.attempted_input,
            reject_on_failure: self.reject_on_failure,
        }
    }
}

/// What happens when no input yields an identity.
pub open spec fn spec_no_identity(reject_on_failure: bool, attempted_input: bool) -> ActionView {
    if reject_on_failure {
        ActionView::Reject(
            if attempted_input {
                RejectReason::SessionInvalid
            } else {
                RejectReason::SessionRequired
            },
        )
    } else {
        ActionView::Forward
    }
}

/// The first step of an upgrade: the admission check, then the first question to the
/// validator (cookie first, then bearer token).
pub open spec fn spec_start(settings: AuthSettings, headers: UpgradeHeaders) -> (
    FlowView,
    ActionView,
) {
    let adm = spec_admission(settings, headers);
    let bearer = bearer_token(headers.authorization);
    let cookie = opt_view(headers.cookie);
    let attempted = cookie is Some || bearer is Some;
    let done = FlowView {
        admission: adm,
        stage: SessionStage::Finished,
        bearer: bearer,
        attempted_input: attempted,
        reject_on_failure: settings.reject_on_session_failure,
    };
    if let Admission::Rejected(r) = adm {
        (done, ActionView::Reject(r))
    } else if !settings.has_session_validator {
        (done, ActionView::Forward)
    } else if let Some(c) = cookie {
        (FlowView { stage: SessionStage::AwaitingCookie, ..done }, ActionView::Validate(c))
    } else if let Some(b) = bearer {
        (FlowView { stage: SessionStage::AwaitingBearer, ..done }, ActionView::Validate(b))
    } else {
        (done, spec_no_identity(settings.reject_on_session_failure, attempted))
    }
}

/// The step after the validator answered (`accepted`: it produced an
/// identity).
pub open spec fn spec_on_validated(f: FlowView, accepted: bool) -> (FlowView, ActionView) {
    let done = FlowView { stage: SessionStage::Finished, ..f };
    if accepted {
        (done, ActionView::ForwardWithContext)
    } else if f.stage == SessionStage::AwaitingCookie && f.bearer is Some {
        (FlowView { stage: SessionStage::AwaitingBearer, ..f }, ActionView::Validate(f.bearer->0))
    } else {
        (done, spec_no_identity(f.reject_on_failure, f.attempted_input))
    }
}

impl AuthFlow {
    /// How the admission check decided for this request.
    pub fn admission(&self) -> (res: Admission)
        ensures
            res == self@.admission,
    {
        self.admission
    }

    /// Whether the flow waits for a validator answer.
    pub open spec fn awaiting(self) -> bool {
        self@.stage != SessionStage::Finished
    }

    /// Start the checks for one upgrade request.
    pub fn start(settings: &AuthSettings, headers: &UpgradeHeaders) -> (res: (AuthFlow, AuthAction))
        ensures
            (res.0@, res.1@) == spec_start(*settings, *headers),
            res.0.awaiting() <==> res.1 is Validate,
    {
        let adm = admission(settings, headers);
        let bearer: Option<String> = match &headers.authorization {
            Some(a) => match strip_bearer(a.as_str()) {
                Some(t) => Some(String::from_str(t)),
                None => None,
            },
            None => None,
        };
        let attempted = headers.cookie.is_some() || bearer.is_some();
        let reject = settings.reject_on_session_failure;
        let mut flow = AuthFlow {
            admission: adm,
            stage: SessionStage::Finished,
            bearer: None,
            attempted_input: attempted,
            reject_on_failure: reject,
        };
        let action = if let Admission::Rejected(r) = adm {
            AuthAction::Reject(r)
        } else if !settings.has_session_validator {
            AuthAction::Forward
        } else {
            match &headers.cookie {
                Some(c) => {
                    flow.stage = SessionStage::AwaitingCookie;
                    AuthAction::Validate(c.clone())
                },
                None => match &bearer {
                    Some(b) => {
                        flow.stage = SessionStage::AwaitingBearer;
                        AuthAction::Validate(b.clone())
                    },
                    None => Self::no_identity(reject, attempted),
                },
            }
        };
        flow.bearer = bearer;
        (flow, action)
    }

    fn no_identity(reject_on_failure: bool, attempted_input: bool) -> (res: AuthAction)
        ensures
            res@ == spec_no_identity(reject_on_failure, attempted_input),
    {
        if reject_on_failure {
            if attempted_input {
                AuthAction::Reject(RejectReason::SessionInvalid)
            } else {
                AuthAction::Reject(RejectReason::SessionRequired)
            }
        } else {
            AuthAction::Forward
        }
    }

    /// Report the validator's answer (`accepted`: it produced an identity)
    /// and get the next action.
    pub fn on_validated(&mut self, accepted: bool) -> (res: AuthAction)
        requires
            old(self).awaiting(),
        ensures
            (final(self)@, res@) == spec_on_validated(old(self)@, accepted),
            final(self).awaiting() <==> res is Validate,
    {
        if accepted {
            self.stage = SessionStage::Finished;
            return AuthAction::ForwardWithContext;
        }
        if self.stage == SessionStage::AwaitingCookie {
            match &self.bearer {
                Some(b) => {
                    let b = b.clone();
                    self.stage = SessionStage::AwaitingBearer;
                    return AuthAction::Validate(b);
                },
                None => {},
            }
        }
        self.stage = SessionStage::Finished;
        Self::no_identity(self.reject_on_failure, self.attempted_input)
    }
}

impl AuthSettings {
    /// Whether the upgrade middleware is installed at all: only when an api
    /// key or a session validator is configured.
    pub fn needs_middleware(&self) -> (res: bool)
        ensures
            res == (self.api_key is Some || self.has_session_validator),
    {
        self.api_key.is_some() || self.has_session_validator
    }
}

/// The end result of one upgrade.
pub enum UpgradeOutcome {
    /// A 401 with this reason; the inner service is not called.
    Refused(RejectReason),
    /// The inner service is called, with the identity that the validator
    /// produced from this input, or with none.
    Admitted { identity_from: Option<Seq<char>> },
}

/// The documented decision table for one upgrade, given which inputs the
/// session validator accepts.
pub open spec fn spec_upgrade_outcome(
    settings: AuthSettings,
    headers: UpgradeHeaders,
    accepts: spec_fn(Seq<char>) -> bool,
) -> UpgradeOutcome {
    let cookie = opt_view(headers.cookie);
    let bearer = bearer_token(headers.authorization);
    if let Admission::Rejected(r) = spec_admission(settings, headers) {
        UpgradeOutcome::Refused(r)
    } else if !settings.has_session_validator {
        UpgradeOutcome::Admitted { identity_from: None }
    } else if cookie is Some && accepts(cookie->0) {
        UpgradeOutcome::Admitted { identity_from: cookie }
    } else if bearer is Some && accepts(bearer->0) {
        UpgradeOutcome::Admitted { identity_from: bearer }
    } else if settings.reject_on_session_failure {
        UpgradeOutcome::Refused(
            if cookie is Some || bearer is Some {
                RejectReason::SessionInvalid
            } else {
                RejectReason::SessionRequired
            },
        )
    } else {
        UpgradeOutcome::Admitted { identity_from: None }
    }
}

/// The outcome a final action stands for; `last` is the input of the last
/// validation.
pub open spec fn action_outcome(a: ActionView, last: Option<Seq<char>>) -> UpgradeOutcome {
    match a {
        ActionView::Reject(r) => UpgradeOutcome::Refused(r),
        ActionView::ForwardWithContext => UpgradeOutcome::Admitted { identity_from: last },
        _ => UpgradeOutcome::Admitted { identity_from: None },
    }
}

/// Drive the flow with a validator that accepts exactly the inputs in
/// `accepts`: the outcome, the inputs the validator was asked about in
/// order, and whether the flow came to rest (no further question pending).
pub open spec fn spec_drive(
    settings: AuthSettings,
    headers: UpgradeHeaders,
    accepts: spec_fn(Seq<char>) -> bool,
) -> (UpgradeOutcome, Seq<Seq<char>>, bool) {
    let (f0, a0) = spec_start(settings, headers);
    if let ActionView::Validate(x) = a0 {
        let (f1, a1) = spec_on_validated(f0, accepts(x));
        if let ActionView::Validate(y) = a1 {
            let (f2, a2) = spec_on_validated(f1, accepts(y));
            (action_outcome(a2, Some(y)), seq![x, y], !(a2 is Validate))
        } else {
            (action_outcome(a1, Some(x)), seq![x], true)
        }
    } else {
        (action_outcome(a0, None), Seq::empty(), true)
    }
}

/// Driving the upgrade flow yields the decision table: the flow asks the
/// validator at most twice, only about the cookie and then the bearer
/// token (never about the api key header), never when the admission check
/// refused, and then comes to rest with the table's outcome.
pub proof fn law_upgrade_flow_follows_table(
    settings: AuthSettings,
    headers: UpgradeHeaders,
    accepts: spec_fn(Seq<char>) -> bool,
)
    ensures
        ({
            let (outcome, asked, at_rest) = spec_drive(settings, headers, accepts);
            &&& at_rest
            &&& outcome == spec_upgrade_outcome(settings, headers, accepts)
            &&& asked.len() <= 2
            &&& forall|i: int|
                0 <= i < asked.len() ==> (Some(#[trigger] asked[i]) == opt_view(headers.cookie)
                    || Some(asked[i]) == bearer_token(headers.authorization))
            &&& (spec_admission(settings, headers) is Rejected ==> asked.len() == 0)
            &&& (!settings.has_session_validator ==> asked.len() == 0)
        }),
{
}

/// The admission check: with an api key configured, a request is admitted
/// only when the api-key header carries the key, or when the header is
/// absent, no session validator is configured and `Authorization: Bearer`
/// carries the key.
pub proof fn law_admission_requires_key(
    settings: AuthSettings,
    headers: UpgradeHeaders,
    accepts: spec_fn(Seq<char>) -> bool,
)
    requires
        settings.api_key is Some,
        spec_upgrade_outcome(settings, headers, accepts) is Admitted,
    ensures
        opt_view(headers.api_key_header) == Some(settings.api_key->0@) || (
        headers.api_key_header is None && !settings.has_session_validator && bearer_token(
            headers.authorization,
        ) == Some(settings.api_key->0@)),
{
}

/// The deprecated bearer-as-api-key path is off whenever a session
/// validator is configured: without the api-key header the request is
/// refused as "api key required".
pub proof fn law_compat_shim_off_with_validator(
    settings: AuthSettings,
    headers: UpgradeHeaders,
    accepts: spec_fn(Seq<char>) -> bool,
)
    requires
        settings.api_key is Some,
        settings.has_session_validator,
        headers.api_key_header is None,
    ensures
        spec_upgrade_outcome(settings, headers, accepts) == UpgradeOutcome::Refused(
            RejectReason::ApiKeyRequired,
        ),
{
}

/// The cookie wins: once the admission check passes, an accepted cookie gives the
/// identity whatever the bearer token is.
pub proof fn law_cookie_wins(
    settings: AuthSettings,
    headers: UpgradeHeaders,
    accepts: spec_fn(Seq<char>) -> bool,
)
    requires
        !(spec_admission(settings, headers) is Rejected),
        settings.has_session_validator,
        headers.cookie is Some,
        accepts(headers.cookie->0@),
    ensures
        spec_upgrade_outcome(settings, headers, accepts) == (UpgradeOutcome::Admitted {
            identity_from: Some(headers.cookie->0@),
        }),
{
}

/// Strict mode: with a session validator and strict mode on, every admitted
/// upgrade carries an identity.
pub proof fn law_strict_mode_admits_only_identified(
    settings: AuthSettings,
    headers: UpgradeHeaders,
    accepts: spec_fn(Seq<char>) -> bool,
)
    requires
        settings.has_session_validator,
        settings.reject_on_session_failure,
        spec_upgrade_outcome(settings, headers, accepts) is Admitted,
    ensures
        spec_upgrade_outcome(settings, headers, accepts)->identity_from is Some,
{
}

/// Without an api key and without a session validator every upgrade passes
/// through, without an identity.
pub proof fn law_open_when_unconfigured(
    settings: AuthSettings,
    headers: UpgradeHeaders,
    accepts: spec_fn(Seq<char>) -> bool,
)
    requires
        settings.api_key is None,
        !settings.has_session_validator,
    ensures
        spec_upgrade_outcome(settings, headers, accepts) == (UpgradeOutcome::Admitted {
            identity_from: None,
        }),
{
}

/// A request whose api-key header carries exactly the configured key passes
/// the admission check, whatever its `Authorization` and `Cookie` headers
/// hold and whatever the session settings are.
pub proof fn law_matching_key_is_admitted(settings: AuthSettings, headers: UpgradeHeaders)
    requires
        settings.api_key is Some,
        opt_view(headers.api_key_header) == Some(settings.api_key->0@),
    ensures
        spec_admission(settings, headers) == Admission::KeyMatched,
{
}

/// The admission check reads only the api key, whether a validator is
/// configured, the api-key header and `Authorization`: strict mode and the
/// `Cookie` header never change it.
pub proof fn law_admission_ignores_cookie_and_strict_mode(
    settings: AuthSettings,
    headers: UpgradeHeaders,
    strict: bool,
    cookie: Option<String>,
)
    ensures
        spec_admission(settings, headers) == spec_admission(
            AuthSettings { reject_on_session_failure: strict, ..settings },
            UpgradeHeaders { cookie: cookie, ..headers },
        ),
{
}

/// The admission check in full: open without an api key; with one, a
/// header carrying the key passes, a header carrying anything else is an
/// invalid key, and a missing header is a missing key unless no validator
/// is configured and `Authorization: Bearer` carries the key.
pub proof fn law_admission_decisions(settings: AuthSettings, headers: UpgradeHeaders)
    ensures
        settings.api_key is None ==> spec_admission(settings, headers) == Admission::Open,
        settings.api_key is Some && headers.api_key_header is Some && headers.api_key_header->0@
            != settings.api_key->0@ ==> spec_admission(settings, headers) == Admission::Rejected(
            RejectReason::ApiKeyInvalid,
        ),
        settings.api_key is Some && headers.api_key_header is None && !settings.has_session_validator
            && headers.authorization is Some && spec_strip_bearer(headers.authorization->0@) == Some(
            settings.api_key->0@,
        ) ==> spec_admission(settings, headers) == Admission::CompatShim,
        settings.api_key is Some && headers.api_key_header is None && !(
        !settings.has_session_validator && headers.authorization is Some && spec_strip_bearer(
            headers.authorization->0@,
        ) == Some(settings.api_key->0@)) ==> spec_admission(settings, headers) == Admission::Rejected(
            RejectReason::ApiKeyRequired,
        ),
{
}

/// Stripping the bearer prefix inverts prepending it: a value yields a token
/// exactly when it is `Bearer ` (case-sensitive) followed by that token.
pub proof fn law_strip_bearer_inverts_prefix(value: Seq<char>, token: Seq<char>)
    ensures
        spec_strip_bearer(value) == Some(token) <==> value == bearer_prefix() + token,
        spec_strip_bearer(bearer_prefix() + token) == Some(token),
{
    if value == bearer_prefix() + token {
        assert(bearer_prefix() =~= value.subrange(0, 7));
        assert(value.skip(7) =~= token);
    }
    if spec_strip_bearer(value) == Some(token) {
        assert(value =~= bearer_prefix() + token);
    }
    let v2 = bearer_prefix() + token;
    assert(bearer_prefix() =~= v2.subrange(0, 7));
    assert(v2.skip(7) =~= token);
}

/// Once the admission check passes and a validator is configured: an
/// accepted cookie gives the identity; otherwise an accepted bearer token
/// does; otherwise, in strict mode, the upgrade is refused as "session
/// required" when neither was offered and as "session invalid" when one
/// was; and in lenient mode it passes without an identity.
pub proof fn law_identity_decisions(
    settings: AuthSettings,
    headers: UpgradeHeaders,
    accepts: spec_fn(Seq<char>) -> bool,
)
    requires
        !(spec_admission(settings, headers) is Rejected),
        settings.has_session_validator,
    ensures
        ({
            let cookie = opt_view(headers.cookie);
            let bearer = bearer_token(headers.authorization);
            let out = spec_upgrade_outcome(settings, headers, accepts);
            &&& (cookie is Some && accepts(cookie->0)) ==> out == (UpgradeOutcome::Admitted {
                identity_from: cookie,
            })
            &&& (!(cookie is Some && accepts(cookie->0)) && bearer is Some && accepts(bearer->0))
                ==> out == (UpgradeOutcome::Admitted { identity_from: bearer })
            &&& (!(cookie is Some && accepts(cookie->0)) && !(bearer is Some && accepts(
                bearer->0,
            ))) ==> {
                &&& (settings.reject_on_session_failure && cookie is None && bearer is None) ==> out
                    == UpgradeOutcome::Refused(RejectReason::SessionRequired)
                &&& (settings.reject_on_session_failure && (cookie is Some || bearer is Some))
                    ==> out == UpgradeOutcome::Refused(RejectReason::SessionInvalid)
                &&& !settings.reject_on_session_failure ==> out == (UpgradeOutcome::Admitted {
                    identity_from: None,
                })
            }
        }),
{
}

/// A refusal by the admission check is final: the upgrade is refused for
/// that reason whatever the validator would say.
pub proof fn law_admission_refusal_is_final(
    settings: AuthSettings,
    headers: UpgradeHeaders,
    accepts: spec_fn(Seq<char>) -> bool,
    r: RejectReason,
)
    requires
        spec_admission(settings, headers) == Admission::Rejected(r),
    ensures
        spec_upgrade_outcome(settings, headers, accepts) == UpgradeOutcome::Refused(r),
{
}

} // verus!
