//! Signing in and out.

use vstd::prelude::*;
use crate::audit;
use crate::audit::AuditEntry;
use crate::cookies;
use crate::cookies::{MFA_COOKIE_NAME, MFA_PENDING_TTL_SECS, SESSION_COOKIE_NAME};
use crate::flows::step;
use crate::flows::step::{Asked, Step};
use crate::forms;
use crate::forms::{
    LoginForm, LoginPasskeyFinishForm, LoginPrefill, LoginVerifyForm, LogoutForm,
};
use crate::gate;
use crate::gate::{Caller, Floor};
use crate::model;
use crate::model::{UserLifecycle, Uuid};
use crate::reply;
use crate::reply::{append_cookie_header, passkey_challenge, set_cookie_header, Reply};
use crate::text;
use crate::views::login;
use crate::views::shell::SiteInfo;

verus! {

pub const TOO_MANY_ATTEMPTS: &'static str = "Too many attempts. Wait a moment and try again.";

/// What the rate limit of an endpoint counts under: the endpoint and who is asking.
pub open spec fn limit_key(endpoint: Seq<char>, subject: Seq<char>) -> Seq<char> {
    endpoint + ":"@ + subject
}

pub fn rate_key(endpoint: &str, subject: &str) -> (r: String)
    ensures
        r@ == limit_key(endpoint@, subject@),
{
    text::join(endpoint, ":").concat(subject)
}

/// `GET /`: signed-in visitors go to their account, others to the sign-in.
pub fn root_redirect(signed_in: bool) -> (r: Reply)
    ensures
        r@ == reply::see_other(if signed_in { "/me"@ } else { "/login"@ }),
{
    if signed_in {
        Reply::see_other("/me")
    } else {
        Reply::see_other("/login")
    }
}

/// `GET /login`: the sign-in form, with the email that came along.
pub fn login_page(site: &SiteInfo, signed_in: bool, prefill: &LoginPrefill) -> (r: Reply)
    ensures
        r@ == (if signed_in {
            reply::see_other("/me"@)
        } else {
            reply::ok_page(login::login_page_html(site, None, text::opt_string(prefill.email)))
        }),
{
    if signed_in {
        Reply::see_other("/me")
    } else {
        Reply::ok_page(login::login_page(site, None, text::lend(&prefill.email)))
    }
}

/// The sign-in form that says why the last attempt failed.
pub open spec fn login_retry(site: &SiteInfo, message: Seq<char>, email: Option<Seq<char>>) -> reply::ReplyView {
    reply::ok_page(login::login_page_html(site, Some(message), email))
}

/// The reply to a client that tried too often.
pub open spec fn login_throttled(site: &SiteInfo) -> reply::ReplyView {
    reply::page_with(429, login::login_page_html(site, Some(TOO_MANY_ATTEMPTS@), None))
}

fn throttled(site: &SiteInfo) -> (r: Reply)
    ensures
        r@ == login_throttled(site),
{
    Reply::page(429, login::login_page(site, Some(TOO_MANY_ATTEMPTS), None))
}

// ---- Password --------------------------------------------------------------------------------

/// What the password step asks for, in this order.
pub enum LoginAsk {
    /// Whether the rate limit has room under this key.
    Allowed(String),
    /// Whose email and password these are.
    Credentials { email: String, password: String },
    /// Whether the user has a second factor.
    SecondFactor(Uuid),
    /// A token that says that the user passed the password step.
    PendingToken(Uuid),
    /// A session for the user.
    Session(OpenSession),
}

pub enum LoginAskView {
    Allowed(Seq<char>),
    Credentials { email: Seq<char>, password: Seq<char> },
    SecondFactor(Uuid),
    PendingToken(Uuid),
    Session(OpenSession),
}

impl View for LoginAsk {
    type V = LoginAskView;

    open spec fn view(&self) -> LoginAskView {
        match *self {
            LoginAsk::Allowed(key) => LoginAskView::Allowed(key@),
            LoginAsk::Credentials { email, password } => LoginAskView::Credentials {
                email: email@,
                password: password@,
            },
            LoginAsk::SecondFactor(user) => LoginAskView::SecondFactor(user),
            LoginAsk::PendingToken(user) => LoginAskView::PendingToken(user),
            LoginAsk::Session(s) => LoginAskView::Session(s),
        }
    }
}

/// What the password step was told so far.
pub struct LoginAnswers {
    pub allowed: Option<bool>,
    /// The user, if email and password belong to an active account.
    pub credentials: Asked<Option<Uuid>>,
    pub second_factor: Asked<bool>,
    pub pending_token: Option<String>,
    /// The token of the new session.
    pub session: Asked<String>,
}

/// The reply that opens a session.
pub open spec fn session_opened(token: Seq<char>, secure: bool) -> reply::ReplyView {
    reply::see_other("/me"@).only_cookie(
        cookies::session_cookie(SESSION_COOKIE_NAME@, token, secure),
    )
}

/// The reply that sends a user on to their second factor.
pub open spec fn second_factor_due(token: Seq<char>, secure: bool) -> reply::ReplyView {
    reply::see_other("/login/verify"@).only_cookie(
        cookies::timed_cookie(MFA_COOKIE_NAME@, token, MFA_PENDING_TTL_SECS as nat, secure),
    )
}

pub open spec fn login_step(
    site: &SiteInfo,
    form: &LoginForm,
    client: Seq<char>,
    secure: bool,
    a: &LoginAnswers,
) -> step::StepView<LoginAskView> {
    match a.allowed {
        None => step::StepView::Ask(LoginAskView::Allowed(limit_key("login"@, client))),
        Some(false) => step::replied(login_throttled(site)),
        Some(true) => match a.credentials {
            Asked::NotYet => step::StepView::Ask(
                LoginAskView::Credentials { email: form.email@, password: form.password@ },
            ),
            Asked::Failed => step::gave_up(site),
            Asked::Answer(None) => step::attempt_failed(
                limit_key("login"@, client),
                None,
                login_retry(site, "Invalid email or password."@, Some(form.email@)),
            ),
            Asked::Answer(Some(user)) => match a.second_factor {
                Asked::NotYet => step::StepView::Ask(LoginAskView::SecondFactor(user)),
                Asked::Failed => step::gave_up(site),
                Asked::Answer(true) => match a.pending_token {
                    None => step::StepView::Ask(LoginAskView::PendingToken(user)),
                    Some(token) => step::replied(second_factor_due(token@, secure)),
                },
                Asked::Answer(false) => match a.session {
                    Asked::NotYet => step::StepView::Ask(
                        LoginAskView::Session(OpenSession { user, factor: None }),
                    ),
                    Asked::Failed => step::gave_up(site),
                    Asked::Answer(token) => step::replied(session_opened(token@, secure)),
                },
            },
        },
    }
}

/// `POST /login`: checks email and password. A user with a second factor gets no session yet.
pub fn login_submit(
    site: &SiteInfo,
    form: &LoginForm,
    client: &str,
    secure: bool,
    a: &LoginAnswers,
) -> (r: Step<LoginAsk>)
    ensures
        r@ == login_step(site, form, client@, secure, a),
{
    match a.allowed {
        None => Step::Ask(LoginAsk::Allowed(rate_key("login", client))),
        Some(false) => Step::replied(throttled(site)),
        Some(true) => match &a.credentials {
            Asked::NotYet => Step::Ask(
                LoginAsk::Credentials {
                    email: form.email.as_str().to_owned(),
                    password: form.password.as_str().to_owned(),
                },
            ),
            Asked::Failed => Step::gave_up(site),
            Asked::Answer(None) => Step::attempt_failed(
                rate_key("login", client),
                None,
                Reply::ok_page(
                    login::login_page(
                        site,
                        Some("Invalid email or password."),
                        Some(form.email.as_str()),
                    ),
                ),
            ),
            Asked::Answer(Some(user)) => match &a.second_factor {
                Asked::NotYet => Step::Ask(LoginAsk::SecondFactor(*user)),
                Asked::Failed => Step::gave_up(site),
                Asked::Answer(true) => match &a.pending_token {
                    None => Step::Ask(LoginAsk::PendingToken(*user)),
                    Some(token) => {
                        let cookie = cookies::mfa_cookie_value(token.as_str(), false, secure);
                        Step::replied(
                            set_cookie_header(Reply::see_other("/login/verify"), cookie.as_str()),
                        )
                    },
                },
                Asked::Answer(false) => match &a.session {
                    Asked::NotYet => Step::Ask(
                        LoginAsk::Session(OpenSession { user: *user, factor: None }),
                    ),
                    Asked::Failed => Step::gave_up(site),
                    Asked::Answer(token) => {
                        let cookie = cookies::cookie_value(
                            SESSION_COOKIE_NAME,
                            token.as_str(),
                            false,
                            secure,
                        );
                        Step::replied(set_cookie_header(Reply::see_other("/me"), cookie.as_str()))
                    },
                },
            },
        },
    }
}

/// A password opens a session only for the user it belongs to, within the rate limit, and only
/// where that user has no second factor.
pub proof fn law_password_alone_needs_no_second_factor(
    site: &SiteInfo,
    form: &LoginForm,
    client: Seq<char>,
    secure: bool,
    a: &LoginAnswers,
    user: Uuid,
    factor: Option<MfaFactor>,
)
    requires
        login_step(site, form, client, secure, a) == step::StepView::<LoginAskView>::Ask(
            LoginAskView::Session(OpenSession { user, factor }),
        ),
    ensures
        a.allowed == Some(true),
        factor is None,
        a.credentials == Asked::Answer(Some(user)),
        a.second_factor == Asked::<bool>::Answer(false),
{
}

/// No question is asked twice, so a sign-in ends after five answers at most.
pub proof fn law_login_asks_once(
    site: &SiteInfo,
    form: &LoginForm,
    client: Seq<char>,
    secure: bool,
    a: &LoginAnswers,
)
    ensures
        match login_step(site, form, client, secure, a) {
            step::StepView::Ask(LoginAskView::Allowed(_)) => a.allowed is None,
            step::StepView::Ask(LoginAskView::Credentials { .. }) => a.credentials is NotYet,
            step::StepView::Ask(LoginAskView::SecondFactor(_)) => a.second_factor is NotYet,
            step::StepView::Ask(LoginAskView::PendingToken(_)) => a.pending_token is None,
            step::StepView::Ask(LoginAskView::Session(_)) => a.session is NotYet,
            step::StepView::Finish(_) => true,
        },
{
}

// ---- Passkey instead of a password -----------------------------------------------------------

/// What the start of a sign-in with a passkey asks for.
pub enum DiscoverAsk {
    /// Whether the rate limit has room under this key.
    Allowed(String),
    /// To begin a ceremony with whatever passkey the browser has. The answer is the challenge and
    /// the options for the browser as JSON.
    Begin,
}

pub enum DiscoverAskView {
    Allowed(Seq<char>),
    Begin,
}

impl View for DiscoverAsk {
    type V = DiscoverAskView;

    open spec fn view(&self) -> DiscoverAskView {
        match *self {
            DiscoverAsk::Allowed(key) => DiscoverAskView::Allowed(key@),
            DiscoverAsk::Begin => DiscoverAskView::Begin,
        }
    }
}

pub open spec fn discover_step(
    site: &SiteInfo,
    client: Seq<char>,
    allowed: Option<bool>,
    started: Asked<(Uuid, String)>,
) -> step::StepView<DiscoverAskView> {
    match allowed {
        None => step::StepView::Ask(DiscoverAskView::Allowed(limit_key("pklogin"@, client))),
        Some(false) => step::replied(reply::text_with(429, "slow down"@)),
        Some(true) => match started {
            Asked::NotYet => step::StepView::Ask(DiscoverAskView::Begin),
            Asked::Failed => step::gave_up(site),
            Asked::Answer((challenge_id, options)) => step::replied(
                reply::plain(
                    reply::ContentView::Json { json: reply::challenge_json(challenge_id, options@) },
                ),
            ),
        },
    }
}

/// `POST /login/passkey/start`: begins a sign-in with a passkey alone.
pub fn login_passkey_start(
    site: &SiteInfo,
    client: &str,
    allowed: Option<bool>,
    started: &Asked<(Uuid, String)>,
) -> (r: Step<DiscoverAsk>)
    ensures
        r@ == discover_step(site, client@, allowed, *started),
{
    match allowed {
        None => Step::Ask(DiscoverAsk::Allowed(rate_key("pklogin", client))),
        Some(false) => Step::replied(Reply::text(429, "slow down")),
        Some(true) => match started {
            Asked::NotYet => Step::Ask(DiscoverAsk::Begin),
            Asked::Failed => Step::gave_up(site),
            Asked::Answer(ceremony) => Step::replied(
                passkey_challenge(ceremony.0, ceremony.1.as_str()),
            ),
        },
    }
}

/// How a second factor was proved.
#[derive(Clone, Copy, Debug, PartialEq, Eq, Structural)]
pub enum MfaFactor {
    /// An authenticator, by the credential that took the code.
    Totp(Uuid),
    Passkey,
    RecoveryCode,
}

pub open spec fn factor_name(f: MfaFactor) -> Seq<char> {
    match f {
        MfaFactor::Totp(_) => "totp"@,
        MfaFactor::Passkey => "passkey"@,
        MfaFactor::RecoveryCode => "recovery_code"@,
    }
}

impl MfaFactor {
    /// The name of the factor in the audit log.
    pub fn label(self) -> (r: &'static str)
        ensures
            r@ == factor_name(self),
    {
        match self {
            MfaFactor::Totp(_) => "totp",
            MfaFactor::Passkey => "passkey",
            MfaFactor::RecoveryCode => "recovery_code",
        }
    }
}

/// A session to be opened, for whom and on the strength of what beside the password. Opening it
/// writes [`OpenSession::entry`] to the log, both or neither; the answer is the token of the
/// session.
#[derive(Clone, Copy, Debug, PartialEq, Eq, Structural)]
pub struct OpenSession {
    pub user: Uuid,
    pub factor: Option<MfaFactor>,
}

impl View for OpenSession {
    type V = OpenSession;

    open spec fn view(&self) -> OpenSession {
        *self
    }
}

impl OpenSession {
    /// The entry of a session that was opened for a user with this email.
    pub fn entry(self, email: &str, session: Uuid) -> (e: AuditEntry)
        ensures
            e@ == audit::signin_entry(
                email@,
                session,
                match self.factor {
                    Some(f) => Some(factor_name(f)),
                    None => None,
                },
            ),
    {
        match self.factor {
            Some(f) => audit::signin_success_with(email, session, f.label()),
            None => audit::signin_success(email, session),
        }
    }

    /// The authenticator that is marked as used with the session.
    pub fn stamp(self) -> (r: Option<Uuid>)
        ensures
            r == (match self.factor {
                Some(MfaFactor::Totp(credential)) => Some(credential),
                _ => None,
            }),
    {
        match self.factor {
            Some(MfaFactor::Totp(credential)) => Some(credential),
            _ => None,
        }
    }
}

/// The reply that opens a session after a second factor and ends the wait for it.
pub open spec fn session_opened_after_mfa(token: Seq<char>, secure: bool) -> reply::ReplyView {
    reply::see_other("/me"@).with_cookie(
        cookies::session_cookie(SESSION_COOKIE_NAME@, token, secure),
    ).with_cookie(cookies::cleared_cookie(MFA_COOKIE_NAME@, secure))
}

fn issue_session_after_mfa(token: &str, secure: bool) -> (r: Reply)
    ensures
        r@ == session_opened_after_mfa(token@, secure),
{
    let session = cookies::cookie_value(SESSION_COOKIE_NAME, token, false, secure);
    let cleared = cookies::mfa_cookie_value("", true, secure);
    append_cookie_header(
        append_cookie_header(Reply::see_other("/me"), session.as_str()),
        cleared.as_str(),
    )
}

/// What a sign-in with a passkey asks for, in this order.
pub enum PasskeyAsk {
    /// Whether the rate limit has room under this key.
    Allowed(String),
    /// Whose passkey signed the challenge.
    Assertion { challenge_id: Uuid, assertion: String },
    /// Where that account stands in its life.
    Lifecycle(Uuid),
    Session(OpenSession),
}

pub enum PasskeyAskView {
    Allowed(Seq<char>),
    Assertion { challenge_id: Uuid, assertion: Seq<char> },
    Lifecycle(Uuid),
    Session(OpenSession),
}

impl View for PasskeyAsk {
    type V = PasskeyAskView;

    open spec fn view(&self) -> PasskeyAskView {
        match *self {
            PasskeyAsk::Allowed(key) => PasskeyAskView::Allowed(key@),
            PasskeyAsk::Assertion { challenge_id, assertion } => PasskeyAskView::Assertion {
                challenge_id,
                assertion: assertion@,
            },
            PasskeyAsk::Lifecycle(user) => PasskeyAskView::Lifecycle(user),
            PasskeyAsk::Session(s) => PasskeyAskView::Session(s),
        }
    }
}

pub struct PasskeyAnswers {
    pub allowed: Option<bool>,
    pub assertion: Asked<Option<Uuid>>,
    pub lifecycle: Asked<Option<UserLifecycle>>,
    pub session: Asked<String>,
}

pub open spec fn passkey_step(
    site: &SiteInfo,
    form: &LoginPasskeyFinishForm,
    client: Seq<char>,
    secure: bool,
    a: &PasskeyAnswers,
) -> step::StepView<PasskeyAskView> {
    match a.allowed {
        None => step::StepView::Ask(PasskeyAskView::Allowed(limit_key("login"@, client))),
        Some(false) => step::replied(login_throttled(site)),
        Some(true) => match a.assertion {
            Asked::NotYet => step::StepView::Ask(
                PasskeyAskView::Assertion {
                    challenge_id: form.challenge_id,
                    assertion: form.passkey@,
                },
            ),
            Asked::Failed => step::gave_up(site),
            Asked::Answer(None) => step::attempt_failed(
                limit_key("login"@, client),
                None,
                login_retry(
                    site,
                    "Passkey sign-in didn't work. Try again, or sign in with your password."@,
                    None,
                ),
            ),
            Asked::Answer(Some(user)) => match a.lifecycle {
                Asked::NotYet => step::StepView::Ask(PasskeyAskView::Lifecycle(user)),
                Asked::Failed => step::gave_up(site),
                Asked::Answer(lifecycle) => if lifecycle == Some(UserLifecycle::Active) {
                    match a.session {
                        Asked::NotYet => step::StepView::Ask(
                            PasskeyAskView::Session(
                                OpenSession { user, factor: Some(MfaFactor::Passkey) },
                            ),
                        ),
                        Asked::Failed => step::gave_up(site),
                        Asked::Answer(token) => step::replied(
                            session_opened_after_mfa(token@, secure),
                        ),
                    }
                } else {
                    step::attempt_failed(
                        limit_key("login"@, client),
                        None,
                        login_retry(site, "That account can't sign in."@, None),
                    )
                },
            },
        },
    }
}

/// `POST /login/passkey/finish`: signs in with a passkey, which needs no second factor. Only
/// active accounts get in.
pub fn login_passkey_finish(
    site: &SiteInfo,
    form: &LoginPasskeyFinishForm,
    client: &str,
    secure: bool,
    a: &PasskeyAnswers,
) -> (r: Step<PasskeyAsk>)
    ensures
        r@ == passkey_step(site, form, client@, secure, a),
{
    match a.allowed {
        None => Step::Ask(PasskeyAsk::Allowed(rate_key("login", client))),
        Some(false) => Step::replied(throttled(site)),
        Some(true) => match &a.assertion {
            Asked::NotYet => Step::Ask(
                PasskeyAsk::Assertion {
                    challenge_id: form.challenge_id,
                    assertion: form.passkey.as_str().to_owned(),
                },
            ),
            Asked::Failed => Step::gave_up(site),
            Asked::Answer(None) => Step::attempt_failed(
                rate_key("login", client),
                None,
                Reply::ok_page(
                    login::login_page(
                        site,
                        Some("Passkey sign-in didn't work. Try again, or sign in with your password."),
                        None,
                    ),
                ),
            ),
            Asked::Answer(Some(user)) => match &a.lifecycle {
                Asked::NotYet => Step::Ask(PasskeyAsk::Lifecycle(*user)),
                Asked::Failed => Step::gave_up(site),
                Asked::Answer(Some(UserLifecycle::Active)) => match &a.session {
                    Asked::NotYet => Step::Ask(
                        PasskeyAsk::Session(
                            OpenSession { user: *user, factor: Some(MfaFactor::Passkey) },
                        ),
                    ),
                    Asked::Failed => Step::gave_up(site),
                    Asked::Answer(token) => Step::replied(
                        issue_session_after_mfa(token.as_str(), secure),
                    ),
                },
                Asked::Answer(_) => Step::attempt_failed(
                    rate_key("login", client),
                    None,
                    Reply::ok_page(
                        login::login_page(site, Some("That account can't sign in."), None),
                    ),
                ),
            },
        },
    }
}

/// A passkey opens a session only for an active account.
pub proof fn law_passkey_needs_active_account(
    site: &SiteInfo,
    form: &LoginPasskeyFinishForm,
    client: Seq<char>,
    secure: bool,
    a: &PasskeyAnswers,
    user: Uuid,
    factor: Option<MfaFactor>,
)
    requires
        passkey_step(site, form, client, secure, a) == step::StepView::<PasskeyAskView>::Ask(
            PasskeyAskView::Session(OpenSession { user, factor }),
        ),
    ensures
        a.allowed == Some(true),
        factor == Some(MfaFactor::Passkey),
        a.assertion == Asked::Answer(Some(user)),
        a.lifecycle == Asked::Answer(Some(UserLifecycle::Active)),
{
}

/// No question is asked twice.
pub proof fn law_passkey_asks_once(
    site: &SiteInfo,
    form: &LoginPasskeyFinishForm,
    client: Seq<char>,
    secure: bool,
    a: &PasskeyAnswers,
)
    ensures
        match passkey_step(site, form, client, secure, a) {
            step::StepView::Ask(PasskeyAskView::Allowed(_)) => a.allowed is None,
            step::StepView::Ask(PasskeyAskView::Assertion { .. }) => a.assertion is NotYet,
            step::StepView::Ask(PasskeyAskView::Lifecycle(_)) => a.lifecycle is NotYet,
            step::StepView::Ask(PasskeyAskView::Session(_)) => a.session is NotYet,
            step::StepView::Finish(_) => true,
        },
{
}

// ---- Second factor ---------------------------------------------------------------------------

/// The second factors a user has enrolled.
#[derive(Clone, Copy, Debug, PartialEq, Eq, Structural)]
pub struct Factors {
    pub totp: bool,
    pub passkey: bool,
}

/// The enrolled factors; one that could not be looked up counts as not enrolled.
pub fn enrolled_factors(totp: Option<bool>, passkey: Option<bool>) -> (r: Factors)
    ensures
        r.totp == (totp == Some(true)),
        r.passkey == (passkey == Some(true)),
{
    let totp: bool = match totp {
        Some(b) => b,
        None => false,
    };
    let passkey: bool = match passkey {
        Some(b) => b,
        None => false,
    };
    Factors { totp, passkey }
}

/// `GET /login/verify`: the second-factor form, for a user who passed the password step.
pub fn login_verify_page(site: &SiteInfo, pending: Option<Factors>) -> (r: Reply)
    ensures
        r@ == (match pending {
            Some(f) => reply::ok_page(
                login::login_verify_page_html(site, None, f.totp, f.passkey),
            ),
            None => reply::see_other("/login"@),
        }),
{
    match pending {
        Some(f) => Reply::ok_page(login::login_verify_page(site, None, f.totp, f.passkey)),
        None => Reply::see_other("/login"),
    }
}

/// The factor that a form presents.
pub enum Presented {
    Passkey { assertion: String, challenge_id: Option<Uuid> },
    Totp(String),
    Recovery(String),
    Nothing,
}

pub enum PresentedView {
    Passkey { assertion: Seq<char>, challenge_id: Option<Uuid> },
    Totp(Seq<char>),
    Recovery(Seq<char>),
    Nothing,
}

impl View for Presented {
    type V = PresentedView;

    open spec fn view(&self) -> PresentedView {
        match *self {
            Presented::Passkey { assertion, challenge_id } => PresentedView::Passkey {
                assertion: assertion@,
                challenge_id,
            },
            Presented::Totp(code) => PresentedView::Totp(code@),
            Presented::Recovery(code) => PresentedView::Recovery(code@),
            Presented::Nothing => PresentedView::Nothing,
        }
    }
}

/// A field that was filled in, as it stands.
pub open spec fn entered(field: Option<String>) -> Option<Seq<char>> {
    match field {
        Some(s) => if s@.len() == 0 {
            None
        } else {
            Some(s@)
        },
        None => None,
    }
}

pub(crate) fn given(field: &Option<String>) -> (r: Option<String>)
    ensures
        text::opt_string(r) == entered(*field),
{
    match field {
        Some(s) => if s.as_str().is_empty() {
            None
        } else {
            Some(s.as_str().to_owned())
        },
        None => None,
    }
}

/// The first factor filled in: a passkey, then a code, then a recovery code. White space around
/// a code does not count.
pub open spec fn presented_by(form: &LoginVerifyForm) -> PresentedView {
    match entered(form.passkey) {
        Some(assertion) => PresentedView::Passkey { assertion, challenge_id: form.challenge_id },
        None => match forms::cleaned(form.code) {
            Some(code) => PresentedView::Totp(code),
            None => match forms::cleaned(form.recovery_code) {
                Some(code) => PresentedView::Recovery(code),
                None => PresentedView::Nothing,
            },
        },
    }
}

fn trimmed_field(field: &Option<String>) -> (r: Option<String>)
    ensures
        text::opt_string(r) == forms::cleaned(*field),
{
    match field {
        Some(s) => forms::trim_to_option(s.as_str()),
        None => None,
    }
}

pub fn presented(form: &LoginVerifyForm) -> (r: Presented)
    ensures
        r@ == presented_by(form),
{
    match given(&form.passkey) {
        Some(assertion) => Presented::Passkey { assertion, challenge_id: form.challenge_id },
        None => match trimmed_field(&form.code) {
            Some(code) => Presented::Totp(code),
            None => match trimmed_field(&form.recovery_code) {
                Some(code) => Presented::Recovery(code),
                None => Presented::Nothing,
            },
        },
    }
}

/// What the second-factor step asks for.
pub enum VerifyAsk {
    /// Which factors the user has.
    Factors(Uuid),
    /// Whether the rate limit has room under this key.
    Allowed(String),
    /// Whether the account is still there.
    User(Uuid),
    /// Whether the user's passkey signed the challenge.
    Passkey { user: Uuid, challenge_id: Uuid, assertion: String },
    /// Which of the user's authenticators shows the code; it is used up.
    Totp { user: Uuid, code: String },
    /// Whether this is the user's recovery code.
    Recovery { user: Uuid, code: String },
    Session(OpenSession),
}

pub enum VerifyAskView {
    Factors(Uuid),
    Allowed(Seq<char>),
    User(Uuid),
    Passkey { user: Uuid, challenge_id: Uuid, assertion: Seq<char> },
    Totp { user: Uuid, code: Seq<char> },
    Recovery { user: Uuid, code: Seq<char> },
    Session(OpenSession),
}

impl View for VerifyAsk {
    type V = VerifyAskView;

    open spec fn view(&self) -> VerifyAskView {
        match *self {
            VerifyAsk::Factors(user) => VerifyAskView::Factors(user),
            VerifyAsk::Allowed(key) => VerifyAskView::Allowed(key@),
            VerifyAsk::User(user) => VerifyAskView::User(user),
            VerifyAsk::Passkey { user, challenge_id, assertion } => VerifyAskView::Passkey {
                user,
                challenge_id,
                assertion: assertion@,
            },
            VerifyAsk::Totp { user, code } => VerifyAskView::Totp { user, code: code@ },
            VerifyAsk::Recovery { user, code } => VerifyAskView::Recovery { user, code: code@ },
            VerifyAsk::Session(s) => VerifyAskView::Session(s),
        }
    }
}

pub struct VerifyAnswers {
    pub factors: Option<Factors>,
    pub allowed: Option<bool>,
    pub user_found: Asked<bool>,
    pub passkey: Asked<bool>,
    pub totp: Asked<Option<Uuid>>,
    pub recovery: Asked<bool>,
    pub session: Asked<String>,
}

/// The second-factor form that says why the last attempt failed.
pub open spec fn verify_retry(site: &SiteInfo, f: Factors, message: Seq<char>) -> reply::ReplyView {
    reply::ok_page(login::login_verify_page_html(site, Some(message), f.totp, f.passkey))
}

fn retry(site: &SiteInfo, f: Factors, message: &str) -> (r: Reply)
    ensures
        r@ == verify_retry(site, f, message@),
{
    Reply::ok_page(login::login_verify_page(site, Some(message), f.totp, f.passkey))
}

/// The step behind a factor that was accepted.
pub open spec fn verified_step(
    site: &SiteInfo,
    secure: bool,
    a: &VerifyAnswers,
    user: Uuid,
    factor: MfaFactor,
) -> step::StepView<VerifyAskView> {
    match a.session {
        Asked::NotYet => step::StepView::Ask(
            VerifyAskView::Session(OpenSession { user, factor: Some(factor) }),
        ),
        Asked::Failed => step::gave_up(site),
        Asked::Answer(token) => step::replied(session_opened_after_mfa(token@, secure)),
    }
}

fn verified(site: &SiteInfo, secure: bool, a: &VerifyAnswers, user: Uuid, factor: MfaFactor) -> (r: Step<VerifyAsk>)
    ensures
        r@ == verified_step(site, secure, a, user, factor),
{
    match &a.session {
        Asked::NotYet => Step::Ask(
            VerifyAsk::Session(OpenSession { user, factor: Some(factor) }),
        ),
        Asked::Failed => Step::gave_up(site),
        Asked::Answer(token) => Step::replied(issue_session_after_mfa(token.as_str(), secure)),
    }
}

/// The key under which the second factors of a user are limited.
pub open spec fn mfa_key(user: Uuid) -> Seq<char> {
    limit_key("mfa"@, model::uuid_text(user))
}

fn mfa_rate_key(user: Uuid) -> (r: String)
    ensures
        r@ == mfa_key(user),
{
    let subject = user.text();
    rate_key("mfa", subject.as_str())
}

/// The steps that judge the factor a form presents.
pub open spec fn factor_step(
    site: &SiteInfo,
    secure: bool,
    form: &LoginVerifyForm,
    a: &VerifyAnswers,
    user: Uuid,
    f: Factors,
) -> step::StepView<VerifyAskView> {
    match presented_by(form) {
        PresentedView::Passkey { assertion, challenge_id } => match challenge_id {
            None => step::replied(reply::see_other("/login/verify"@)),
            Some(challenge_id) => match a.passkey {
                Asked::NotYet => step::StepView::Ask(
                    VerifyAskView::Passkey { user, challenge_id, assertion },
                ),
                Asked::Failed => step::gave_up(site),
                Asked::Answer(true) => verified_step(site, secure, a, user, MfaFactor::Passkey),
                Asked::Answer(false) => step::attempt_failed(
                    mfa_key(user),
                    Some(audit::mfa_failure("passkey"@)),
                    verify_retry(site, f, "That passkey didn't work. Try again."@),
                ),
            },
        },
        PresentedView::Totp(code) => match a.totp {
            Asked::NotYet => step::StepView::Ask(VerifyAskView::Totp { user, code }),
            Asked::Failed => step::gave_up(site),
            Asked::Answer(Some(credential)) => verified_step(
                site,
                secure,
                a,
                user,
                MfaFactor::Totp(credential),
            ),
            Asked::Answer(None) => step::attempt_failed(
                mfa_key(user),
                Some(audit::mfa_failure("totp"@)),
                verify_retry(site, f, "That code didn't match. Try again."@),
            ),
        },
        PresentedView::Recovery(code) => match a.recovery {
            Asked::NotYet => step::StepView::Ask(VerifyAskView::Recovery { user, code }),
            Asked::Failed => step::gave_up(site),
            Asked::Answer(true) => verified_step(site, secure, a, user, MfaFactor::RecoveryCode),
            Asked::Answer(false) => step::attempt_failed(
                mfa_key(user),
                Some(audit::mfa_failure("recovery_code"@)),
                verify_retry(site, f, "That recovery code didn't match."@),
            ),
        },
        PresentedView::Nothing => step::replied(
            verify_retry(site, f, "Choose a verification method to continue."@),
        ),
    }
}

fn judge_factor(
    site: &SiteInfo,
    secure: bool,
    form: &LoginVerifyForm,
    a: &VerifyAnswers,
    user: Uuid,
    f: Factors,
) -> (r: Step<VerifyAsk>)
    ensures
        r@ == factor_step(site, secure, form, a, user, f),
{
    match presented(form) {
        Presented::Passkey { assertion, challenge_id } => match challenge_id {
            None => Step::replied(Reply::see_other("/login/verify")),
            Some(challenge_id) => match &a.passkey {
                Asked::NotYet => Step::Ask(VerifyAsk::Passkey { user, challenge_id, assertion }),
                Asked::Failed => Step::gave_up(site),
                Asked::Answer(true) => verified(site, secure, a, user, MfaFactor::Passkey),
                Asked::Answer(false) => Step::attempt_failed(
                    mfa_rate_key(user),
                    Some(audit::mfa_failed("passkey")),
                    retry(site, f, "That passkey didn't work. Try again."),
                ),
            },
        },
        Presented::Totp(code) => match &a.totp {
            Asked::NotYet => Step::Ask(VerifyAsk::Totp { user, code }),
            Asked::Failed => Step::gave_up(site),
            Asked::Answer(Some(credential)) => verified(
                site,
                secure,
                a,
                user,
                MfaFactor::Totp(*credential),
            ),
            Asked::Answer(None) => Step::attempt_failed(
                mfa_rate_key(user),
                Some(audit::mfa_failed("totp")),
                retry(site, f, "That code didn't match. Try again."),
            ),
        },
        Presented::Recovery(code) => match &a.recovery {
            Asked::NotYet => Step::Ask(VerifyAsk::Recovery { user, code }),
            Asked::Failed => Step::gave_up(site),
            Asked::Answer(true) => verified(site, secure, a, user, MfaFactor::RecoveryCode),
            Asked::Answer(false) => Step::attempt_failed(
                mfa_rate_key(user),
                Some(audit::mfa_failed("recovery_code")),
                retry(site, f, "That recovery code didn't match."),
            ),
        },
        Presented::Nothing => Step::replied(
            retry(site, f, "Choose a verification method to continue."),
        ),
    }
}

pub open spec fn verify_step(
    site: &SiteInfo,
    secure: bool,
    form: &LoginVerifyForm,
    pending: Option<Uuid>,
    a: &VerifyAnswers,
) -> step::StepView<VerifyAskView> {
    match pending {
        None => step::replied(reply::see_other("/login"@)),
        Some(user) => match a.factors {
            None => step::StepView::Ask(VerifyAskView::Factors(user)),
            Some(f) => match a.allowed {
                None => step::StepView::Ask(
                    VerifyAskView::Allowed(mfa_key(user)),
                ),
                Some(false) => step::replied(
                    reply::page_with(
                        429,
                        login::login_verify_page_html(
                            site,
                            Some(TOO_MANY_ATTEMPTS@),
                            f.totp,
                            f.passkey,
                        ),
                    ),
                ),
                Some(true) => match a.user_found {
                    Asked::NotYet => step::StepView::Ask(VerifyAskView::User(user)),
                    Asked::Failed => step::gave_up(site),
                    Asked::Answer(false) => step::replied(reply::see_other("/login"@)),
                    Asked::Answer(true) => factor_step(site, secure, form, a, user, f),
                },
            },
        },
    }
}

/// `POST /login/verify`: checks the second factor of the user that the pending cookie names, and
/// opens the session.
pub fn login_verify_submit(
    site: &SiteInfo,
    secure: bool,
    form: &LoginVerifyForm,
    pending: Option<Uuid>,
    a: &VerifyAnswers,
) -> (r: Step<VerifyAsk>)
    ensures
        r@ == verify_step(site, secure, form, pending, a),
{
    match pending {
        None => Step::replied(Reply::see_other("/login")),
        Some(user) => match a.factors {
            None => Step::Ask(VerifyAsk::Factors(user)),
            Some(f) => match a.allowed {
                None => Step::Ask(VerifyAsk::Allowed(mfa_rate_key(user))),
                Some(false) => Step::replied(
                    Reply::page(
                        429,
                        login::login_verify_page(
                            site,
                            Some(TOO_MANY_ATTEMPTS),
                            f.totp,
                            f.passkey,
                        ),
                    ),
                ),
                Some(true) => match &a.user_found {
                    Asked::NotYet => Step::Ask(VerifyAsk::User(user)),
                    Asked::Failed => Step::gave_up(site),
                    Asked::Answer(false) => Step::replied(Reply::see_other("/login")),
                    Asked::Answer(true) => judge_factor(site, secure, form, a, user, f),
                },
            },
        },
    }
}

/// Whether the store accepted a factor.
pub open spec fn accepted(a: &VerifyAnswers, factor: MfaFactor) -> bool {
    match factor {
        MfaFactor::Passkey => a.passkey == Asked::<bool>::Answer(true),
        MfaFactor::Totp(credential) => a.totp == Asked::Answer(Some(credential)),
        MfaFactor::RecoveryCode => a.recovery == Asked::<bool>::Answer(true),
    }
}

/// The second-factor step opens a session only for the user of the pending cookie, within the
/// rate limit, and only with a factor that was presented and accepted.
pub proof fn law_session_needs_accepted_factor(
    site: &SiteInfo,
    secure: bool,
    form: &LoginVerifyForm,
    pending: Option<Uuid>,
    a: &VerifyAnswers,
    user: Uuid,
    factor: Option<MfaFactor>,
)
    requires
        verify_step(site, secure, form, pending, a) == step::StepView::<VerifyAskView>::Ask(
            VerifyAskView::Session(OpenSession { user, factor }),
        ),
    ensures
        pending == Some(user),
        a.allowed == Some(true),
        factor matches Some(f) && accepted(a, f),
        presented_by(form) != PresentedView::Nothing,
{
}

/// No question is asked twice.
pub proof fn law_verify_asks_once(
    site: &SiteInfo,
    secure: bool,
    form: &LoginVerifyForm,
    pending: Option<Uuid>,
    a: &VerifyAnswers,
)
    ensures
        match verify_step(site, secure, form, pending, a) {
            step::StepView::Ask(VerifyAskView::Factors(_)) => a.factors is None,
            step::StepView::Ask(VerifyAskView::Allowed(_)) => a.allowed is None,
            step::StepView::Ask(VerifyAskView::User(_)) => a.user_found is NotYet,
            step::StepView::Ask(VerifyAskView::Passkey { .. }) => a.passkey is NotYet,
            step::StepView::Ask(VerifyAskView::Totp { .. }) => a.totp is NotYet,
            step::StepView::Ask(VerifyAskView::Recovery { .. }) => a.recovery is NotYet,
            step::StepView::Ask(VerifyAskView::Session(_)) => a.session is NotYet,
            step::StepView::Finish(_) => true,
        },
{
}

/// A user who failed a second factor gets no session: neither is one asked for, nor is the reply
/// one that opens it, and the failure counts against the rate limit of that user.
pub proof fn law_refused_factor_opens_nothing(
    site: &SiteInfo,
    secure: bool,
    form: &LoginVerifyForm,
    user: Uuid,
    a: &VerifyAnswers,
)
    requires
        a.factors is Some,
        a.allowed == Some(true),
        a.user_found == Asked::<bool>::Answer(true),
        match presented_by(form) {
            PresentedView::Passkey { challenge_id, .. } => challenge_id is Some && a.passkey
                == Asked::<bool>::Answer(false),
            PresentedView::Totp(_) => a.totp == Asked::<Option<Uuid>>::Answer(None),
            PresentedView::Recovery(_) => a.recovery == Asked::<bool>::Answer(false),
            PresentedView::Nothing => false,
        },
    ensures
        match verify_step(site, secure, form, Some(user), a) {
            step::StepView::Ask(_) => false,
            step::StepView::Finish(f) => f.record_failure == Some(mfa_key(user)) && f.audit is Some
                && f.reply.cookies.len() == 0,
        },
{
}

/// What the start of a ceremony asks for: to begin one with the passkeys of this user. The answer
/// is the challenge and the options for the browser as JSON, or none where the user has no
/// passkey.
#[derive(Clone, Copy, Debug, PartialEq, Eq, Structural)]
pub struct BeginCeremony {
    pub user: Uuid,
}

impl View for BeginCeremony {
    type V = BeginCeremony;

    open spec fn view(&self) -> BeginCeremony {
        *self
    }
}

/// Begins a ceremony with the passkeys of a known user.
pub open spec fn ceremony_step(
    site: &SiteInfo,
    user: Uuid,
    started: Asked<Option<(Uuid, String)>>,
) -> step::StepView<BeginCeremony> {
    match started {
        Asked::NotYet => step::StepView::Ask(BeginCeremony { user }),
        Asked::Failed => step::gave_up(site),
        Asked::Answer(Some((challenge_id, options))) => step::replied(
            reply::plain(
                reply::ContentView::Json { json: reply::challenge_json(challenge_id, options@) },
            ),
        ),
        Asked::Answer(None) => step::replied(reply::text_with(400, "no passkeys"@)),
    }
}

/// `POST /me/reauth/passkey/start`: begins a ceremony with the passkeys of the signed-in user.
pub fn me_reauth_passkey_start(
    site: &SiteInfo,
    user: Uuid,
    started: &Asked<Option<(Uuid, String)>>,
) -> (r: Step<BeginCeremony>)
    ensures
        r@ == ceremony_step(site, user, *started),
{
    match started {
        Asked::NotYet => Step::Ask(BeginCeremony { user }),
        Asked::Failed => Step::gave_up(site),
        Asked::Answer(Some(ceremony)) => Step::replied(
            passkey_challenge(ceremony.0, ceremony.1.as_str()),
        ),
        Asked::Answer(None) => Step::replied(Reply::text(400, "no passkeys")),
    }
}

/// `POST /login/verify/passkey/start`: begins a ceremony for a sign-in that waits for its second
/// factor.
pub fn login_verify_passkey_start(
    site: &SiteInfo,
    pending: Option<Uuid>,
    started: &Asked<Option<(Uuid, String)>>,
) -> (r: Step<BeginCeremony>)
    ensures
        r@ == (match pending {
            Some(user) => ceremony_step(site, user, *started),
            None => step::replied(reply::text_with(401, "session expired"@)),
        }),
{
    match pending {
        Some(user) => me_reauth_passkey_start(site, user, started),
        None => Step::replied(Reply::text(401, "session expired")),
    }
}

// ---- Signing out -----------------------------------------------------------------------------

/// The reply to a sign-out: the session cookie goes, whether or not the session could be ended.
pub open spec fn signed_out(next: Option<Seq<char>>, secure: bool) -> reply::ReplyView {
    reply::see_other(cookies::logout_target(next)).only_cookie(
        cookies::cleared_cookie(SESSION_COOKIE_NAME@, secure),
    )
}

/// What signing out asks for: to end a session of a user and to log it, both or neither.
pub struct EndSession {
    pub user: Uuid,
    pub session: Uuid,
    pub entry: AuditEntry,
}

pub struct EndSessionView {
    pub user: Uuid,
    pub session: Uuid,
    pub entry: audit::EntryView,
}

impl View for EndSession {
    type V = EndSessionView;

    open spec fn view(&self) -> EndSessionView {
        EndSessionView { user: self.user, session: self.session, entry: self.entry@ }
    }
}

pub open spec fn logout_step(
    c: &Caller,
    current: Uuid,
    form: &LogoutForm,
    secure: bool,
    tried: bool,
) -> step::StepView<EndSessionView> {
    if !c.csrf_ok {
        step::replied(gate::bad_token(c.site))
    } else if !tried {
        step::StepView::Ask(
            EndSessionView {
                user: c.user_id,
                session: current,
                entry: audit::signout_entry(current),
            },
        )
    } else {
        step::replied(signed_out(text::opt_string(form.next), secure))
    }
}

/// `POST /logout`: ends the session `current` that the form came with. The reply goes out however
/// that went; `tried` says that it was tried.
pub fn logout_submit(
    c: &Caller,
    current: Uuid,
    form: &LogoutForm,
    secure: bool,
    tried: bool,
) -> (r: Step<EndSession>)
    ensures
        r@ == logout_step(c, current, form, secure, tried),
{
    match gate::check_all(c, Floor::Member, false) {
        Ok(()) => {},
        Err(reply) => {
            return Step::replied(reply);
        },
    }
    if !tried {
        return Step::Ask(
            EndSession { user: c.user_id, session: current, entry: audit::signout(current) },
        );
    }
    let target = cookies::safe_logout_next(text::lend(&form.next));
    let cookie = cookies::cookie_value(SESSION_COOKIE_NAME, "", true, secure);
    Step::replied(set_cookie_header(Reply::see_other(target), cookie.as_str()))
}

/// Signing out ends the caller's own session, the one they came with, and no other.
pub proof fn law_signing_out_ends_the_current_session(
    c: &Caller,
    current: Uuid,
    form: &LogoutForm,
    secure: bool,
    tried: bool,
)
    ensures
        logout_step(c, current, form, secure, tried) matches step::StepView::Ask(q) ==> c.csrf_ok
            && q.user == c.user_id && q.session == current,
{
}

} // verus!
